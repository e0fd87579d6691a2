# octopus

The logic of the Octopus Git desktop client, verified with Verus: request
and state checks, the error envelope, remote URL and pull-request provider
handling, history paging and search, the operation coordinator, the
repository registry with its single-use confirmation tokens and pinned
history walks, the conflict inspector, branch, stash, staging and history
rewrites, and the Bitbucket credential flow.

- `src/` is the verified library. Each public function states in its
  contract what it returns for every input; the laws that relate several
  functions (cursor and workspace-key round trips, paging without gaps,
  request-id dedup, what a confirmation token can confirm, the calendar,
  timestamp text order, a cursor walk reading every row once) are public
  proof functions.
- The commands that alternate Git work and decisions are step functions:
  `*_begin` checks the request and says what to do first, `*_step` takes
  what happened and says what to do next, each with a contract over a
  `*_next` specification, including what each step does to the registry
  (merge record, state, version, pinned history walks). This covers
  commit, merge start, completion and commit merge, interactive rebase,
  branch delete, stash apply and pop, fetch and pull, confirmation
  prepare, Bitbucket connect, pull-request creation and remote jobs.
- `tests/` runs the library on concrete values.
- `app/` is the shell around it: serde shapes for the webview, the Git
  child processes, the pull-request HTTP call, the float font-scale check
  of the settings patch, and drivers that perform what the step functions
  ask. Handlers for the other webview commands are not written yet.

Calls into outside crates go through a few trusted wrappers, each
documented where it stands: `serde_json` for reading and quoting JSON,
`uuid` for operation ids and confirmation tokens, and std's lossy UTF-8
decoding, lowercase mapping, `Debug` text and char collection.
