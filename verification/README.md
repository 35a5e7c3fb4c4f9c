# codypendent

Declarative workflows for coding agents, and the terminal shell that watches them run.
The rules are a library verified with [Verus](https://github.com/verus-lang/verus): every
function states what it returns, and the proof is checked with the code.

## The library (`src/`)

* `text`, `text_map`, `lines`, `number`, `digest`, `stamp` — characters, sorted maps, line
  and word splitting, floats by their bits, digests, identifiers and the time of day.
* `workflow` — definitions (`model`), their compiler (`compile`), what they refer to
  (`registry`, `agent`, `resolve`, `source`), the values bound into tool arguments (`json`,
  `binding`), budgets (`budget`), runs and their records (`store`), the driver that advances
  a run one step at a time (`drive`), the run lifecycle (`conductor`), shared artifacts
  (`blackboard`), and errors in words (`wording`).
* `tui` — what the shell keeps (`state`, `action`, `protocol`), how events are read
  (`input`), text in terminal cells (`cells`, `summary`), colors (`theme`, `theme_pack`),
  and the whole screen as data (`render` and the modules it is put together from).

What holds of several functions together is stated as a public proof function named
`law_…`, in the module it is about or in the `…_laws` module beside it.

Outside functions are called behind small wrappers whose documentation starts with
"Trusted:" and says what is taken of them without proof.

## Around it

* `app/` — files, the database, sleeping, and the terminal. It reads rows into the library's
  tables, applies an operation there and writes the result back; it performs what the driver
  asks for; it lays out and draws the screen.
* `tests/` — the library on concrete values.
