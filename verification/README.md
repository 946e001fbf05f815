# rs_vst_host

A VST3 plugin host whose decisions are verified with Verus.

The library in `src/` holds what the host decides and computes, as functions of plain values:

| Modules | What they hold |
| --- | --- |
| `com`, `utf16`, `text` | identifiers and constants of the interfaces, strings, note events |
| `calls`, `sandbox`, `error` | calls into a plugin as data, their outcomes, and error texts |
| `instance`, `bus`, `state`, `editor` | the operations on a plugin instance |
| `creation`, `controller`, `connection`, `teardown` | the conversations that take several calls |
| `plugins`, `scan`, `commands`, `cli` | finding plugins, and the commands of the program |
| `session`, `render_session` | a live session and an offline rendering, from beginning to end |
| `render`, `sorting`, `wav` | notes, blocks, stable sorting and the file that is written |

A conversation with a plugin is a state machine. It names the next call; the program in `app/`,
which owns the interface pointers, makes the call and hands the answer back. Objects are named by
their addresses, and floating-point numbers are carried by their bit patterns.

What is proved besides the contracts of the functions:

- Over a life without a crash, every reference that a plugin instance takes is given back when it
  is taken down, and the host objects that were made for it, with one component handler at most,
  are freed (`creation`, `controller`, `connection`, `editor`, `teardown`). A second handler that
  a controller accepts takes the place of the first, which is then not freed.
- A plugin that has crashed is not called again, and from then on its teardown frees nothing
  (`instance`, `teardown`). A handler is freed at once where the call that hands it over crashes.
- What is written to a string buffer or to a file is read back (`com`, `utf16`, `wav`).
- The blocks of a rendering cover every frame once, and every event is handed out once, with the
  block that it falls in and at its place there (`render`, `render_session`).
- A plugin that is given by the path of a bundle that exists is looked for there, whatever the
  cache holds, and any other in the cache alone (`plugins`).
- A session goes through its stages in order, and stops at the first failure (`session`).

The tests in `tests/` run the library, and compare its constants with those of the `vst3` crate.
