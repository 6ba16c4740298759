# k_launcher

The logic of a command palette for Linux desktops, verified with Verus.

`src/` is the verified library:

- `domain` — result identifiers, titles, scores, launch actions, search results.
- `kernel` — the plugin host: forwards selection and shutdown notices and
  ranks the plugins' answers (stable sort by descending score, cut at the
  configured maximum), with the ranking laws.
- `launcher_state` — the toolkit-independent state machine of the launcher
  window (`step` is its specification), with its laws.
- `input` — key presses to launcher actions.
- `text` — whitespace splitting, trimming and command-line splitting.
- `launcher` — terminal selection and the processes to start for an action.
- `protocol` — the external-plugin protocol model.
- `config` — configuration sections and their defaults.
- `error` — program errors.

`app/` is the program around it: configuration loading, logging, the egui
front end, asynchronous plugin searches, process spawning, and the external
plugin transport (JSON over pipes).
