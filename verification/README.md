# tui-async-template

A terminal user interface in the Elm style (`Message` → `update` → render),
with its decisions verified by Verus.

- `src/` is the verified library: the application state (`state`), the
  messages and the main loop's decision for each of them (`update`), the key
  bindings (`event`), the addresses and result messages of the background
  fetches (`api`), what each panel displays (`view`, `text`), the widget
  selection state (`selection`, which calls ratatui for the moves) and the
  laws that hold across these functions (`laws`).
- `app/` is the program around it: terminal setup, the input thread, the HTTP
  tasks, drawing with ratatui and the tokio main loop.
- `tests/` runs the library on concrete values.

Keys: `↑`/`↓` move the selection, `Tab` switches panel, `Enter` loads the
to-dos of the selected user, `l` shows or hides the log panel, `q`/`Esc` quit.
