# livelog

A desktop log viewer: programs post log messages to a local HTTP endpoint,
the messages are stored in SQLite, and a window lists them with filters by
text, color and level.

- `src/` is the verified library (Verus): the SQL text and bound values of
  every statement (`sql`, `filters`, `commands`, `payloads`), the splitting and
  quoting of comma-separated filter lists (`text`), where the database lives
  (`config`), the tray menu and window reactions (`tray`) and the ingestion
  endpoint's reply (`endpoints`).
- `tests/` runs the library on concrete values.
- `app/` is the program around it: the Tauri window and commands, the Rocket
  endpoint, SQLite access through sqlx, the Tera templates, and the JSON forms
  of the log messages.
