# kuroya_logic

The decision logic of the Kuroya editor shell, written in Verus and proved
against its contracts.

- `src/` is the library. Each module states what its functions return over
  mathematical views (`Seq<char>` for text, `Seq`/`Map`/`Set` for
  collections) and proves it; the laws that tie several functions together
  are public proof functions (`lemma_*`).
- `tests/` runs the library on concrete values.
- `app/` is the small program around the library: command-line handling,
  file-system access (listing folders, looking for `.git` markers), and the
  locks shared between worker threads.

Work that the library cannot do itself is handed back as values: task
launches (`app_state::TaskLaunch`), the next folder to list
(`repository_scan::RepositoryScan`), the session save to start
(`session_events::SessionSaveFollowUp`), and so on.
