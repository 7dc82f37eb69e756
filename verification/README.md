# parkplatzcoder

The library core of ParkPlatzCoder, a tray tool that parks a one-line note
together with the git working context it was written in (repository,
branch, last commit, changed files), verified with Verus.

- `src/` — the verified library: the note records (`model`), the storage,
  export, notifier and watcher modules (not implemented yet; they answer so),
  the git context reader (`git_context`, on top of `git2`), the order and
  normalization of changed-file lists (`path_list`), the commands the user
  interface invokes (`commands`) and the tray decisions (`tray`).
- `app/` — the Tauri application around it: windows, tray menu, global
  shortcut, the X11 lookup of the active window and the filesystem probes.
- `tests/` — tests of the library.
