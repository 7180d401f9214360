# ely_app

The verified core of the ELY browser shell, written in Verus.

- `src/` holds the shell's own logic with its contracts and proofs: the
  labels and counts of the internal pages, the Markdown note preview, the
  sign-in callback reader, export file names and paths, the download row
  actions, the theme toggle, and the state machines behind local saves,
  sync uploads, the routing of sync worker reports, the sync devices panel
  and plugin installs.
- `app/` holds the edges that stay outside verification: the clock, the
  file system, the user's folders and the floating-point layout helpers.
- `tests/` exercises the library on concrete values.
