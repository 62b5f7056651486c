# bkdbupdate

Reconciles a backup listing ("bklist": one line per file,
`name|size|date|directory|reference|md5`) with the `blubackup` table of an
SQLite database, through a small window.

- `src/` is the verified library (Verus). Its decisions are state machines
  that ask for outside work and take the answers as plain values:
  - `text.rs`: splitting at `|`, trimming, substring search, UTF-8 byte
    positions, decimal formatting and integer parsing, each proved against a
    short specification;
  - `reconcile.rs`: what one listing line says against the rows of its
    reference name (exclusion, directory, size, date, checksum);
  - `execrun.rs`: the reconciliation run;
  - `press.rs`: the checks made before a run;
  - `bklist.rs`: reading a listing into the panel;
  - `panel.rs`: the panel and what each control does to it;
  - `progstart.rs`: the progress ticker and the reading of progress reports;
  - `events.rs`: the shapes of the answers from the disk and the database;
  - `laws.rs`: properties that hold across operations.
- `app/` is the window (iced), the database (rusqlite), the files and the
  background tasks: it performs what the library asks for.
- `tests/` runs the library on concrete values.
