# Storage Manager

A desktop application for running a self-storage property: storage units
and their layout, tenants, rentals, payments, padlocks, reports, and
database backups.

The project has two parts.

- `src/` is a library verified with Verus. It holds the rules of the
  application: reading and formatting money amounts and dates, the forms of
  every page and what each user action does to a page, the checks made
  before and between database statements, the dashboard's unit layout and
  lock coverage, and the naming, ordering and checking of backup files.
  Every public function states its result in its contract, and the laws
  that relate functions (for example that an amount written into a form
  reads back as the same amount) are proved as `pub proof fn` items.
- `app/` is the program around it: the egui user interface, the SQLite
  database (rusqlite), the configuration file (serde and toml) and the
  file system. It hands plain values to the library and shows what the
  library gives back.

Unit dimensions are stored in the library as the bit patterns of `f64`
feet values; formatting them and the occupancy percentage stay in `app/`.
