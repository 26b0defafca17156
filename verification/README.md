# Sage Data Bridge

Data extraction and reporting for Sage accounting databases on SQL Server,
as a verified library with a small command-line front end.

- `src/` is the library, written in Verus: every function carries a
  contract and is proved against it. It holds the SQL the reports run
  (General Ledger, trial balance, auxiliary ledger, dashboards, Sage 1000
  routes), the detection of the Sage edition and its tables, the reading of
  report rows, the CSV, JSON, SQL and Excel writers (ZIP and XLSX included),
  the export job register and the run decisions of the exports, connection
  profiles and settings, Argon2 password checks, and the commercial bridge's
  documents, postings and payments.
- `app/` is ordinary Rust around it: argument handling, the SQL Server
  connection (tiberius), files on disk, JSON output.
- `tests/` runs the library on concrete values.

Calls into outside crates (chrono, rust_decimal, argon2, serde_json, uuid,
`std::path`) stand behind small trusted wrappers in `src/`, each with a doc
comment that says what its contract claims of the call.
