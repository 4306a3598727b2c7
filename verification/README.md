# weekly_log

A small web application for weekly meeting logs: staff submit work items for
a meeting (month and number within the month), and a summary side lists,
filters and reports them and maintains the lists of persons, projects and
specialties.

- `src/` is the verified library: text escaping and trimming, decimal
  formatting and parsing, the submission form parser, the filters, the
  reports, the option rules, the SQL statements that depend on the option
  kind, and every HTML page, each with a contract proved by Verus.
- `app/` is the server around it: HTTP routes (actix-web), the SQLite
  database (rusqlite), the clock (chrono) and the request shapes (serde).
- `tests/` runs the library on concrete values.
