# pg_noddl

The verified core of a PostgreSQL extension that blocks DDL while a
logical-replication migration runs.

- `src/statement.rs`: which utility statements are blocked, which of them an
  admin user may still run, and their names in error messages.
- `src/state.rs`: the settings (blocking on or off, the admin user) and how
  enabling and disabling change them.
- `src/hook.rs`: the decisions of the `ProcessUtility` hook, in two steps, and
  the laws that tie them to the blocking rule.
- `src/text.rs`: reading role names and query text from PostgreSQL's bytes.
- `src/message.rs`: the error message for a blocked statement.
- `app/lib.rs`: the pgrx glue (SQL functions, catalog lookups, hook
  installation, raising the error); it holds no decisions of its own.
