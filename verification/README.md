# cdrs_orm

Query analysis and query-text generation for an object mapper over
Cassandra/ScyllaDB tables, with contracts proved by Verus.

- `src/` — the library, verified:
  - `crud`, `query_executor`, `schema`, `supported_data_types`, `decimal`:
    reading a CQL query (its kind, table, columns, where clause, limit and
    time to live) and checking it against the columns of its table.
  - `capitalizing`: struct names and table names.
  - `query_writer`, `mirror`, `method_writer`, `impl_writer`, `some_struct`:
    the methods, constants and query texts that the derive macros write.
  - `query_macro`: the argument types of the compile-time checked queries.
  - `read_back`: the generated where clauses and insert queries are read
    back by the query reader as the columns they were written for.
  - `materialized_view`, `ci`: schema queries for materialized views, and
    the steps of the continuous integration.
  - `text`: string searching, splitting and replacing, with their models.
- `app/` — the database sessions, environment, files, commands and the
  token output of the derive macros, around the library.
- `tests/` — tests of the library on concrete values.
