# dhesinta

A service for hosting dictionaries: users own dictionaries, dictionaries hold entries,
and entries carry key/value fields (which a user's Luau module may compute).

- `src/` is the library, verified with Verus: the records and the rows that store them
  (`dictionary`, `entry`, `module`, `user`), identifiers and timestamps (`ident`, `time`),
  configuration (`config`), errors (`error`), and how each HTTP request is answered given
  what the database, the session store and the serializer reported (`api`).
- `app/` is the server around it: axum routes and handlers, sqlx queries, sessions and
  password hashing, configuration files, and running Luau modules.
- `tests/` exercises the library on concrete values.
