# portonet

The backend of a door-access service: holders of an access key open a door
through Home Assistant, an administrator with the master password manages the
keys, and repeated failures lock the door for fifteen minutes.

- `src/` is the verified library. `decimal` and `duration` read and write the
  numbers and key lifetimes (`12h`, `3d`, `2m`) of requests; `time` holds
  instants as nanoseconds since the epoch; `db_access` holds the rules behind
  the keys, logs and system tables (key verdicts, the lockout, the counters);
  `api` decides each request (what to record, how to answer), with the
  open-door request as a step function; `custom_error_mapper` turns errors into
  HTTP replies.
- `app/` is the program: axum routes, SQLite queries through sqlx, the clock,
  the environment and the Home Assistant call. It hands plain values to the
  library and carries out what the library decides.
- `tests/` exercises the library on concrete values.
