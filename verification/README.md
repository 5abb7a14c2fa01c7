# openvtt

The verified core of a small virtual tabletop.

- `src/` is the library, verified with Verus: the error answers of the
  HTTP server (`errors`, with their JSON bodies in `json`), password hashing
  and checking with bcrypt (`password`), the login and registration logic
  (`routes`), the rows of the `players` table (`database`, `models`), the
  server's start-up decisions (`server`) and the client's screen switches,
  input blocking and packet handling (`client`).
- `app/` is the server program around it: axum routes, the diesel/deadpool
  connection pool, migrations, logging and shutdown.
- `tests/` runs the library on concrete values.
