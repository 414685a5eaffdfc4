# pgx_array

Postgres arrays as Rust values, with the reading, walking, converting and building of arrays
proved against contracts in Verus.

- `src/` is the library. `nulls`, `layout` and `raw` describe an array as the server keeps it;
  `array`, `variadic` and `iter` read it; `datum` and `convert` turn datums into arrays and
  vectors; `builder` turns Rust values into requests that make an array; `sql` names array
  types; `laws` states what holds across these.
- `app/` is what runs inside the server: it reads the server's memory, calls the server's
  functions, frees what arrays own, and serializes.
- `tests/` runs the library on concrete arrays.
