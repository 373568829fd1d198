# adbc_flightsql

The core of an ADBC driver for Arrow Flight SQL, verified with Verus.

The library in `src/` never calls a server. It holds the options of drivers, databases, connections
and statements, says which call comes next, takes the answers, and builds the errors, schemas and
record batches that the driver hands out.

- `error`, `options`, `text`, `double`, `timeouts`: errors, option values and timeouts.
- `driver`, `database`, `transport`, `connection`, `statement`, `stream`: the life of a query, from a
  URI to its results.
- `flight`: tickets, schemas and partitions of flights.
- `columns`, `builders`: what is used of the Arrow crates, with what it is trusted to do.
- `metadata`: information codes, the hierarchy of database objects, table types and table schemas.

`app/` is the driver around it: the traits of ADBC, the calls to servers, files, floating point
numbers and the asynchronous runtime.
