# open62541 (verified core)

OPC UA client and server library built around the open62541 C library, with its logic verified
by Verus.

- `src/` is the verified library. `ua` models the OPC UA data types that the logic reads and
  writes as plain values (node IDs, status codes, variants, data values, requests and responses).
  The other modules build service requests and interpret responses (`async_client`,
  `async_subscription`, `async_monitored_item`, `monitored_item`, `service`), hold client and
  server configuration (`client`, `server`, `ssl`), order remote data types by their dependencies
  (`async_client::topological_sort`, `plan_new_data_types`), keep the growable chain of data type
  arrays (`data_type_array`), and decide what the background task and the server callbacks do
  with the outcomes they see.
- `app/` connects the library to the C library through `open62541-sys`: conversions between the
  plain values and the C types, the client's and the server's event loops, monitored item
  streams, and the callbacks into user code.
- `tests/` runs the library on concrete values.
