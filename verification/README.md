# realworld-balance

A balance service: it takes transfer requests from Kafka, checks that the
source account covers the withdrawn amount, records the transfer in
CockroachDB and publishes the transfer's status.

- `src/` is the verified library (Verus): the shared data types, the
  handlers' decisions as state machines (`transference_service`,
  `transaction_service`, `decision`), the store writes a transfer makes
  (`store_writes`), the start-up settings read from the environment
  (`settings`) and the text functions they rest on (`text`).
- `app/` is the program around it: Kafka and database I/O, the async loops
  that feed the handlers, the serde forms of the types, and the balance
  comparison, which is floating point.
- `tests/` exercises the library on concrete values.
