# haven_registry

A verified model of the Haven device registry: devices are registered under
the SHA-256 hash of their IMEI, can be reported stolen with an escrowed
recovery bounty, recovered by their owner (releasing the bounty), or handed
over to an insurer.

- `src/` is the library, verified with Verus. `model.rs` defines the registry
  as a state machine over plain values; `lib.rs` holds the storage
  (`HavenRegistry`) and its entry points; `device.rs`, `killswitch.rs`,
  `recovery.rs` and `insurance.rs` hold the request logic; `laws.rs` proves
  properties that span requests; `table.rs` and `bytes.rs` are helpers.
- `app/` is the Soroban contract around the library: it authenticates callers
  with the host, loads and stores ledger entries, and turns refusals into
  contract panics.
- `tests/` exercises the library on concrete values.
