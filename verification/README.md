# holochain_runtime

A Holochain runtime for applications that carry their own conductor. It spawns the Lair keystore,
authenticates with an hc-auth server where one is configured, starts the conductor, installs and
updates apps, opens websockets to them, exports and imports the agent seed, and shuts everything
down so that the next launch finds the apps as they were.

## Layout

- `src/` is the library. It is written in Verus and makes every decision of the runtime. Each
  operation is a state machine whose states name the next outside call and its arguments; `advance`
  takes the reply. What every step does is stated in `steps` and in the functions ending in `next`,
  and what holds of whole runs is proved in the functions whose names start with `law_`.
  The passphrase, the handles of the keystore and that of the conductor are type parameters: the
  states carry them from the call that gives them to the calls that take them.
- `app/` runs those machines on a real conductor. `drivers.rs` holds the loops, `calls.rs` the
  calls in plain values, `runtime.rs` the calls themselves.
- `tests/` runs the machines against replies that are written out.

## What is taken on trust

- `std::path::PathBuf` is carried through unread, and a clone of it is taken to be the same path.
- The bytes and the text form of agent keys come from the `holo_hash` crate. `src/agent_key.rs`
  states what is taken to hold of its three functions.

What the conductor, the keystore and the file system answer is not assumed to be anything: each
reply is an event, and every event has its place in the contracts.
