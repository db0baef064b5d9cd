# wrun

Verified core of `wrun`, a tool that runs a method of a Wasm module in one of
several Internet Computer execution environments, and of `cycles-cost`, which
prints the cycles price breakdown of the Internet Computer.

- `src/` is the library, checked by Verus:
  - `format.rs`: decimal text of cycle amounts with `_` between groups of three digits;
  - `costs.rs`: the rows of the price table, from the fee quotes of each subnet size;
  - `table.rs`: the text lines of a price table, with aligned columns;
  - `wasmtime.rs`: running an update method in a plain wasmtime engine;
  - `testnet.rs`: deployment to a testnet canister as a state machine, and chunking of modules;
  - `wat_source.rs`: turning a module file, text or binary, into a binary module;
  - `cli.rs`: choosing the runner (with a default testnet URL) and the launch mode from the arguments;
  - `text.rs`: string building steps.
- `app/` holds the command line, the network and file reading, the IC
  execution environments, and the floating point formats.
- `tests/` holds the tests of the library.
