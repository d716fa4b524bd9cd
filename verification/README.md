# flashblocks_overlay

Simulation of calls on top of pending flashblocks, verified with Verus.

A flashblock extends a canonical block before the next block is sealed. Its effect is a diff over the
canonical state that is kept in memory. The library reads through that diff lazily and decides how a
simulation on top of it proceeds.

- `src/` is the verified library. `overlay` serves reads from the diff before the canonical state;
  `materialize` shows that these are the reads of the canonical state with the diff applied. `rules`
  holds the rules of a simulation, `overrides` the effect of a block's overrides, `simulation` its
  course, and `laws` what holds of it as a whole.
- Two files hold every contract that is taken on trust. `src/bundle.rs`: lookups in the diff types of
  `revm`, its `Bytecode::clone` and its constant `KECCAK_EMPTY`, `U256::from_be_bytes` of
  `alloy-primitives`, and `Arc::clone`. `src/overrides.rs`: `apply_block_overrides` of `alloy-evm`.
- `app/` binds the library to a node: it implements the node's state provider on top of the overlay and
  performs the work that a simulation asks for.
- `tests/` runs the library with the outside crates linked.
