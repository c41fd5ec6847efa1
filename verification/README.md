# slot_validator

A verified validator for the slots of a gaming rollup. `validate_slot` decides
whether a candidate slot may go into a block and returns the account state after
it, or the first reason to reject it.

- `src/` is the library. `validate.rs` holds the verdict on a slot and the function
  that computes it; `balance.rs`, `allowance.rs`, `address.rs`, `auth.rs`,
  `nonce.rs` and `fairness.rs` hold the rules it is made of; `field.rs`, `hash.rs`
  and `merkle.rs` the encodings; `laws.rs` and `binding.rs` what follows from them.
- `app/` supplies Poseidon2, the game rules and the serde types.
- `tests/` runs the library with a small sponge and simple game rules.

The hash and the game rules are parameters of the library. A contract that begins
`hash::computes(hash, f) && games.behaves(g) ==> ...` holds of whatever functions
`f` and `g` they compute, and no outside function is taken on trust in `src/`. What
is asked of the two parameters stands in `requires`: `hash::is_sponge` (canonical
elements are accepted, digests are canonical) and `GameCore::is_total` (the rules
accept whatever the validator hands them). `app/` passes Poseidon2 and the rules of
`rolly_game_core` under these two conditions, and nothing checks that they meet
them.
