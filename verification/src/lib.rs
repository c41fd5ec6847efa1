//! A verified validator for the slots of a gaming rollup.
//!
//! A slot is one transaction on one account of a sparse Merkle tree: a deposit, a
//! bet, a withdrawal, a key registration and so on. A block proof covers many
//! slots, and one bad slot makes the whole proof unverifiable. So every candidate
//! is checked here first, against every constraint that the slot circuit puts on
//! it and against the rules of its game. [`validate_slot`] returns the state after
//! the slot, or the first [`SlotRejection`].
//!
//! The contract of [`validate_slot`] equates its result with
//! [`validate::verdict`], a mathematical account of the rules. [`transitions`]
//! states what that means for each transaction type, [`rounds`] for each game and
//! [`layouts`] for each encoding. [`laws`] states what follows for every accepted
//! slot and every run of slots, [`binding`] what a root commits to.
//!
//! Two things are parameters: the hash, any function from field elements to a
//! digest of four ([`hash`]), and the game rules ([`games`]). The contracts hold
//! of every choice of them.
pub mod address;
pub mod allowance;
pub mod auth;
pub mod balance;
pub mod binding;
pub mod blackjack;
pub mod fairness;
pub mod field;
pub mod flags;
pub mod games;
pub mod hash;
pub mod laws;
pub mod layouts;
pub mod merkle;
pub mod nonce;
pub mod rounds;
pub mod slot;
pub mod transitions;
pub mod validate;

pub use address::recipient_addr_hash_for;
pub use merkle::TREE_DEPTH;
pub use nonce::{
    advance_nonce, join_nonce, split_nonce, ACCOUNT_LANE_BITS, ACCOUNT_LANE_MAX, ACCOUNT_LANE_UNIT,
    GAME_LANE_BITS, GAME_LANE_MAX,
};
pub use slot::{
    SlotEffects, SlotInput, SlotRejection, MAX_TX_TYPE, TX_BET, TX_BONUS, TX_CRASH_SETTLE,
    TX_DEPOSIT, TX_IN_HOUSE_BET, TX_KEY_REGISTER_ONLY, TX_NOOP, TX_REFERRAL, TX_RISK_REJECT,
    TX_SET_INIT_SEED_HASH, TX_SET_PROVIDER_ALLOWANCE, TX_TRANSFER, TX_WIN, TX_WITHDRAWAL,
};
pub use validate::validate_slot;
