//! One-hot transaction-type flags.
//!
//! No layer branches on the transaction type: each decodes it once and selects
//! its effects by flag, as the slot circuit does.
use crate::slot::{
    TX_BET, TX_BONUS, TX_CRASH_SETTLE, TX_DEPOSIT, TX_IN_HOUSE_BET, TX_KEY_REGISTER_ONLY, TX_NOOP,
    TX_REFERRAL, TX_RISK_REJECT, TX_SET_INIT_SEED_HASH, TX_SET_PROVIDER_ALLOWANCE, TX_TRANSFER,
    TX_WIN, TX_WITHDRAWAL,
};
use vstd::prelude::*;

verus! {

/// One-hot decode of `tx_type`: exactly one flag is set for a valid type, none
/// for any other.
#[derive(Clone, Copy, Debug)]
pub struct TxFlags {
    pub is_noop: bool,
    pub is_deposit: bool,
    pub is_bet: bool,
    pub is_win: bool,
    pub is_bonus: bool,
    pub is_in_house_bet: bool,
    pub is_withdrawal: bool,
    pub is_risk_reject: bool,
    pub is_set_init_seed_hash: bool,
    pub is_key_register_only: bool,
    pub is_transfer: bool,
    pub is_referral: bool,
    pub is_crash_settle: bool,
    pub is_set_provider_allowance: bool,
}

impl TxFlags {
    /// The flags of `tx_type`.
    pub open spec fn of(tx_type: u8) -> TxFlags {
        TxFlags {
            is_noop: tx_type == TX_NOOP,
            is_deposit: tx_type == TX_DEPOSIT,
            is_bet: tx_type == TX_BET,
            is_win: tx_type == TX_WIN,
            is_bonus: tx_type == TX_BONUS,
            is_in_house_bet: tx_type == TX_IN_HOUSE_BET,
            is_withdrawal: tx_type == TX_WITHDRAWAL,
            is_risk_reject: tx_type == TX_RISK_REJECT,
            is_set_init_seed_hash: tx_type == TX_SET_INIT_SEED_HASH,
            is_key_register_only: tx_type == TX_KEY_REGISTER_ONLY,
            is_transfer: tx_type == TX_TRANSFER,
            is_referral: tx_type == TX_REFERRAL,
            is_crash_settle: tx_type == TX_CRASH_SETTLE,
            is_set_provider_allowance: tx_type == TX_SET_PROVIDER_ALLOWANCE,
        }
    }

    /// The two game types, which pay a win and enter the multiset.
    pub open spec fn plays(self) -> bool {
        self.is_in_house_bet || self.is_crash_settle
    }

    /// The types signed under the game lane of the nonce.
    pub open spec fn signs_game_lane(self) -> bool {
        self.is_in_house_bet || self.is_crash_settle || self.is_set_provider_allowance
    }

    /// The types signed under the account lane of the nonce.
    pub open spec fn signs_account_lane(self) -> bool {
        self.is_withdrawal || self.is_transfer
    }

    /// Number of flags set.
    pub open spec fn count(self) -> int {
        let one = |b: bool|
            if b {
                1int
            } else {
                0int
            };
        one(self.is_noop) + one(self.is_deposit) + one(self.is_bet) + one(self.is_win) + one(
            self.is_bonus,
        ) + one(self.is_in_house_bet) + one(self.is_withdrawal) + one(self.is_risk_reject) + one(
            self.is_set_init_seed_hash,
        ) + one(self.is_key_register_only) + one(self.is_transfer) + one(self.is_referral) + one(
            self.is_crash_settle,
        ) + one(self.is_set_provider_allowance)
    }

    /// Decode `tx_type`.
    pub fn from_tx_type(tx_type: u8) -> (r: Self)
        ensures
            r == TxFlags::of(tx_type),
    {
        TxFlags {
            is_noop: tx_type == TX_NOOP,
            is_deposit: tx_type == TX_DEPOSIT,
            is_bet: tx_type == TX_BET,
            is_win: tx_type == TX_WIN,
            is_bonus: tx_type == TX_BONUS,
            is_in_house_bet: tx_type == TX_IN_HOUSE_BET,
            is_withdrawal: tx_type == TX_WITHDRAWAL,
            is_risk_reject: tx_type == TX_RISK_REJECT,
            is_set_init_seed_hash: tx_type == TX_SET_INIT_SEED_HASH,
            is_key_register_only: tx_type == TX_KEY_REGISTER_ONLY,
            is_transfer: tx_type == TX_TRANSFER,
            is_referral: tx_type == TX_REFERRAL,
            is_crash_settle: tx_type == TX_CRASH_SETTLE,
            is_set_provider_allowance: tx_type == TX_SET_PROVIDER_ALLOWANCE,
        }
    }

    /// `in_house_bet` or `crash_settle`.
    #[inline]
    pub fn is_ihb_or_crash(&self) -> (r: bool)
        ensures
            r == self.plays(),
    {
        self.is_in_house_bet || self.is_crash_settle
    }

    /// `in_house_bet`, `crash_settle` or `set_provider_allowance`.
    #[inline]
    pub fn is_game_lane(&self) -> (r: bool)
        ensures
            r == self.signs_game_lane(),
    {
        self.is_in_house_bet || self.is_crash_settle || self.is_set_provider_allowance
    }
}

impl Default for TxFlags {
    /// No flag set.
    fn default() -> (r: Self)
        ensures
            r.count() == 0,
    {
        TxFlags {
            is_noop: false,
            is_deposit: false,
            is_bet: false,
            is_win: false,
            is_bonus: false,
            is_in_house_bet: false,
            is_withdrawal: false,
            is_risk_reject: false,
            is_set_init_seed_hash: false,
            is_key_register_only: false,
            is_transfer: false,
            is_referral: false,
            is_crash_settle: false,
            is_set_provider_allowance: false,
        }
    }
}

} // verus!
