//! What a slot is: its transaction types, the candidate witness, the effects of
//! an accepted slot and the reasons for rejecting one.
use crate::field;
use crate::merkle::TREE_DEPTH;
use vstd::prelude::*;

verus! {

/// Highest valid transaction type; types are `0..=MAX_TX_TYPE`.
pub const MAX_TX_TYPE: u8 = 13;

pub const TX_NOOP: u8 = 0;

pub const TX_DEPOSIT: u8 = 1;

/// A bet placed by a game provider on the owner's behalf, capped by the owner's
/// provider allowance.
pub const TX_BET: u8 = 2;

pub const TX_WIN: u8 = 3;

pub const TX_BONUS: u8 = 4;

pub const TX_IN_HOUSE_BET: u8 = 5;

pub const TX_WITHDRAWAL: u8 = 6;

pub const TX_RISK_REJECT: u8 = 7;

pub const TX_SET_INIT_SEED_HASH: u8 = 8;

pub const TX_KEY_REGISTER_ONLY: u8 = 9;

pub const TX_TRANSFER: u8 = 10;

pub const TX_REFERRAL: u8 = 11;

pub const TX_CRASH_SETTLE: u8 = 12;

/// The owner sets the absolute provider allowance; zero revokes it.
pub const TX_SET_PROVIDER_ALLOWANCE: u8 = 13;

/// The candidate witness of one slot, with the block state it is checked
/// against and the raw game parameters that the payout layer needs.
///
/// Field elements are raw `u64` limbs, so that the validator itself can refuse
/// a limb outside the field.
#[derive(Clone, Debug)]
pub struct SlotInput {
    pub tx_type: u8,
    pub user_id: u32,
    pub amount: u64,
    pub win_amount: u64,
    pub old_balance: u64,
    pub old_deposit_credit: u64,
    /// Packed two-lane nonce of the old leaf.
    pub old_nonce: u64,
    /// Provider allowance of the old leaf; zero for an account that never
    /// granted one.
    pub old_provider_allowance: u64,
    pub main_siblings: [[u64; 4]; TREE_DEPTH],
    pub server_seed: [u64; 8],
    pub user_seed: [u64; 4],
    pub old_seed_hash: [u64; 3],
    pub next_server_seed_hash: [u64; 3],
    pub old_pk_hash: [u64; 4],
    pub new_pk_hash: [u64; 4],
    pub user_address: [u8; 20],
    pub old_address_hash: [u64; 4],
    /// The signed payout counterparty: the first two elements of the address
    /// hash that a withdrawal pays, zero on every other type.
    pub recipient_addr_hash: [u64; 2],
    pub old_total_liability: u64,
    pub game_id: u8,
    pub prediction_hash: [u64; 4],
    pub user_secret_random: [u64; 4],
    /// Root that the old leaf must authenticate against.
    pub current_root: [u64; 4],
    /// Total liability that `old_total_liability` must equal.
    pub current_tl: u64,
    pub game_mode: u32,
    pub prediction_lo: u32,
    pub prediction_hi: u32,
    /// Blackjack only: the base stake. `amount` is the total staked over the
    /// round, which the payout layer derives from this base stake again.
    pub base_bet: u64,
    /// Keno only: the picked numbers, in any order.
    pub keno_selected: Vec<u8>,
    /// Crash only: the seed commitment of the crash house account, fixed at
    /// round start. Without it the reveal is not checked against a commitment.
    pub crash_seed_hash: Option<[u64; 3]>,
}

impl Default for SlotInput {
    /// The all-zero witness.
    fn default() -> (r: Self)
        ensures
            r.tx_type == TX_NOOP,
            r.user_id == 0,
            r.amount == 0,
            r.win_amount == 0,
            r.old_balance == 0,
            r.old_deposit_credit == 0,
            r.old_nonce == 0,
            r.old_provider_allowance == 0,
            forall|l: int| 0 <= l < TREE_DEPTH ==> field::zeros(#[trigger] r.main_siblings@[l]@),
            field::zeros(r.server_seed@),
            field::zeros(r.user_seed@),
            field::zeros(r.old_seed_hash@),
            field::zeros(r.next_server_seed_hash@),
            field::zeros(r.old_pk_hash@),
            field::zeros(r.new_pk_hash@),
            forall|i: int| 0 <= i < 20 ==> #[trigger] r.user_address@[i] == 0,
            field::zeros(r.old_address_hash@),
            field::zeros(r.recipient_addr_hash@),
            r.old_total_liability == 0,
            r.game_id == 0,
            field::zeros(r.prediction_hash@),
            field::zeros(r.user_secret_random@),
            field::zeros(r.current_root@),
            r.current_tl == 0,
            r.game_mode == 0,
            r.prediction_lo == 0,
            r.prediction_hi == 0,
            r.base_bet == 0,
            r.keno_selected@.len() == 0,
            r.crash_seed_hash is None,
    {
        SlotInput {
            tx_type: TX_NOOP,
            user_id: 0,
            amount: 0,
            win_amount: 0,
            old_balance: 0,
            old_deposit_credit: 0,
            old_nonce: 0,
            old_provider_allowance: 0,
            main_siblings: [[0u64; 4]; TREE_DEPTH],
            server_seed: [0u64; 8],
            user_seed: [0u64; 4],
            old_seed_hash: [0u64; 3],
            next_server_seed_hash: [0u64; 3],
            old_pk_hash: [0u64; 4],
            new_pk_hash: [0u64; 4],
            user_address: [0u8; 20],
            old_address_hash: [0u64; 4],
            recipient_addr_hash: [0u64; 2],
            old_total_liability: 0,
            game_id: 0,
            prediction_hash: [0u64; 4],
            user_secret_random: [0u64; 4],
            current_root: [0u64; 4],
            current_tl: 0,
            game_mode: 0,
            prediction_lo: 0,
            prediction_hi: 0,
            base_bet: 0,
            keno_selected: Vec::new(),
            crash_seed_hash: None,
        }
    }
}

/// The state after an accepted slot.
#[derive(Clone, Debug, PartialEq, Eq)]
pub struct SlotEffects {
    pub new_balance: u64,
    pub new_credit: u64,
    pub new_seed_hash: [u64; 3],
    /// Packed two-lane nonce, as hashed into the new leaf.
    pub new_nonce: u64,
    /// Game lane of `new_nonce`.
    pub new_game_nonce: u64,
    /// Account lane of `new_nonce`.
    pub new_account_nonce: u64,
    /// Absolute provider allowance after the slot.
    pub new_provider_allowance: u64,
    pub new_pk_hash: [u64; 4],
    pub new_address_hash: [u64; 4],
    pub new_root: [u64; 4],
    pub new_total_liability: u64,
    /// Outcome seed of a game slot, zero for every other type.
    pub random: [u64; 4],
    /// Multiset commitment of a game slot, zero for every other type.
    pub slot_h: [u64; 4],
    /// Whether `slot_h` goes into the multiset accumulator.
    pub is_multiset_slot: bool,
}

/// What the leaf of an account commits to.
pub struct AccountState {
    pub balance: u64,
    pub seed_hash: [u64; 3],
    pub credit: u64,
    pub nonce: u64,
    pub allowance: u64,
    pub pk_hash: [u64; 4],
    pub address_hash: [u64; 4],
}

impl SlotInput {
    /// The account before the slot.
    pub open spec fn old_state(self) -> AccountState {
        AccountState {
            balance: self.old_balance,
            seed_hash: self.old_seed_hash,
            credit: self.old_deposit_credit,
            nonce: self.old_nonce,
            allowance: self.old_provider_allowance,
            pk_hash: self.old_pk_hash,
            address_hash: self.old_address_hash,
        }
    }
}

impl SlotEffects {
    /// The account after the slot.
    pub open spec fn new_state(self) -> AccountState {
        AccountState {
            balance: self.new_balance,
            seed_hash: self.new_seed_hash,
            credit: self.new_credit,
            nonce: self.new_nonce,
            allowance: self.new_provider_allowance,
            pk_hash: self.new_pk_hash,
            address_hash: self.new_address_hash,
        }
    }
}

/// Why a candidate slot was rejected.
#[derive(Clone, Copy, Debug, PartialEq, Eq, Structural)]
pub enum SlotRejection {
    /// `tx_type` is above [`MAX_TX_TYPE`].
    BadTxType,
    /// An amount limb is `2^32` or more. No `u64` amount has such a limb.
    AmountLimbOverflow,
    /// A field limb is not canonical.
    FieldNotCanonical,
    /// The full bet or win amount is not canonical.
    AmountNotCanonical,
    /// An address byte is `2^8` or more. No `u8` address has such a byte.
    AddressByteOverflow,
    /// `user_id` does not index a leaf of the tree.
    UserIdOutOfRange,
    /// The old leaf does not authenticate against `current_root`.
    MerkleRootMismatch,
    /// The balance does not cover the debit.
    InsufficientBalance,
    /// A monetary accumulator (total liability, balance or credit) left the
    /// `u64` range, or `old_total_liability` is not `current_tl`.
    TlOverflow,
    /// The credit is not the capped one. The validator computes the capped
    /// credit itself and never reports this.
    CreditCapMismatch,
    /// A signed type on an account without a registered key.
    SignedWithoutPk,
    /// A `set_init_seed_hash` on a leaf other than the crash house account.
    SetInitSeedNotAccountZero,
    /// An `in_house_bet` on the crash house account.
    InHouseBetOnAccountZero,
    /// The revealed server seed does not hash to the account's seed commitment.
    SeedChainBreak,
    /// A slot that commits a seed supplied the all-zero commitment.
    ZeroSeedCommit,
    /// The user seed does not bind the parameters of the bet.
    UserSeedBindingMismatch,
    /// A redeposit names another address than the one on record.
    AddressHashMismatch,
    /// The signed payout counterparty is not the address the slot pays.
    RecipientAddrHashMismatch,
    /// A `risk_reject` would push the balance below the deposited credit.
    RiskRejectBelowCredit,
    /// The win amount or the prediction hash does not follow from the game
    /// parameters.
    PayoutMismatch,
    /// The revealed crash seed does not hash to the supplied commitment.
    CrashSeedCommitMismatch,
    /// The nonce lane to bump is at its ceiling, or the nonce is out of range.
    NonceLaneOverflow,
    /// A provider bet exceeds the provider allowance.
    ProviderAllowanceExceeded,
    /// A provider allowance does not fit in 62 bits.
    ProviderAllowanceOverflow,
}

impl SlotRejection {
    /// The name of the reason.
    pub open spec fn name(self) -> Seq<char> {
        match self {
            SlotRejection::BadTxType => "BadTxType"@,
            SlotRejection::AmountLimbOverflow => "AmountLimbOverflow"@,
            SlotRejection::FieldNotCanonical => "FieldNotCanonical"@,
            SlotRejection::AmountNotCanonical => "AmountNotCanonical"@,
            SlotRejection::AddressByteOverflow => "AddressByteOverflow"@,
            SlotRejection::UserIdOutOfRange => "UserIdOutOfRange"@,
            SlotRejection::MerkleRootMismatch => "MerkleRootMismatch"@,
            SlotRejection::InsufficientBalance => "InsufficientBalance"@,
            SlotRejection::TlOverflow => "TlOverflow"@,
            SlotRejection::CreditCapMismatch => "CreditCapMismatch"@,
            SlotRejection::SignedWithoutPk => "SignedWithoutPk"@,
            SlotRejection::SetInitSeedNotAccountZero => "SetInitSeedNotAccountZero"@,
            SlotRejection::InHouseBetOnAccountZero => "InHouseBetOnAccountZero"@,
            SlotRejection::SeedChainBreak => "SeedChainBreak"@,
            SlotRejection::ZeroSeedCommit => "ZeroSeedCommit"@,
            SlotRejection::UserSeedBindingMismatch => "UserSeedBindingMismatch"@,
            SlotRejection::AddressHashMismatch => "AddressHashMismatch"@,
            SlotRejection::RecipientAddrHashMismatch => "RecipientAddrHashMismatch"@,
            SlotRejection::RiskRejectBelowCredit => "RiskRejectBelowCredit"@,
            SlotRejection::PayoutMismatch => "PayoutMismatch"@,
            SlotRejection::CrashSeedCommitMismatch => "CrashSeedCommitMismatch"@,
            SlotRejection::NonceLaneOverflow => "NonceLaneOverflow"@,
            SlotRejection::ProviderAllowanceExceeded => "ProviderAllowanceExceeded"@,
            SlotRejection::ProviderAllowanceOverflow => "ProviderAllowanceOverflow"@,
        }
    }

    /// The reason as text: the name of the variant.
    pub fn reason(&self) -> (r: &'static str)
        ensures
            r@ == self.name(),
    {
        match self {
            SlotRejection::BadTxType => "BadTxType",
            SlotRejection::AmountLimbOverflow => "AmountLimbOverflow",
            SlotRejection::FieldNotCanonical => "FieldNotCanonical",
            SlotRejection::AmountNotCanonical => "AmountNotCanonical",
            SlotRejection::AddressByteOverflow => "AddressByteOverflow",
            SlotRejection::UserIdOutOfRange => "UserIdOutOfRange",
            SlotRejection::MerkleRootMismatch => "MerkleRootMismatch",
            SlotRejection::InsufficientBalance => "InsufficientBalance",
            SlotRejection::TlOverflow => "TlOverflow",
            SlotRejection::CreditCapMismatch => "CreditCapMismatch",
            SlotRejection::SignedWithoutPk => "SignedWithoutPk",
            SlotRejection::SetInitSeedNotAccountZero => "SetInitSeedNotAccountZero",
            SlotRejection::InHouseBetOnAccountZero => "InHouseBetOnAccountZero",
            SlotRejection::SeedChainBreak => "SeedChainBreak",
            SlotRejection::ZeroSeedCommit => "ZeroSeedCommit",
            SlotRejection::UserSeedBindingMismatch => "UserSeedBindingMismatch",
            SlotRejection::AddressHashMismatch => "AddressHashMismatch",
            SlotRejection::RecipientAddrHashMismatch => "RecipientAddrHashMismatch",
            SlotRejection::RiskRejectBelowCredit => "RiskRejectBelowCredit",
            SlotRejection::PayoutMismatch => "PayoutMismatch",
            SlotRejection::CrashSeedCommitMismatch => "CrashSeedCommitMismatch",
            SlotRejection::NonceLaneOverflow => "NonceLaneOverflow",
            SlotRejection::ProviderAllowanceExceeded => "ProviderAllowanceExceeded",
            SlotRejection::ProviderAllowanceOverflow => "ProviderAllowanceOverflow",
        }
    }
}

} // verus!
