//! What each transaction type does.
//!
//! One law for every type says, over the fields of the slot alone, when a slot that
//! has passed the checks common to all types is accepted, what it is otherwise
//! rejected for, and what it leaves. None of them speaks of flags or of the rules of
//! another type. The laws before them say the same of each rule on its own, for
//! every value that it can be asked about.
use crate::address;
use crate::address::AddressEffects;
use crate::allowance;
use crate::auth;
use crate::auth::AuthDecode;
use crate::balance;
use crate::balance::BalanceEffects;
use crate::fairness;
use crate::field;
use crate::field::{GOLDILOCKS_P, PROVIDER_ALLOWANCE_MAX};
use crate::flags::TxFlags;
use crate::games::GameModel;
use crate::hash;
use crate::laws;
use crate::nonce;
use crate::slot::{
    SlotEffects, SlotInput, SlotRejection, TX_BET, TX_BONUS, TX_CRASH_SETTLE, TX_DEPOSIT,
    TX_IN_HOUSE_BET, TX_KEY_REGISTER_ONLY, TX_NOOP, TX_REFERRAL, TX_RISK_REJECT,
    TX_SET_INIT_SEED_HASH, TX_SET_PROVIDER_ALLOWANCE, TX_TRANSFER, TX_WIN, TX_WITHDRAWAL,
};
use crate::validate;
use vstd::prelude::*;

verus! {

/// A flag is set by one type and by no other.
pub proof fn law_each_flag_has_one_type(tx_type: u8)
    ensures
        TxFlags::of(tx_type).is_noop <==> tx_type == 0,
        TxFlags::of(tx_type).is_deposit <==> tx_type == 1,
        TxFlags::of(tx_type).is_bet <==> tx_type == 2,
        TxFlags::of(tx_type).is_win <==> tx_type == 3,
        TxFlags::of(tx_type).is_bonus <==> tx_type == 4,
        TxFlags::of(tx_type).is_in_house_bet <==> tx_type == 5,
        TxFlags::of(tx_type).is_withdrawal <==> tx_type == 6,
        TxFlags::of(tx_type).is_risk_reject <==> tx_type == 7,
        TxFlags::of(tx_type).is_set_init_seed_hash <==> tx_type == 8,
        TxFlags::of(tx_type).is_key_register_only <==> tx_type == 9,
        TxFlags::of(tx_type).is_transfer <==> tx_type == 10,
        TxFlags::of(tx_type).is_referral <==> tx_type == 11,
        TxFlags::of(tx_type).is_crash_settle <==> tx_type == 12,
        TxFlags::of(tx_type).is_set_provider_allowance <==> tx_type == 13,
{
}

/// What a flag set says of a slot follows from its flags one by one.
pub proof fn law_flag_sets(flags: TxFlags)
    ensures
        flags.plays() <==> flags.is_in_house_bet || flags.is_crash_settle,
        flags.signs_game_lane() <==> flags.is_in_house_bet || flags.is_crash_settle
            || flags.is_set_provider_allowance,
        flags.signs_account_lane() <==> flags.is_withdrawal || flags.is_transfer,
{
}

/// The two lanes of any nonce make it up: the game lane is its remainder below
/// `2^40`, the account lane the rest.
pub proof fn law_lanes_make_up_the_nonce(nonce: u64)
    ensures
        nonce::account_lane(nonce) * 0x100_0000_0000 + nonce::game_lane(nonce) == nonce,
        nonce::game_lane(nonce) < 0x100_0000_0000,
{
}

/// A nonce advances unless it is `2^63` or more or a lane to bump is full, and only
/// then is it refused. It grows by one for the game lane and by `2^40` for the
/// account lane.
pub proof fn law_nonce_advance_is_exact(nonce: u64, bumps_game: bool, bumps_account: bool)
    ensures
        nonce::advanced(nonce, bumps_game, bumps_account) is Err <==> {
            ||| nonce >= 0x8000_0000_0000_0000
            ||| bumps_game && nonce % 0x100_0000_0000 == 0xFF_FFFF_FFFF
            ||| bumps_account && nonce / 0x100_0000_0000 == 0x7F_FFFF
        },
        nonce::advanced(nonce, bumps_game, bumps_account) matches Err(e) ==> e
            == SlotRejection::NonceLaneOverflow,
        nonce::advanced(nonce, bumps_game, bumps_account) matches Ok(next) ==> next - nonce == (
        if bumps_game {
            1int
        } else {
            0
        }) + (if bumps_account {
            0x100_0000_0000int
        } else {
            0
        }),
{
}

/// Deposits, wins, bonuses and referrals add their amount to the balance. Only the
/// deposit adds it to the credit too. They are refused only where a sum leaves the
/// `u64` range.
pub proof fn law_balance_of_credits(input: SlotInput, tx_type: u8)
    requires
        tx_type == TX_DEPOSIT || tx_type == TX_WIN || tx_type == TX_BONUS || tx_type
            == TX_REFERRAL,
    ensures
        match balance::balance_changes(input, TxFlags::of(tx_type)) {
            Ok(change) => {
                &&& change.new_balance == input.old_balance + input.amount
                &&& change.new_credit == input.old_deposit_credit + if tx_type == TX_DEPOSIT {
                    input.amount as int
                } else {
                    0
                }
                &&& change.add_full == input.amount
                &&& change.sub_full == 0
            },
            Err(e) => {
                &&& e == SlotRejection::TlOverflow
                &&& input.old_balance + input.amount > u64::MAX || (tx_type == TX_DEPOSIT
                    && input.old_deposit_credit + input.amount > u64::MAX)
            },
        },
{
}

/// Provider bets, withdrawals and transfers take their whole amount from the
/// balance and leave a credit that is the lesser of the old credit and the new
/// balance. A risk reject takes its amount and leaves the credit. They are refused
/// only where the balance is short.
pub proof fn law_balance_of_debits(input: SlotInput, tx_type: u8)
    requires
        tx_type == TX_BET || tx_type == TX_WITHDRAWAL || tx_type == TX_TRANSFER || tx_type
            == TX_RISK_REJECT,
    ensures
        match balance::balance_changes(input, TxFlags::of(tx_type)) {
            Ok(change) => {
                &&& change.new_balance == input.old_balance - input.amount
                &&& change.new_credit <= input.old_deposit_credit
                &&& tx_type != TX_RISK_REJECT ==> change.new_credit <= change.new_balance && (
                change.new_credit == input.old_deposit_credit || change.new_credit
                    == change.new_balance)
                &&& tx_type == TX_RISK_REJECT ==> change.new_credit == input.old_deposit_credit
                &&& change.add_full == 0
                &&& change.sub_full == input.amount
            },
            Err(e) => e == SlotRejection::InsufficientBalance && input.old_balance < input.amount,
        },
{
}

/// The two game types add their win and take their bet, in this order, and leave a
/// credit that is the lesser of the old credit and the new balance.
pub proof fn law_balance_of_games(input: SlotInput, tx_type: u8)
    requires
        tx_type == TX_IN_HOUSE_BET || tx_type == TX_CRASH_SETTLE,
    ensures
        match balance::balance_changes(input, TxFlags::of(tx_type)) {
            Ok(change) => {
                &&& change.new_balance + input.amount == input.old_balance + input.win_amount
                &&& change.new_credit <= change.new_balance
                &&& change.new_credit <= input.old_deposit_credit
                &&& change.new_credit == input.old_deposit_credit || change.new_credit
                    == change.new_balance
                &&& change.add_full == input.win_amount
                &&& change.sub_full == input.amount
            },
            Err(e) => {
                ||| e == SlotRejection::TlOverflow && input.old_balance + input.win_amount
                    > u64::MAX
                ||| e == SlotRejection::InsufficientBalance && input.old_balance + input.win_amount
                    <= u64::MAX && input.old_balance + input.win_amount < input.amount
            },
        },
{
}

/// Whatever flags are set, money is neither made nor lost: the balance moves by what
/// is added and taken, which is the amount or the win as the flags say.
pub proof fn law_balance_of_any_flags(input: SlotInput, flags: TxFlags)
    ensures
        balance::balance_changes(input, flags) matches Ok(change) ==> {
            &&& change.new_balance + change.sub_full == input.old_balance + change.add_full
            &&& change.sub_full == 0 || change.sub_full == input.amount
            &&& change.sub_full == input.amount <== flags.is_bet || flags.is_in_house_bet
                || flags.is_crash_settle || flags.is_withdrawal || flags.is_risk_reject
                || flags.is_transfer
            &&& change.sub_full == input.amount ==> input.amount == 0 || flags.is_bet
                || flags.is_in_house_bet || flags.is_crash_settle || flags.is_withdrawal
                || flags.is_risk_reject || flags.is_transfer
            &&& change.add_full == (if flags.is_deposit || flags.is_win || flags.is_bonus
                || flags.is_referral {
                input.amount as int
            } else {
                0
            }) + (if flags.is_in_house_bet || flags.is_crash_settle {
                input.win_amount as int
            } else {
                0
            })
            &&& change.new_credit <= input.old_deposit_credit + if flags.is_deposit {
                input.amount as int
            } else {
                0
            }
        },
        balance::balance_changes(input, flags) matches Err(e) ==> e == SlotRejection::TlOverflow
            || e == SlotRejection::InsufficientBalance,
{
}

/// Every other type moves no money, whatever its amounts.
pub proof fn law_balance_of_other_types(input: SlotInput, tx_type: u8)
    requires
        tx_type == TX_NOOP || tx_type == TX_SET_INIT_SEED_HASH || tx_type == TX_KEY_REGISTER_ONLY
            || tx_type >= TX_SET_PROVIDER_ALLOWANCE,
    ensures
        balance::balance_changes(input, TxFlags::of(tx_type)) == Ok::<
            BalanceEffects,
            SlotRejection,
        >(
            BalanceEffects {
                new_balance: input.old_balance,
                new_credit: input.old_deposit_credit,
                add_full: 0,
                sub_full: 0,
            },
        ),
{
}

/// The total liability moves by what is credited and debited, and is refused
/// exactly where the sum or the difference leaves the `u64` range.
pub proof fn law_liability_is_exact(old_tl: u64, add: u64, sub: u64)
    ensures
        match balance::new_liability(old_tl, add, sub) {
            Ok(tl) => old_tl + add <= u64::MAX && tl == old_tl + add - sub,
            Err(e) => e == SlotRejection::TlOverflow && (old_tl + add > u64::MAX || old_tl + add
                < sub),
        },
{
}

/// A storable allowance is set to the amount by its owner, lowered by the amount of
/// a provider bet and kept by every other type. What cannot be stored, and a bet
/// above the allowance, is refused.
pub proof fn law_allowance_is_exact(input: SlotInput, flags: TxFlags)
    ensures
        match allowance::allowance_after(input, flags) {
            Ok(left) => {
                &&& input.old_provider_allowance < 0x4000_0000_0000_0000
                &&& left < 0x4000_0000_0000_0000
                &&& flags.is_set_provider_allowance ==> left == input.amount
                &&& flags.is_bet && !flags.is_set_provider_allowance ==> left + input.amount == input.old_provider_allowance
                &&& !flags.is_set_provider_allowance && !flags.is_bet ==> left
                    == input.old_provider_allowance
            },
            Err(e) => {
                ||| e == SlotRejection::ProviderAllowanceOverflow && input.old_provider_allowance
                    >= 0x4000_0000_0000_0000
                ||| e == SlotRejection::ProviderAllowanceOverflow && flags.is_set_provider_allowance && input.amount >= 0x4000_0000_0000_0000
                ||| e == SlotRejection::ProviderAllowanceExceeded && flags.is_bet
                    && !flags.is_set_provider_allowance
                    && input.old_provider_allowance < 0x4000_0000_0000_0000 && input.amount
                    > input.old_provider_allowance
            },
        },
{
}

/// A key registration with a non-zero key installs it; nothing else changes the
/// key. An account without an address takes the address of its first deposit or key
/// install; an account with one keeps it. Only a deposit from another address is
/// refused.
pub proof fn law_identity_is_exact(f: hash::Sponge, input: SlotInput, flags: TxFlags)
    ensures
        match address::identity_after(f, input, flags) {
            Ok(AddressEffects { new_pk_hash, new_address_hash, is_key_setter }) => {
                &&& is_key_setter <==> flags.is_key_register_only && !field::zeros(
                    input.new_pk_hash@,
                )
                &&& is_key_setter ==> new_pk_hash == input.new_pk_hash
                &&& !is_key_setter ==> new_pk_hash == input.old_pk_hash
                &&& field::zeros(input.old_address_hash@) && (flags.is_deposit
                    || is_key_setter) ==> new_address_hash == hash::address_hash_of(
                    f,
                    input.user_address,
                )
                &&& !field::zeros(input.old_address_hash@) || !(flags.is_deposit
                    || is_key_setter) ==> new_address_hash == input.old_address_hash
                &&& flags.is_deposit ==> new_address_hash == hash::address_hash_of(
                    f,
                    input.user_address,
                )
            },
            Err(e) => {
                &&& e == SlotRejection::AddressHashMismatch
                &&& flags.is_deposit
                &&& !field::zeros(input.old_address_hash@)
                &&& hash::address_hash_of(f, input.user_address) != input.old_address_hash
            },
        },
{
}

/// The counterparty of a payment is the first half of the digest of the address
/// that is paid. Without a payment it is zero.
pub proof fn law_recipient_is_exact(f: hash::Sponge, user_address: [u8; 20])
    ensures
        address::recipient_of(f, true, user_address)[0] == hash::address_hash_of(
            f,
            user_address,
        )[0],
        address::recipient_of(f, true, user_address)[1] == hash::address_hash_of(
            f,
            user_address,
        )[1],
        field::zeros(address::recipient_of(f, false, user_address)@),
{
}

/// Five types are signed, three in the game lane and two in the account lane. A
/// signed slot is refused exactly where the account has no key.
pub proof fn law_signing_is_exact(input: SlotInput, flags: TxFlags)
    ensures
        match auth::auth_of(input, flags) {
            Ok(AuthDecode { is_authenticated, is_account_lane, is_game_lane }) => {
                &&& is_game_lane <==> flags.is_in_house_bet || flags.is_crash_settle
                    || flags.is_set_provider_allowance
                &&& is_account_lane <==> flags.is_withdrawal || flags.is_transfer
                &&& is_authenticated <==> is_game_lane || is_account_lane
                &&& is_authenticated ==> !field::zeros(input.old_pk_hash@)
            },
            Err(e) => {
                &&& e == SlotRejection::SignedWithoutPk
                &&& field::zeros(input.old_pk_hash@)
                &&& flags.is_in_house_bet || flags.is_crash_settle || flags.is_set_provider_allowance || flags.is_withdrawal || flags.is_transfer
            },
        },
{
}

/// The limbs that a witness may carry: all of them, and the nonce, below the
/// modulus. No other field is restricted.
pub proof fn law_canonical_witness(input: SlotInput)
    ensures
        validate::limbs_are_canonical(input) <==> {
            &&& forall|i: int| 0 <= i < 8 ==> #[trigger] input.server_seed@[i] < GOLDILOCKS_P
            &&& forall|i: int| 0 <= i < 4 ==> #[trigger] input.user_seed@[i] < GOLDILOCKS_P
            &&& forall|i: int| 0 <= i < 3 ==> #[trigger] input.old_seed_hash@[i] < GOLDILOCKS_P
            &&& forall|i: int|
                0 <= i < 3 ==> #[trigger] input.next_server_seed_hash@[i] < GOLDILOCKS_P
            &&& forall|i: int| 0 <= i < 4 ==> #[trigger] input.old_pk_hash@[i] < GOLDILOCKS_P
            &&& forall|i: int| 0 <= i < 4 ==> #[trigger] input.new_pk_hash@[i] < GOLDILOCKS_P
            &&& forall|i: int| 0 <= i < 4 ==> #[trigger] input.old_address_hash@[i] < GOLDILOCKS_P
            &&& forall|i: int| 0 <= i < 4 ==> #[trigger] input.prediction_hash@[i] < GOLDILOCKS_P
            &&& forall|i: int|
                0 <= i < 4 ==> #[trigger] input.user_secret_random@[i] < GOLDILOCKS_P
            &&& forall|l: int, i: int|
                0 <= l < 28 && 0 <= i < 4 ==> #[trigger] input.main_siblings@[l]@[i] < GOLDILOCKS_P
            &&& input.old_nonce < GOLDILOCKS_P
        },
        validate::amounts_are_canonical(input) <==> input.amount < GOLDILOCKS_P && input.win_amount
            < GOLDILOCKS_P,
{
    if forall|l: int, i: int|
        0 <= l < 28 && 0 <= i < 4 ==> #[trigger] input.main_siblings@[l]@[i] < GOLDILOCKS_P {
        assert forall|l: int| 0 <= l < input.main_siblings@.len() implies field::canonical(
            #[trigger] input.main_siblings@[l]@,
        ) by {}
    }
    if validate::limbs_are_canonical(input) {
        assert forall|l: int, i: int| 0 <= l < 28 && 0 <= i < 4 implies #[trigger]
            input.main_siblings@[l]@[i] < GOLDILOCKS_P by {
            assert(field::canonical(input.main_siblings@[l]@));
        }
    }
}

/// The checks common to all types, in their order, and what each refuses. A slot
/// that passes them is judged by its type alone.
pub proof fn law_common_checks_are_exact(f: hash::Sponge, g: GameModel, input: SlotInput)
    ensures
        if input.tx_type > 13 {
            laws::rejects(f, g, input, SlotRejection::BadTxType)
        } else if !validate::limbs_are_canonical(input) {
            laws::rejects(f, g, input, SlotRejection::FieldNotCanonical)
        } else if input.amount >= GOLDILOCKS_P || input.win_amount >= GOLDILOCKS_P {
            laws::rejects(f, g, input, SlotRejection::AmountNotCanonical)
        } else if input.old_provider_allowance > PROVIDER_ALLOWANCE_MAX {
            laws::rejects(f, g, input, SlotRejection::ProviderAllowanceOverflow)
        } else if input.user_id >= 0x1000_0000 {
            laws::rejects(f, g, input, SlotRejection::UserIdOutOfRange)
        } else if validate::old_root(f, input) != input.current_root {
            laws::rejects(f, g, input, SlotRejection::MerkleRootMismatch)
        } else if input.old_total_liability != input.current_tl {
            laws::rejects(f, g, input, SlotRejection::TlOverflow)
        } else {
            &&& validate::common_rejection(f, input) is None
            &&& validate::verdict(f, g, input) == validate::type_verdict(f, g, input)
        },
{
}

/// The rules of a type do not look at the block: slots that differ only in the current
/// root or the current liability get one answer from them.
pub proof fn law_type_rules_ignore_the_block(
    f: hash::Sponge,
    g: GameModel,
    a: SlotInput,
    b: SlotInput,
)
    requires
        b == (SlotInput { current_root: b.current_root, current_tl: b.current_tl, ..a }),
    ensures
        validate::type_verdict(f, g, a) == validate::type_verdict(f, g, b),
{
}

/// Where an account lies in the tree matters to its root alone, the crash house
/// account aside.
pub proof fn law_type_rules_ignore_the_leaf(
    f: hash::Sponge,
    g: GameModel,
    a: SlotInput,
    b: SlotInput,
)
    requires
        b == (SlotInput { user_id: b.user_id, ..a }),
        a.user_id != 0 && b.user_id != 0,
    ensures
        match (validate::type_verdict(f, g, a), validate::type_verdict(f, g, b)) {
            (Ok(x), Ok(y)) => y == (SlotEffects { new_root: y.new_root, ..x }),
            (Err(x), Err(y)) => x == y,
            _ => false,
        },
{
}

/// To the rules of the types an unknown type is a noop, and no type is judged with an
/// allowance that cannot be stored.
pub proof fn law_type_rules_outside_their_range(f: hash::Sponge, g: GameModel, input: SlotInput)
    ensures
        input.tx_type > 13 ==> validate::type_verdict(f, g, input) == validate::type_verdict(
            f,
            g,
            (SlotInput { tx_type: TX_NOOP, ..input }),
        ),
        input.old_provider_allowance > PROVIDER_ALLOWANCE_MAX ==> validate::type_verdict(
            f,
            g,
            input,
        ) is Err,
{
}

/// Whatever its type, an accepted slot leaves the root of the state that it leaves,
/// and reports the two lanes of its nonce.
pub proof fn law_effects_are_consistent(
    f: hash::Sponge,
    g: GameModel,
    input: SlotInput,
    effects: SlotEffects,
)
    requires
        laws::accepts(f, g, input, effects),
    ensures
        effects.new_root == validate::state_root(
            f,
            effects.new_state(),
            input.main_siblings,
            input.user_id,
        ),
        effects.new_game_nonce == effects.new_nonce % 0x100_0000_0000,
        effects.new_account_nonce == effects.new_nonce / 0x100_0000_0000,
        effects.is_multiset_slot <==> input.tx_type == TX_IN_HOUSE_BET || input.tx_type
            == TX_CRASH_SETTLE,
        !effects.is_multiset_slot ==> forall|i: int|
            0 <= i < 4 ==> #[trigger] effects.random@[i] == 0,
        !effects.is_multiset_slot ==> forall|i: int|
            0 <= i < 4 ==> #[trigger] effects.slot_h@[i] == 0,
{
}

/// A noop is accepted unless it names a counterparty or its nonce is out of range,
/// and changes nothing.
pub proof fn law_noop(f: hash::Sponge, g: GameModel, input: SlotInput)
    requires
        input.tx_type == TX_NOOP,
        validate::common_rejection(f, input) is None,
    ensures
        if !field::zeros(input.recipient_addr_hash@) {
            laws::rejects(f, g, input, SlotRejection::RecipientAddrHashMismatch)
        } else if input.old_nonce >= 0x8000_0000_0000_0000 {
            laws::rejects(f, g, input, SlotRejection::NonceLaneOverflow)
        } else {
            &&& validate::verdict(f, g, input) matches Ok(effects)
            &&& effects.new_state() == input.old_state()
            &&& effects.new_total_liability == input.old_total_liability
            &&& effects.new_root == input.current_root
        },
{
    lemma_no_recipient(input);
}

/// A deposit adds its amount to balance, credit and liability. The first one stamps
/// the address; a later one has to come from it.
pub proof fn law_deposit(f: hash::Sponge, g: GameModel, input: SlotInput)
    requires
        input.tx_type == TX_DEPOSIT,
        validate::common_rejection(f, input) is None,
    ensures
        if input.old_balance + input.amount > u64::MAX || input.old_deposit_credit + input.amount
            > u64::MAX {
            laws::rejects(f, g, input, SlotRejection::TlOverflow)
        } else if !field::zeros(input.old_address_hash@) && hash::address_hash_of(
            f,
            input.user_address,
        ) != input.old_address_hash {
            laws::rejects(f, g, input, SlotRejection::AddressHashMismatch)
        } else if !field::zeros(input.recipient_addr_hash@) {
            laws::rejects(f, g, input, SlotRejection::RecipientAddrHashMismatch)
        } else if input.old_nonce >= 0x8000_0000_0000_0000 {
            laws::rejects(f, g, input, SlotRejection::NonceLaneOverflow)
        } else if input.old_total_liability + input.amount > u64::MAX {
            laws::rejects(f, g, input, SlotRejection::TlOverflow)
        } else {
            &&& validate::verdict(f, g, input) matches Ok(effects)
            &&& effects.new_balance == input.old_balance + input.amount
            &&& effects.new_credit == input.old_deposit_credit + input.amount
            &&& effects.new_total_liability == input.old_total_liability + input.amount
            &&& effects.new_address_hash == hash::address_hash_of(f, input.user_address)
            &&& effects.new_seed_hash == input.old_seed_hash
            &&& effects.new_nonce == input.old_nonce
            &&& effects.new_provider_allowance == input.old_provider_allowance
            &&& effects.new_pk_hash == input.old_pk_hash
        },
{
    lemma_no_recipient(input);
}

/// A win, a bonus and a referral add their amount to balance and liability and
/// change nothing else.
pub proof fn law_win_bonus_referral(f: hash::Sponge, g: GameModel, input: SlotInput)
    requires
        input.tx_type == TX_WIN || input.tx_type == TX_BONUS || input.tx_type == TX_REFERRAL,
        validate::common_rejection(f, input) is None,
    ensures
        if input.old_balance + input.amount > u64::MAX {
            laws::rejects(f, g, input, SlotRejection::TlOverflow)
        } else if !field::zeros(input.recipient_addr_hash@) {
            laws::rejects(f, g, input, SlotRejection::RecipientAddrHashMismatch)
        } else if input.old_nonce >= 0x8000_0000_0000_0000 {
            laws::rejects(f, g, input, SlotRejection::NonceLaneOverflow)
        } else if input.old_total_liability + input.amount > u64::MAX {
            laws::rejects(f, g, input, SlotRejection::TlOverflow)
        } else {
            &&& validate::verdict(f, g, input) matches Ok(effects)
            &&& effects.new_balance == input.old_balance + input.amount
            &&& effects.new_total_liability == input.old_total_liability + input.amount
            &&& effects.new_credit == input.old_deposit_credit
            &&& effects.new_seed_hash == input.old_seed_hash
            &&& effects.new_nonce == input.old_nonce
            &&& effects.new_provider_allowance == input.old_provider_allowance
            &&& effects.new_pk_hash == input.old_pk_hash
            &&& effects.new_address_hash == input.old_address_hash
        },
{
    lemma_no_recipient(input);
}

/// A provider bet within balance and allowance takes its amount from balance,
/// liability and allowance and caps the credit to the new balance. It needs no key.
pub proof fn law_provider_bet(f: hash::Sponge, g: GameModel, input: SlotInput)
    requires
        input.tx_type == TX_BET,
        validate::common_rejection(f, input) is None,
    ensures
        if input.old_balance < input.amount {
            laws::rejects(f, g, input, SlotRejection::InsufficientBalance)
        } else if input.old_provider_allowance < input.amount {
            laws::rejects(f, g, input, SlotRejection::ProviderAllowanceExceeded)
        } else if !field::zeros(input.recipient_addr_hash@) {
            laws::rejects(f, g, input, SlotRejection::RecipientAddrHashMismatch)
        } else if input.old_nonce >= 0x8000_0000_0000_0000 {
            laws::rejects(f, g, input, SlotRejection::NonceLaneOverflow)
        } else if input.old_total_liability < input.amount {
            laws::rejects(f, g, input, SlotRejection::TlOverflow)
        } else {
            &&& validate::verdict(f, g, input) matches Ok(effects)
            &&& effects.new_balance == input.old_balance - input.amount
            &&& effects.new_total_liability == input.old_total_liability - input.amount
            &&& effects.new_provider_allowance == input.old_provider_allowance - input.amount
            &&& effects.new_credit == if input.old_deposit_credit <= effects.new_balance {
                input.old_deposit_credit
            } else {
                effects.new_balance
            }
            &&& effects.new_seed_hash == input.old_seed_hash
            &&& effects.new_nonce == input.old_nonce
            &&& effects.new_pk_hash == input.old_pk_hash
            &&& effects.new_address_hash == input.old_address_hash
        },
{
    lemma_no_recipient(input);
}

/// A withdrawal and a transfer take their whole amount from balance and liability,
/// cap the credit to the new balance and bump the account lane. They need a key, and
/// a withdrawal the counterparty that it pays.
pub proof fn law_withdrawal_and_transfer(f: hash::Sponge, g: GameModel, input: SlotInput)
    requires
        input.tx_type == TX_WITHDRAWAL || input.tx_type == TX_TRANSFER,
        validate::common_rejection(f, input) is None,
    ensures
        if input.old_balance < input.amount {
            laws::rejects(f, g, input, SlotRejection::InsufficientBalance)
        } else if input.tx_type == TX_TRANSFER && !field::zeros(input.recipient_addr_hash@) {
            laws::rejects(f, g, input, SlotRejection::RecipientAddrHashMismatch)
        } else if input.tx_type == TX_WITHDRAWAL && (input.recipient_addr_hash[0]
            != hash::address_hash_of(f, input.user_address)[0] || input.recipient_addr_hash[1]
            != hash::address_hash_of(f, input.user_address)[1]) {
            laws::rejects(f, g, input, SlotRejection::RecipientAddrHashMismatch)
        } else if field::zeros(input.old_pk_hash@) {
            laws::rejects(f, g, input, SlotRejection::SignedWithoutPk)
        } else if input.old_nonce >= 0x8000_0000_0000_0000 || input.old_nonce / 0x100_0000_0000
            == 0x7F_FFFF {
            laws::rejects(f, g, input, SlotRejection::NonceLaneOverflow)
        } else if input.old_total_liability < input.amount {
            laws::rejects(f, g, input, SlotRejection::TlOverflow)
        } else {
            &&& validate::verdict(f, g, input) matches Ok(effects)
            &&& effects.new_balance == input.old_balance - input.amount
            &&& effects.new_total_liability == input.old_total_liability - input.amount
            &&& effects.new_credit == if input.old_deposit_credit <= effects.new_balance {
                input.old_deposit_credit
            } else {
                effects.new_balance
            }
            &&& effects.new_nonce == input.old_nonce + 0x100_0000_0000
            &&& effects.new_seed_hash == input.old_seed_hash
            &&& effects.new_provider_allowance == input.old_provider_allowance
            &&& effects.new_pk_hash == input.old_pk_hash
            &&& effects.new_address_hash == input.old_address_hash
        },
{
    lemma_no_recipient(input);
    let digest = hash::address_hash_of(f, input.user_address);
    if input.recipient_addr_hash[0] == digest[0] && input.recipient_addr_hash[1] == digest[1] {
        assert(input.recipient_addr_hash =~= address::recipient_of(f, true, input.user_address));
    }
}

/// A risk reject takes its amount from balance and liability and leaves the credit,
/// which the balance may not fall below.
pub proof fn law_risk_reject(f: hash::Sponge, g: GameModel, input: SlotInput)
    requires
        input.tx_type == TX_RISK_REJECT,
        validate::common_rejection(f, input) is None,
    ensures
        if input.old_balance < input.amount {
            laws::rejects(f, g, input, SlotRejection::InsufficientBalance)
        } else if input.old_balance - input.amount < input.old_deposit_credit {
            laws::rejects(f, g, input, SlotRejection::RiskRejectBelowCredit)
        } else if !field::zeros(input.recipient_addr_hash@) {
            laws::rejects(f, g, input, SlotRejection::RecipientAddrHashMismatch)
        } else if input.old_nonce >= 0x8000_0000_0000_0000 {
            laws::rejects(f, g, input, SlotRejection::NonceLaneOverflow)
        } else if input.old_total_liability < input.amount {
            laws::rejects(f, g, input, SlotRejection::TlOverflow)
        } else {
            &&& validate::verdict(f, g, input) matches Ok(effects)
            &&& effects.new_balance == input.old_balance - input.amount
            &&& effects.new_total_liability == input.old_total_liability - input.amount
            &&& effects.new_credit == input.old_deposit_credit
            &&& effects.new_seed_hash == input.old_seed_hash
            &&& effects.new_nonce == input.old_nonce
            &&& effects.new_provider_allowance == input.old_provider_allowance
            &&& effects.new_pk_hash == input.old_pk_hash
            &&& effects.new_address_hash == input.old_address_hash
        },
{
    lemma_no_recipient(input);
}

/// The operator commits a non-zero seed on the crash house account, user id zero,
/// and nowhere else. Nothing but the seed changes.
pub proof fn law_set_init_seed_hash(f: hash::Sponge, g: GameModel, input: SlotInput)
    requires
        input.tx_type == TX_SET_INIT_SEED_HASH,
        validate::common_rejection(f, input) is None,
    ensures
        if input.user_id != 0 {
            laws::rejects(f, g, input, SlotRejection::SetInitSeedNotAccountZero)
        } else if !field::zeros(input.recipient_addr_hash@) {
            laws::rejects(f, g, input, SlotRejection::RecipientAddrHashMismatch)
        } else if input.old_nonce >= 0x8000_0000_0000_0000 {
            laws::rejects(f, g, input, SlotRejection::NonceLaneOverflow)
        } else if field::zeros(input.next_server_seed_hash@) {
            laws::rejects(f, g, input, SlotRejection::ZeroSeedCommit)
        } else {
            &&& validate::verdict(f, g, input) matches Ok(effects)
            &&& effects.new_seed_hash == input.next_server_seed_hash
            &&& effects.new_balance == input.old_balance
            &&& effects.new_credit == input.old_deposit_credit
            &&& effects.new_total_liability == input.old_total_liability
            &&& effects.new_nonce == input.old_nonce
            &&& effects.new_provider_allowance == input.old_provider_allowance
            &&& effects.new_pk_hash == input.old_pk_hash
            &&& effects.new_address_hash == input.old_address_hash
        },
{
    lemma_no_recipient(input);
}

/// A key registration installs a non-zero key and bumps the account lane for it. On
/// an account without a seed it commits the next seed, which may not be zero,
/// whatever address or key the account has; so it always leaves a seed. A key
/// install stamps the address of an account that has none.
pub proof fn law_key_registration(f: hash::Sponge, g: GameModel, input: SlotInput)
    requires
        input.tx_type == TX_KEY_REGISTER_ONLY,
        validate::common_rejection(f, input) is None,
    ensures
        if !field::zeros(input.recipient_addr_hash@) {
            laws::rejects(f, g, input, SlotRejection::RecipientAddrHashMismatch)
        } else if input.old_nonce >= 0x8000_0000_0000_0000 || (!field::zeros(input.new_pk_hash@)
            && input.old_nonce / 0x100_0000_0000 == 0x7F_FFFF) {
            laws::rejects(f, g, input, SlotRejection::NonceLaneOverflow)
        } else if field::zeros(input.old_seed_hash@) && field::zeros(input.next_server_seed_hash@) {
            laws::rejects(f, g, input, SlotRejection::ZeroSeedCommit)
        } else {
            &&& validate::verdict(f, g, input) matches Ok(effects)
            &&& field::zeros(input.old_seed_hash@) ==> effects.new_seed_hash
                == input.next_server_seed_hash
            &&& !field::zeros(input.old_seed_hash@) ==> effects.new_seed_hash
                == input.old_seed_hash
            &&& !field::zeros(effects.new_seed_hash@)
            &&& if field::zeros(input.new_pk_hash@) {
                &&& effects.new_pk_hash == input.old_pk_hash
                &&& effects.new_nonce == input.old_nonce
                &&& effects.new_address_hash == input.old_address_hash
            } else {
                &&& effects.new_pk_hash == input.new_pk_hash
                &&& effects.new_nonce == input.old_nonce + 0x100_0000_0000
                &&& field::zeros(input.old_address_hash@) ==> effects.new_address_hash
                    == hash::address_hash_of(f, input.user_address)
                &&& !field::zeros(input.old_address_hash@) ==> effects.new_address_hash
                    == input.old_address_hash
            }
            &&& effects.new_balance == input.old_balance
            &&& effects.new_credit == input.old_deposit_credit
            &&& effects.new_total_liability == input.old_total_liability
            &&& effects.new_provider_allowance == input.old_provider_allowance
        },
{
    lemma_no_recipient(input);
}

/// The owner sets the provider allowance to any storable amount, whatever the
/// balance, and bumps the game lane. Nothing else changes.
pub proof fn law_set_provider_allowance(f: hash::Sponge, g: GameModel, input: SlotInput)
    requires
        input.tx_type == TX_SET_PROVIDER_ALLOWANCE,
        validate::common_rejection(f, input) is None,
    ensures
        if input.amount >= 0x4000_0000_0000_0000 {
            laws::rejects(f, g, input, SlotRejection::ProviderAllowanceOverflow)
        } else if !field::zeros(input.recipient_addr_hash@) {
            laws::rejects(f, g, input, SlotRejection::RecipientAddrHashMismatch)
        } else if field::zeros(input.old_pk_hash@) {
            laws::rejects(f, g, input, SlotRejection::SignedWithoutPk)
        } else if input.old_nonce >= 0x8000_0000_0000_0000 || input.old_nonce % 0x100_0000_0000
            == 0xFF_FFFF_FFFF {
            laws::rejects(f, g, input, SlotRejection::NonceLaneOverflow)
        } else {
            &&& validate::verdict(f, g, input) matches Ok(effects)
            &&& effects.new_provider_allowance == input.amount
            &&& effects.new_nonce == input.old_nonce + 1
            &&& effects.new_balance == input.old_balance
            &&& effects.new_credit == input.old_deposit_credit
            &&& effects.new_total_liability == input.old_total_liability
            &&& effects.new_seed_hash == input.old_seed_hash
            &&& effects.new_pk_hash == input.old_pk_hash
            &&& effects.new_address_hash == input.old_address_hash
        },
{
    lemma_no_recipient(input);
}

/// A fair in-house bet that the account can pay, its win included, adds the win and
/// takes the bet, caps the credit to the new balance, bumps the game lane and commits
/// the next seed. The crash house account places none.
pub proof fn law_in_house_bet(f: hash::Sponge, g: GameModel, input: SlotInput)
    requires
        input.tx_type == TX_IN_HOUSE_BET,
        validate::common_rejection(f, input) is None,
    ensures
        if input.user_id == 0 {
            laws::rejects(f, g, input, SlotRejection::InHouseBetOnAccountZero)
        } else if input.old_balance + input.win_amount > u64::MAX {
            laws::rejects(f, g, input, SlotRejection::TlOverflow)
        } else if input.old_balance + input.win_amount < input.amount {
            laws::rejects(f, g, input, SlotRejection::InsufficientBalance)
        } else if !field::zeros(input.recipient_addr_hash@) {
            laws::rejects(f, g, input, SlotRejection::RecipientAddrHashMismatch)
        } else if field::zeros(input.old_pk_hash@) {
            laws::rejects(f, g, input, SlotRejection::SignedWithoutPk)
        } else if input.old_nonce >= 0x8000_0000_0000_0000 || input.old_nonce % 0x100_0000_0000
            == 0xFF_FFFF_FFFF {
            laws::rejects(f, g, input, SlotRejection::NonceLaneOverflow)
        } else if let Err(reason) = fairness::fairness_of(f, g, input, TxFlags::of(input.tx_type)) {
            laws::rejects(f, g, input, reason)
        } else if field::zeros(input.next_server_seed_hash@) {
            laws::rejects(f, g, input, SlotRejection::ZeroSeedCommit)
        } else if input.old_total_liability + input.win_amount > u64::MAX
            || input.old_total_liability + input.win_amount < input.amount {
            laws::rejects(f, g, input, SlotRejection::TlOverflow)
        } else {
            &&& validate::verdict(f, g, input) matches Ok(effects)
            &&& effects.new_balance == input.old_balance + input.win_amount - input.amount
            &&& effects.new_total_liability == input.old_total_liability + input.win_amount
                - input.amount
            &&& effects.new_credit == if input.old_deposit_credit <= effects.new_balance {
                input.old_deposit_credit
            } else {
                effects.new_balance
            }
            &&& effects.new_nonce == input.old_nonce + 1
            &&& effects.new_seed_hash == input.next_server_seed_hash
            &&& effects.new_provider_allowance == input.old_provider_allowance
            &&& effects.new_pk_hash == input.old_pk_hash
            &&& effects.new_address_hash == input.old_address_hash
            &&& fairness::fairness_of(f, g, input, TxFlags::of(input.tx_type)) matches Ok(game)
            &&& effects.random == game.random
            &&& effects.slot_h == game.slot_h
        },
{
    lemma_no_recipient(input);
}

/// A fair crash settlement that the account can pay, its win included, adds the win
/// and takes the bet, caps the credit to the new balance and bumps the game lane. A
/// loss may take the balance below the credit. The seed stays.
pub proof fn law_crash_settlement(f: hash::Sponge, g: GameModel, input: SlotInput)
    requires
        input.tx_type == TX_CRASH_SETTLE,
        validate::common_rejection(f, input) is None,
    ensures
        if input.old_balance + input.win_amount > u64::MAX {
            laws::rejects(f, g, input, SlotRejection::TlOverflow)
        } else if input.old_balance + input.win_amount < input.amount {
            laws::rejects(f, g, input, SlotRejection::InsufficientBalance)
        } else if !field::zeros(input.recipient_addr_hash@) {
            laws::rejects(f, g, input, SlotRejection::RecipientAddrHashMismatch)
        } else if field::zeros(input.old_pk_hash@) {
            laws::rejects(f, g, input, SlotRejection::SignedWithoutPk)
        } else if input.old_nonce >= 0x8000_0000_0000_0000 || input.old_nonce % 0x100_0000_0000
            == 0xFF_FFFF_FFFF {
            laws::rejects(f, g, input, SlotRejection::NonceLaneOverflow)
        } else if let Err(reason) = fairness::fairness_of(f, g, input, TxFlags::of(input.tx_type)) {
            laws::rejects(f, g, input, reason)
        } else if input.old_total_liability + input.win_amount > u64::MAX
            || input.old_total_liability + input.win_amount < input.amount {
            laws::rejects(f, g, input, SlotRejection::TlOverflow)
        } else {
            &&& validate::verdict(f, g, input) matches Ok(effects)
            &&& effects.new_balance == input.old_balance + input.win_amount - input.amount
            &&& effects.new_total_liability == input.old_total_liability + input.win_amount
                - input.amount
            &&& effects.new_credit == if input.old_deposit_credit <= effects.new_balance {
                input.old_deposit_credit
            } else {
                effects.new_balance
            }
            &&& effects.new_nonce == input.old_nonce + 1
            &&& effects.new_seed_hash == input.old_seed_hash
            &&& effects.new_provider_allowance == input.old_provider_allowance
            &&& effects.new_pk_hash == input.old_pk_hash
            &&& effects.new_address_hash == input.old_address_hash
            &&& fairness::fairness_of(f, g, input, TxFlags::of(input.tx_type)) matches Ok(game)
            &&& effects.random == game.random
            &&& effects.slot_h == game.slot_h
        },
{
    lemma_no_recipient(input);
}

/// Each reason belongs to the types that can meet it.
pub proof fn law_reasons_belong_to_types(f: hash::Sponge, g: GameModel, input: SlotInput)
    ensures
        laws::rejects(f, g, input, SlotRejection::RiskRejectBelowCredit) ==> input.tx_type
            == TX_RISK_REJECT,
        laws::rejects(f, g, input, SlotRejection::SetInitSeedNotAccountZero) ==> input.tx_type
            == TX_SET_INIT_SEED_HASH,
        laws::rejects(f, g, input, SlotRejection::InHouseBetOnAccountZero) ==> input.tx_type
            == TX_IN_HOUSE_BET,
        laws::rejects(f, g, input, SlotRejection::AddressHashMismatch) ==> input.tx_type
            == TX_DEPOSIT,
        laws::rejects(f, g, input, SlotRejection::ProviderAllowanceExceeded) ==> input.tx_type
            == TX_BET,
        laws::rejects(f, g, input, SlotRejection::SeedChainBreak) ==> input.tx_type
            == TX_IN_HOUSE_BET,
        laws::rejects(f, g, input, SlotRejection::UserSeedBindingMismatch) ==> input.tx_type
            == TX_IN_HOUSE_BET,
        laws::rejects(f, g, input, SlotRejection::CrashSeedCommitMismatch) ==> input.tx_type
            == TX_CRASH_SETTLE,
        laws::rejects(f, g, input, SlotRejection::PayoutMismatch) ==> input.tx_type
            == TX_IN_HOUSE_BET || input.tx_type == TX_CRASH_SETTLE,
{
}

/// A zero counterparty is the pair of zeros.
proof fn lemma_no_recipient(input: SlotInput)
    ensures
        field::zeros(input.recipient_addr_hash@) <==> input.recipient_addr_hash == [0u64, 0],
{
    if field::zeros(input.recipient_addr_hash@) {
        assert(input.recipient_addr_hash@[0] == 0 && input.recipient_addr_hash@[1] == 0);
        assert(input.recipient_addr_hash =~= [0u64, 0]);
    }
}

} // verus!
