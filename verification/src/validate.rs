//! The slot validator.
//!
//! [`validate_slot`] checks a candidate slot against every constraint that the
//! slot circuit puts on it, and against the game rules, before the slot touches
//! the state tree: one bad slot would make the proof of its whole block
//! unverifiable. It returns the state after the slot, or the first reason to
//! reject it.
//!
//! The checks come in a fixed order. First those that hold for every type: the
//! type itself, canonicity of every limb, the ranges of allowance and user id,
//! the authentication of the old leaf and the chaining of the total liability.
//! Then those of the type: who may do what on the crash house account, balance
//! and credit, provider allowance, risk-reject floor, key and address, payout
//! counterparty, registered key, nonce, fairness and payout, seed commitment and
//! total liability.
use crate::address;
use crate::address::{build_address, check_recipient_binding, AddressEffects};
use crate::allowance;
use crate::allowance::compute_new_allowance;
use crate::auth;
use crate::auth::check_auth;
use crate::balance;
use crate::balance::{build_balance_changes, compute_new_tl, BalanceEffects};
use crate::blackjack::{BlackjackResult, MAX_CARDS};
use crate::fairness;
use crate::fairness::{check_fairness, FairnessEffects};
use crate::field;
use crate::field::{
    all_canonical, all_zero, is_canonical, same_limbs, GOLDILOCKS_P, PROVIDER_ALLOWANCE_MAX,
};
use crate::flags::TxFlags;
use crate::games;
use crate::games::{GameCore, GameParams};
use crate::hash;
use crate::hash::balance_leaf;
use crate::merkle;
use crate::merkle::{compute_root, TREE_DEPTH};
use crate::nonce;
use crate::nonce::{compute_new_nonce, split_nonce};
use crate::slot::{AccountState, SlotEffects, SlotInput, SlotRejection, MAX_TX_TYPE};
use vstd::prelude::*;

verus! {

/// Number of leaves in the account tree, `2^28`.
pub const USER_ID_LIMIT: u32 = 0x1000_0000;

/// Every opaque limb of the witness is canonical.
pub open spec fn limbs_are_canonical(input: SlotInput) -> bool {
    &&& field::canonical(input.server_seed@)
    &&& field::canonical(input.user_seed@)
    &&& field::canonical(input.old_seed_hash@)
    &&& field::canonical(input.next_server_seed_hash@)
    &&& input.old_nonce < GOLDILOCKS_P
    &&& field::canonical(input.old_pk_hash@)
    &&& field::canonical(input.new_pk_hash@)
    &&& field::canonical(input.old_address_hash@)
    &&& field::canonical(input.prediction_hash@)
    &&& field::canonical(input.user_secret_random@)
    &&& merkle::canonical_path(input.main_siblings@)
}

/// The full bet and win amounts are canonical.
pub open spec fn amounts_are_canonical(input: SlotInput) -> bool {
    input.amount < GOLDILOCKS_P && input.win_amount < GOLDILOCKS_P
}

/// The root of a tree whose leaf `user_id` holds an account in this state.
pub open spec fn state_root(
    f: hash::Sponge,
    account: AccountState,
    siblings: [[u64; 4]; TREE_DEPTH],
    user_id: u32,
) -> [u64; 4] {
    merkle::account_root(
        f,
        hash::balance_leaf_of(
            f,
            account.balance,
            account.seed_hash,
            account.credit,
            account.nonce,
            account.allowance,
        ),
        account.pk_hash,
        account.address_hash,
        siblings,
        user_id,
    )
}

/// The root that the old leaf of the witness authenticates against.
pub open spec fn old_root(f: hash::Sponge, input: SlotInput) -> [u64; 4] {
    state_root(f, input.old_state(), input.main_siblings, input.user_id)
}

/// The first key registration of an account, which installs its initial seed.
pub open spec fn installs_seed(input: SlotInput, flags: TxFlags) -> bool {
    flags.is_key_register_only && field::zeros(input.old_seed_hash@)
}

/// The slots that commit a seed.
pub open spec fn commits_seed(input: SlotInput, flags: TxFlags) -> bool {
    flags.is_in_house_bet || flags.is_set_init_seed_hash || installs_seed(input, flags)
}

/// The nonce after the slot.
pub open spec fn nonce_after(input: SlotInput, flags: TxFlags) -> Result<u64, SlotRejection> {
    nonce::advanced(
        input.old_nonce,
        flags.signs_game_lane(),
        flags.signs_account_lane() || address::sets_key(input, flags),
    )
}

/// The total liability after the slot.
pub open spec fn liability_after(input: SlotInput, flags: TxFlags) -> Result<u64, SlotRejection> {
    balance::new_liability(
        input.old_total_liability,
        balance::credited(input, flags) as u64,
        balance::debited(input, flags) as u64,
    )
}

/// The first reason to reject the slot for a value outside its range.
pub open spec fn range_rejection(input: SlotInput) -> Option<SlotRejection> {
    if input.tx_type > MAX_TX_TYPE {
        Some(SlotRejection::BadTxType)
    } else if !limbs_are_canonical(input) {
        Some(SlotRejection::FieldNotCanonical)
    } else if !amounts_are_canonical(input) {
        Some(SlotRejection::AmountNotCanonical)
    } else if input.old_provider_allowance > PROVIDER_ALLOWANCE_MAX {
        Some(SlotRejection::ProviderAllowanceOverflow)
    } else if input.user_id >= USER_ID_LIMIT {
        Some(SlotRejection::UserIdOutOfRange)
    } else {
        None
    }
}

/// The first reason to reject the slot that does not depend on its type.
pub open spec fn common_rejection(f: hash::Sponge, input: SlotInput) -> Option<SlotRejection> {
    if range_rejection(input) is Some {
        range_rejection(input)
    } else if old_root(f, input) != input.current_root {
        Some(SlotRejection::MerkleRootMismatch)
    } else if input.old_total_liability != input.current_tl {
        Some(SlotRejection::TlOverflow)
    } else {
        None
    }
}

/// The first reason to reject the slot for what it does to the account.
pub open spec fn account_rejection(f: hash::Sponge, input: SlotInput) -> Option<SlotRejection> {
    let flags = TxFlags::of(input.tx_type);
    if flags.is_set_init_seed_hash && input.user_id != 0 {
        Some(SlotRejection::SetInitSeedNotAccountZero)
    } else if flags.is_in_house_bet && input.user_id == 0 {
        Some(SlotRejection::InHouseBetOnAccountZero)
    } else if let Err(e) = balance::balance_changes(input, flags) {
        Some(e)
    } else if let Err(e) = allowance::allowance_after(input, flags) {
        Some(e)
    } else if flags.is_risk_reject && input.old_balance - input.amount < input.old_deposit_credit {
        Some(SlotRejection::RiskRejectBelowCredit)
    } else if let Err(e) = address::identity_after(f, input, flags) {
        Some(e)
    } else if input.recipient_addr_hash != address::recipient_of(
        f,
        flags.is_withdrawal,
        input.user_address,
    ) {
        Some(SlotRejection::RecipientAddrHashMismatch)
    } else if let Err(e) = auth::auth_of(input, flags) {
        Some(e)
    } else if let Err(e) = nonce_after(input, flags) {
        Some(e)
    } else {
        None
    }
}

/// The first reason to reject the slot for its game, its seed commitment or the
/// total liability.
pub open spec fn game_rejection(
    f: hash::Sponge,
    g: games::GameModel,
    input: SlotInput,
) -> Option<SlotRejection> {
    let flags = TxFlags::of(input.tx_type);
    if flags.plays() && fairness::fairness_of(f, g, input, flags) is Err {
        Some(fairness::fairness_of(f, g, input, flags)->Err_0)
    } else if commits_seed(input, flags) && field::zeros(input.next_server_seed_hash@) {
        Some(SlotRejection::ZeroSeedCommit)
    } else if let Err(e) = liability_after(input, flags) {
        Some(e)
    } else {
        None
    }
}

/// The first reason to reject the slot for what its type does.
pub open spec fn type_rejection(
    f: hash::Sponge,
    g: games::GameModel,
    input: SlotInput,
) -> Option<SlotRejection> {
    match account_rejection(f, input) {
        Some(reason) => Some(reason),
        None => game_rejection(f, g, input),
    }
}

/// What a slot does to the account, its seed aside.
struct AccountChange {
    balance: BalanceEffects,
    allowance: u64,
    identity: AddressEffects,
    nonce: u64,
}

/// What an accepted slot does to the account.
spec fn account_change(f: hash::Sponge, input: SlotInput) -> AccountChange {
    let flags = TxFlags::of(input.tx_type);
    AccountChange {
        balance: balance::balance_changes(input, flags)->Ok_0,
        allowance: allowance::allowance_after(input, flags)->Ok_0,
        identity: address::identity_after(f, input, flags)->Ok_0,
        nonce: nonce_after(input, flags)->Ok_0,
    }
}

/// The state after a slot that nothing rejects.
pub open spec fn effects_of(
    f: hash::Sponge,
    g: games::GameModel,
    input: SlotInput,
) -> SlotEffects {
    let flags = TxFlags::of(input.tx_type);
    let bal = balance::balance_changes(input, flags)->Ok_0;
    let new_nonce = nonce_after(input, flags)->Ok_0;
    let allowance = allowance::allowance_after(input, flags)->Ok_0;
    let identity = address::identity_after(f, input, flags)->Ok_0;
    let game = fairness::fairness_of(f, g, input, flags)->Ok_0;
    let seed_hash = if commits_seed(input, flags) {
        input.next_server_seed_hash
    } else {
        input.old_seed_hash
    };
    SlotEffects {
        new_balance: bal.new_balance,
        new_credit: bal.new_credit,
        new_seed_hash: seed_hash,
        new_nonce,
        new_game_nonce: nonce::game_lane(new_nonce),
        new_account_nonce: nonce::account_lane(new_nonce),
        new_provider_allowance: allowance,
        new_pk_hash: identity.new_pk_hash,
        new_address_hash: identity.new_address_hash,
        new_root: state_root(
            f,
            (AccountState {
                balance: bal.new_balance,
                seed_hash,
                credit: bal.new_credit,
                nonce: new_nonce,
                allowance,
                pk_hash: identity.new_pk_hash,
                address_hash: identity.new_address_hash,
            }),
            input.main_siblings,
            input.user_id,
        ),
        new_total_liability: liability_after(input, flags)->Ok_0,
        random: if flags.plays() {
            game.random
        } else {
            [0, 0, 0, 0]
        },
        slot_h: if flags.plays() {
            game.slot_h
        } else {
            [0, 0, 0, 0]
        },
        is_multiset_slot: flags.plays(),
    }
}

/// What the effects of an accepted slot are, whatever its digests: everything but
/// a stamped address, the root and the game's outcome seed and commitment.
pub open spec fn plain_effects(input: SlotInput, effects: SlotEffects) -> bool {
    let flags = TxFlags::of(input.tx_type);
    &&& balance::balance_changes(input, flags) matches Ok(change)
    &&& effects.new_balance == change.new_balance
    &&& effects.new_credit == change.new_credit
    &&& liability_after(input, flags) == Ok::<u64, SlotRejection>(effects.new_total_liability)
    &&& allowance::allowance_after(input, flags) == Ok::<u64, SlotRejection>(
        effects.new_provider_allowance,
    )
    &&& auth::auth_of(input, flags) is Ok
    &&& nonce_after(input, flags) == Ok::<u64, SlotRejection>(effects.new_nonce)
    &&& effects.new_game_nonce == nonce::game_lane(effects.new_nonce)
    &&& effects.new_account_nonce == nonce::account_lane(effects.new_nonce)
    &&& effects.new_pk_hash == if address::sets_key(input, flags) {
        input.new_pk_hash
    } else {
        input.old_pk_hash
    }
    &&& effects.new_seed_hash == if commits_seed(input, flags) {
        input.next_server_seed_hash
    } else {
        input.old_seed_hash
    }
    &&& commits_seed(input, flags) ==> !field::zeros(input.next_server_seed_hash@)
    &&& effects.is_multiset_slot == flags.plays()
    &&& !flags.plays() ==> field::zeros(effects.random@) && field::zeros(effects.slot_h@)
}

/// The effects can be stored and hashed again: every limb is canonical, the nonce
/// too, and the allowance fits its two leaf halves.
pub open spec fn are_storable(effects: SlotEffects) -> bool {
    &&& field::canonical(effects.new_root@)
    &&& field::canonical(effects.new_seed_hash@)
    &&& field::canonical(effects.new_pk_hash@)
    &&& field::canonical(effects.new_address_hash@)
    &&& field::canonical(effects.random@)
    &&& field::canonical(effects.slot_h@)
    &&& effects.new_nonce < GOLDILOCKS_P
    &&& effects.new_provider_allowance <= PROVIDER_ALLOWANCE_MAX
}

/// The verdict on a slot whose type-independent checks have passed.
pub open spec fn type_verdict(f: hash::Sponge, g: games::GameModel, input: SlotInput) -> Result<
    SlotEffects,
    SlotRejection,
> {
    match type_rejection(f, g, input) {
        Some(reason) => Err(reason),
        None => Ok(effects_of(f, g, input)),
    }
}

/// The verdict on a slot.
pub open spec fn verdict(f: hash::Sponge, g: games::GameModel, input: SlotInput) -> Result<
    SlotEffects,
    SlotRejection,
> {
    match common_rejection(f, input) {
        Some(reason) => Err(reason),
        None => type_verdict(f, g, input),
    }
}

/// Validate a candidate slot: the state after it, or the first reason to reject
/// it.
pub fn validate_slot<
    V: Fn(&GameParams) -> bool,
    P: Fn(&[u64; 4], u64, &GameParams) -> u64,
    U: Fn(u32, u32) -> Vec<u8>,
    D: Fn(&[u64; MAX_CARDS]) -> [u8; MAX_CARDS],
    R: Fn(&[u8; MAX_CARDS], &[u8], u64) -> BlackjackResult,
    H: Fn(&[u64]) -> [u64; 4],
>(input: &SlotInput, hash: &H, games: &GameCore<V, P, U, D, R>) -> (r: Result<
    SlotEffects,
    SlotRejection,
>)
    requires
        hash::is_sponge(hash),
        games.is_total(),
    ensures
        forall|f: hash::Sponge, g: games::GameModel|
            #![trigger hash::computes(hash, f), games.behaves(g)]
            hash::computes(hash, f) && games.behaves(g) ==> r == verdict(f, g, *input),
        range_rejection(*input) matches Some(reason) ==> r == Err::<SlotEffects, SlotRejection>(
            reason,
        ),
        r is Ok ==> range_rejection(*input) is None && input.old_total_liability
            == input.current_tl,
        r matches Ok(effects) ==> plain_effects(*input, effects) && are_storable(effects),
{
    check_tx_type(input)?;
    check_field_canonicity(input)?;
    check_amount_canonicity(input)?;
    check_stored_allowance_range(input)?;
    check_user_id_range(input)?;
    verify_current_root(input, hash)?;
    if input.old_total_liability != input.current_tl {
        return Err(SlotRejection::TlOverflow);
    }
    compute_effects(input, hash, games)
}

/// The transaction type must be known.
pub fn check_tx_type(input: &SlotInput) -> (r: Result<(), SlotRejection>)
    ensures
        r == if input.tx_type <= MAX_TX_TYPE {
            Ok(())
        } else {
            Err::<(), SlotRejection>(SlotRejection::BadTxType)
        },
{
    if input.tx_type > MAX_TX_TYPE {
        return Err(SlotRejection::BadTxType);
    }
    Ok(())
}

/// The stored provider allowance must fit its two leaf halves.
pub fn check_stored_allowance_range(input: &SlotInput) -> (r: Result<(), SlotRejection>)
    ensures
        r == if input.old_provider_allowance <= PROVIDER_ALLOWANCE_MAX {
            Ok(())
        } else {
            Err::<(), SlotRejection>(SlotRejection::ProviderAllowanceOverflow)
        },
{
    if input.old_provider_allowance > PROVIDER_ALLOWANCE_MAX {
        return Err(SlotRejection::ProviderAllowanceOverflow);
    }
    Ok(())
}

/// Every opaque limb must be canonical.
pub fn check_field_canonicity(input: &SlotInput) -> (r: Result<(), SlotRejection>)
    ensures
        r == if limbs_are_canonical(*input) {
            Ok(())
        } else {
            Err::<(), SlotRejection>(SlotRejection::FieldNotCanonical)
        },
{
    let ok = all_canonical(&input.server_seed) && all_canonical(&input.user_seed) && all_canonical(
        &input.old_seed_hash,
    ) && all_canonical(&input.next_server_seed_hash) && is_canonical(input.old_nonce)
        && all_canonical(&input.old_pk_hash) && all_canonical(&input.new_pk_hash) && all_canonical(
        &input.old_address_hash,
    ) && all_canonical(&input.prediction_hash) && all_canonical(&input.user_secret_random)
        && path_is_canonical(&input.main_siblings);
    if ok {
        Ok(())
    } else {
        Err(SlotRejection::FieldNotCanonical)
    }
}

/// True iff every node of an authentication path is canonical.
fn path_is_canonical(siblings: &[[u64; 4]; TREE_DEPTH]) -> (r: bool)
    ensures
        r == merkle::canonical_path(siblings@),
{
    let mut level: usize = 0;
    while level < TREE_DEPTH
        invariant
            level <= TREE_DEPTH,
            forall|l: int| 0 <= l < level ==> field::canonical(#[trigger] siblings@[l]@),
        decreases TREE_DEPTH - level,
    {
        let sibling = siblings[level];
        if !all_canonical(&sibling) {
            assert(!field::canonical(siblings@[level as int]@));
            return false;
        }
        level += 1;
    }
    true
}

/// The full amounts must be canonical, not merely `u64`: each enters a digest as
/// one field element.
pub fn check_amount_canonicity(input: &SlotInput) -> (r: Result<(), SlotRejection>)
    ensures
        r == if amounts_are_canonical(*input) {
            Ok(())
        } else {
            Err::<(), SlotRejection>(SlotRejection::AmountNotCanonical)
        },
{
    if is_canonical(input.amount) && is_canonical(input.win_amount) {
        Ok(())
    } else {
        Err(SlotRejection::AmountNotCanonical)
    }
}

/// The user id must index a leaf of the tree.
pub fn check_user_id_range(input: &SlotInput) -> (r: Result<(), SlotRejection>)
    ensures
        r == if input.user_id < USER_ID_LIMIT {
            Ok(())
        } else {
            Err::<(), SlotRejection>(SlotRejection::UserIdOutOfRange)
        },
{
    if input.user_id < USER_ID_LIMIT {
        Ok(())
    } else {
        Err(SlotRejection::UserIdOutOfRange)
    }
}

/// The old leaf must authenticate against the current root: the witness reflects
/// the live tree.
pub fn verify_current_root<H: Fn(&[u64]) -> [u64; 4]>(input: &SlotInput, hash: &H) -> (r: Result<
    (),
    SlotRejection,
>)
    requires
        hash::is_sponge(hash),
        field::canonical(input.old_seed_hash@),
        input.old_nonce < GOLDILOCKS_P,
        input.old_provider_allowance <= PROVIDER_ALLOWANCE_MAX,
        field::canonical(input.old_pk_hash@.take(2)),
        field::canonical(input.old_address_hash@.take(2)),
        merkle::canonical_path(input.main_siblings@),
    ensures
        r is Ok || r == Err::<(), SlotRejection>(SlotRejection::MerkleRootMismatch),
        forall|f: hash::Sponge| #[trigger]
            hash::computes(hash, f) ==> (r is Ok <==> old_root(f, *input) == input.current_root),
{
    let computed = compute_new_root(
        input.old_balance,
        input.old_seed_hash,
        input.old_deposit_credit,
        input.old_nonce,
        input.old_provider_allowance,
        input.old_pk_hash,
        input.old_address_hash,
        &input.main_siblings,
        input.user_id,
        hash,
    );
    if same_limbs(&computed, &input.current_root) {
        Ok(())
    } else {
        Err(SlotRejection::MerkleRootMismatch)
    }
}

/// The root of the tree in which leaf `user_id` holds this state.
pub fn compute_new_root<H: Fn(&[u64]) -> [u64; 4]>(
    new_balance: u64,
    new_seed_hash: [u64; 3],
    new_credit: u64,
    new_nonce: u64,
    new_allowance: u64,
    new_pk_hash: [u64; 4],
    new_address_hash: [u64; 4],
    siblings: &[[u64; 4]; TREE_DEPTH],
    user_id: u32,
    hash: &H,
) -> (r: [u64; 4])
    requires
        hash::is_sponge(hash),
        field::canonical(new_seed_hash@),
        new_nonce < GOLDILOCKS_P,
        new_allowance <= PROVIDER_ALLOWANCE_MAX,
        field::canonical(new_pk_hash@.take(2)),
        field::canonical(new_address_hash@.take(2)),
        merkle::canonical_path(siblings@),
    ensures
        field::canonical(r@),
        forall|f: hash::Sponge| #[trigger]
            hash::computes(hash, f) ==> r == state_root(
                f,
                (AccountState {
                    balance: new_balance,
                    seed_hash: new_seed_hash,
                    credit: new_credit,
                    nonce: new_nonce,
                    allowance: new_allowance,
                    pk_hash: new_pk_hash,
                    address_hash: new_address_hash,
                }),
                *siblings,
                user_id,
            ),
{
    let new_balance_hash = balance_leaf(
        new_balance,
        new_seed_hash,
        new_credit,
        new_nonce,
        new_allowance,
        hash,
    );
    compute_root(new_balance_hash, new_pk_hash, new_address_hash, siblings, user_id, hash)
}

/// Apply the checks on the account and compute what the slot does to it.
fn change_account<H: Fn(&[u64]) -> [u64; 4]>(input: &SlotInput, flags: &TxFlags, hash: &H) -> (r:
    Result<AccountChange, SlotRejection>)
    requires
        hash::is_sponge(hash),
        limbs_are_canonical(*input),
        *flags == TxFlags::of(input.tx_type),
    ensures
        forall|f: hash::Sponge| #[trigger]
            hash::computes(hash, f) ==> r == (match account_rejection(f, *input) {
                Some(reason) => Err::<AccountChange, SlotRejection>(reason),
                None => Ok(account_change(f, *input)),
            }),
        r matches Ok(change) ==> {
            &&& balance::balance_changes(*input, *flags) == Ok::<BalanceEffects, SlotRejection>(
                change.balance,
            )
            &&& allowance::allowance_after(*input, *flags) == Ok::<u64, SlotRejection>(
                change.allowance,
            )
            &&& auth::auth_of(*input, *flags) is Ok
            &&& nonce_after(*input, *flags) == Ok::<u64, SlotRejection>(change.nonce)
            &&& change.identity.new_pk_hash == if address::sets_key(*input, *flags) {
                input.new_pk_hash
            } else {
                input.old_pk_hash
            }
            &&& change.allowance <= PROVIDER_ALLOWANCE_MAX
            &&& field::canonical(change.identity.new_pk_hash@)
            &&& field::canonical(change.identity.new_address_hash@)
            &&& change.nonce < GOLDILOCKS_P
        },
{
    if flags.is_set_init_seed_hash && input.user_id != 0 {
        return Err(SlotRejection::SetInitSeedNotAccountZero);
    }
    if flags.is_in_house_bet && input.user_id == 0 {
        return Err(SlotRejection::InHouseBetOnAccountZero);
    }
    let balance = match build_balance_changes(input, flags) {
        Ok(balance) => balance,
        Err(e) => return Err(e),
    };
    let allowance: u64 = match compute_new_allowance(input, flags) {
        Ok(allowance) => allowance,
        Err(e) => return Err(e),
    };
    if flags.is_risk_reject && balance.new_balance < input.old_deposit_credit {
        return Err(SlotRejection::RiskRejectBelowCredit);
    }
    let identity = match build_address(input, flags, hash) {
        Ok(identity) => identity,
        Err(e) => return Err(e),
    };
    match check_recipient_binding(input, flags, hash) {
        Ok(()) => {},
        Err(e) => return Err(e),
    }
    let auth = match check_auth(input, flags) {
        Ok(auth) => auth,
        Err(e) => return Err(e),
    };
    let is_account_bump = auth.is_account_lane || identity.is_key_setter;
    let nonce: u64 = match compute_new_nonce(input.old_nonce, auth.is_game_lane, is_account_bump) {
        Ok(nonce) => nonce,
        Err(e) => return Err(e),
    };
    Ok(AccountChange { balance, allowance, identity, nonce })
}

/// Apply the type-dependent checks and compute the state after the slot.
pub fn compute_effects<
    V: Fn(&GameParams) -> bool,
    P: Fn(&[u64; 4], u64, &GameParams) -> u64,
    U: Fn(u32, u32) -> Vec<u8>,
    D: Fn(&[u64; MAX_CARDS]) -> [u8; MAX_CARDS],
    R: Fn(&[u8; MAX_CARDS], &[u8], u64) -> BlackjackResult,
    H: Fn(&[u64]) -> [u64; 4],
>(input: &SlotInput, hash: &H, games: &GameCore<V, P, U, D, R>) -> (r: Result<
    SlotEffects,
    SlotRejection,
>)
    requires
        hash::is_sponge(hash),
        games.is_total(),
        limbs_are_canonical(*input),
        amounts_are_canonical(*input),
    ensures
        forall|f: hash::Sponge, g: games::GameModel|
            #![trigger hash::computes(hash, f), games.behaves(g)]
            hash::computes(hash, f) && games.behaves(g) ==> r == type_verdict(f, g, *input),
        r matches Ok(effects) ==> plain_effects(*input, effects) && are_storable(effects),
{
    let flags = TxFlags::from_tx_type(input.tx_type);
    let change = match change_account(input, &flags, hash) {
        Ok(change) => change,
        Err(e) => return Err(e),
    };
    let (new_account_nonce, new_game_nonce) = split_nonce(change.nonce);

    let game: Option<FairnessEffects> = if flags.is_ihb_or_crash() {
        match check_fairness(input, &flags, hash, games) {
            Ok(effects) => Some(effects),
            Err(e) => return Err(e),
        }
    } else {
        None
    };

    let is_first_registration = flags.is_key_register_only && all_zero(&input.old_seed_hash);
    let is_needs_new_seed = flags.is_in_house_bet || flags.is_set_init_seed_hash
        || is_first_registration;
    if is_needs_new_seed && all_zero(&input.next_server_seed_hash) {
        return Err(SlotRejection::ZeroSeedCommit);
    }
    let new_seed_hash = match &game {
        Some(effects) => effects.new_seed_hash,
        None => if flags.is_set_init_seed_hash || is_first_registration {
            input.next_server_seed_hash
        } else {
            input.old_seed_hash
        },
    };

    let new_total_liability: u64 = match compute_new_tl(
        input.old_total_liability,
        change.balance.add_full,
        change.balance.sub_full,
    ) {
        Ok(tl) => tl,
        Err(e) => return Err(e),
    };
    let new_root = compute_new_root(
        change.balance.new_balance,
        new_seed_hash,
        change.balance.new_credit,
        change.nonce,
        change.allowance,
        change.identity.new_pk_hash,
        change.identity.new_address_hash,
        &input.main_siblings,
        input.user_id,
        hash,
    );
    let (random, slot_h, is_multiset_slot) = match game {
        Some(effects) => (effects.random, effects.slot_h, true),
        None => ([0, 0, 0, 0], [0, 0, 0, 0], false),
    };
    assert(!flags.plays() ==> random =~= [0, 0, 0, 0] && slot_h =~= [0, 0, 0, 0]);
    Ok(
        SlotEffects {
            new_balance: change.balance.new_balance,
            new_credit: change.balance.new_credit,
            new_seed_hash,
            new_nonce: change.nonce,
            new_game_nonce,
            new_account_nonce,
            new_provider_allowance: change.allowance,
            new_pk_hash: change.identity.new_pk_hash,
            new_address_hash: change.identity.new_address_hash,
            new_root,
            new_total_liability,
            random,
            slot_h,
            is_multiset_slot,
        },
    )
}

} // verus!
