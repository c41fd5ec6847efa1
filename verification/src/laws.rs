//! What holds of every accepted slot, and of every run of accepted slots on one
//! account.
use crate::address;
use crate::binding;
use crate::blackjack;
use crate::blackjack::BlackjackResult;
use crate::fairness;
use crate::field;
use crate::field::{GOLDILOCKS_P, PROVIDER_ALLOWANCE_MAX};
use crate::flags::TxFlags;
use crate::games;
use crate::games::{GameModel, GameParamsView};
use crate::hash;
use crate::merkle::TREE_DEPTH;
use crate::nonce;
use crate::nonce::{ACCOUNT_LANE_MAX, ACCOUNT_LANE_UNIT, GAME_LANE_MAX, NONCE_LIMIT};
use crate::slot::{
    SlotEffects, SlotInput, SlotRejection, MAX_TX_TYPE, TX_BET, TX_CRASH_SETTLE, TX_DEPOSIT,
    TX_IN_HOUSE_BET, TX_KEY_REGISTER_ONLY, TX_NOOP, TX_RISK_REJECT, TX_SET_INIT_SEED_HASH,
    TX_SET_PROVIDER_ALLOWANCE, TX_TRANSFER, TX_WITHDRAWAL,
};
use crate::validate;
use crate::validate::USER_ID_LIMIT;
use vstd::prelude::*;

verus! {

/// The slot is accepted with these effects.
pub open spec fn accepts(
    f: hash::Sponge,
    g: GameModel,
    input: SlotInput,
    effects: SlotEffects,
) -> bool {
    validate::verdict(f, g, input) == Ok::<SlotEffects, SlotRejection>(effects)
}

/// The slot is rejected for this reason.
pub open spec fn rejects(
    f: hash::Sponge,
    g: GameModel,
    input: SlotInput,
    reason: SlotRejection,
) -> bool {
    validate::verdict(f, g, input) == Err::<SlotEffects, SlotRejection>(reason)
}

/// A run of accepted slots on one account, each starting from the state that the
/// one before it left.
pub open spec fn is_run(
    f: hash::Sponge,
    g: GameModel,
    slots: Seq<(SlotInput, SlotEffects)>,
) -> bool {
    &&& forall|k: int| 0 <= k < slots.len() ==> accepts(f, g, (#[trigger] slots[k]).0, slots[k].1)
    &&& forall|k: int|
        #![trigger slots[k]]
        0 < k < slots.len() ==> slots[k].0.old_state() == slots[k - 1].1.new_state()
}

/// What the provider bets of a run debit.
pub open spec fn provider_debits(slots: Seq<(SlotInput, SlotEffects)>) -> int
    decreases slots.len(),
{
    if slots.len() == 0 {
        0
    } else {
        provider_debits(slots.drop_last()) + if slots.last().0.tx_type == TX_BET {
            slots.last().0.amount as int
        } else {
            0
        }
    }
}

/// Every accepted slot, whatever its type, has a known type, canonical limbs and
/// amounts, a storable allowance and a user id within the tree; its old leaf
/// authenticates against the current root and its liability is the current one.
pub proof fn law_common_checks_apply_to_every_type(
    f: hash::Sponge,
    g: GameModel,
    input: SlotInput,
    effects: SlotEffects,
)
    requires
        accepts(f, g, input, effects),
    ensures
        input.tx_type <= MAX_TX_TYPE,
        validate::limbs_are_canonical(input),
        validate::amounts_are_canonical(input),
        input.old_provider_allowance <= PROVIDER_ALLOWANCE_MAX,
        input.user_id < USER_ID_LIMIT,
        validate::old_root(f, input) == input.current_root,
        input.old_total_liability == input.current_tl,
{
}

/// Exactly one flag is set for a valid transaction type, none for any other.
pub proof fn law_flags_are_one_hot(tx_type: u8)
    ensures
        TxFlags::of(tx_type).count() == if tx_type <= MAX_TX_TYPE {
            1int
        } else {
            0int
        },
{
}

/// No type signs under both lanes, and a key registration under neither.
pub proof fn law_lanes_are_disjoint(tx_type: u8)
    ensures
        !(TxFlags::of(tx_type).signs_game_lane() && TxFlags::of(tx_type).signs_account_lane()),
        TxFlags::of(tx_type).is_key_register_only ==> !TxFlags::of(tx_type).signs_game_lane()
            && !TxFlags::of(tx_type).signs_account_lane(),
{
}

/// Splitting undoes joining: lanes within their widths come back from the packed
/// nonce, which is below `2^63` and canonical.
pub proof fn law_splitting_undoes_joining(account: u64, game: u64)
    requires
        account <= ACCOUNT_LANE_MAX,
        game <= GAME_LANE_MAX,
    ensures
        nonce::account_lane((account * ACCOUNT_LANE_UNIT + game) as u64) == account,
        nonce::game_lane((account * ACCOUNT_LANE_UNIT + game) as u64) == game,
        account * ACCOUNT_LANE_UNIT + game < NONCE_LIMIT,
        account * ACCOUNT_LANE_UNIT + game < GOLDILOCKS_P,
{
}

/// Joining undoes splitting: a nonce below `2^63` has lanes within their widths,
/// and they pack to it.
pub proof fn law_joining_undoes_splitting(nonce: u64)
    requires
        nonce < NONCE_LIMIT,
    ensures
        nonce::account_lane(nonce) <= ACCOUNT_LANE_MAX,
        nonce::game_lane(nonce) <= GAME_LANE_MAX,
        nonce::account_lane(nonce) * ACCOUNT_LANE_UNIT + nonce::game_lane(nonce) == nonce,
{
}

/// A bump moves its own lane by one and leaves the other alone; nothing carries.
pub proof fn law_bumps_stay_in_their_lane(nonce: u64, bumps_game: bool, bumps_account: bool)
    ensures
        nonce::advanced(nonce, bumps_game, bumps_account) matches Ok(next) ==> {
            &&& next < NONCE_LIMIT
            &&& nonce::game_lane(next) == nonce::game_lane(nonce) + if bumps_game {
                1int
            } else {
                0int
            }
            &&& nonce::account_lane(next) == nonce::account_lane(nonce) + if bumps_account {
                1int
            } else {
                0int
            }
        },
{
    if nonce < NONCE_LIMIT {
        law_joining_undoes_splitting(nonce);
    }
}

/// The nonce of an accepted slot is the one that advancing by its type gives: a
/// key registration counts as a key setter iff it carries a key.
pub proof fn law_nonce_advances_by_type(
    f: hash::Sponge,
    g: GameModel,
    input: SlotInput,
    effects: SlotEffects,
)
    requires
        accepts(f, g, input, effects),
    ensures
        nonce::advanced(
            input.old_nonce,
            TxFlags::of(input.tx_type).signs_game_lane(),
            TxFlags::of(input.tx_type).signs_account_lane() || address::sets_key(
                input,
                TxFlags::of(input.tx_type),
            ),
        ) == Ok::<u64, SlotRejection>(effects.new_nonce),
        effects.new_nonce == effects.new_account_nonce * ACCOUNT_LANE_UNIT + effects.new_game_nonce,
        effects.new_game_nonce == nonce::game_lane(input.old_nonce) + if input.tx_type
            == TX_IN_HOUSE_BET || input.tx_type == TX_CRASH_SETTLE || input.tx_type
            == TX_SET_PROVIDER_ALLOWANCE {
            1int
        } else {
            0int
        },
        effects.new_account_nonce == nonce::account_lane(input.old_nonce) + if input.tx_type
            == TX_WITHDRAWAL || input.tx_type == TX_TRANSFER || (input.tx_type
            == TX_KEY_REGISTER_ONLY && !field::zeros(input.new_pk_hash@)) {
            1int
        } else {
            0int
        },
{
    let flags = TxFlags::of(input.tx_type);
    law_bumps_stay_in_their_lane(
        input.old_nonce,
        flags.signs_game_lane(),
        flags.signs_account_lane() || address::sets_key(input, flags),
    );
    law_joining_undoes_splitting(effects.new_nonce);
}

/// The account lane that a withdrawal was signed under survives any run of bets,
/// settlements, allowance changes and unsigned slots: only withdrawals,
/// transfers and key installs move it.
pub proof fn law_account_lane_survives_other_slots(
    f: hash::Sponge,
    g: GameModel,
    slots: Seq<(SlotInput, SlotEffects)>,
)
    requires
        slots.len() > 0,
        is_run(f, g, slots),
        forall|k: int|
            #![trigger slots[k]]
            0 <= k < slots.len() ==> slots[k].0.tx_type != TX_WITHDRAWAL && slots[k].0.tx_type
                != TX_TRANSFER && slots[k].0.tx_type != TX_KEY_REGISTER_ONLY,
    ensures
        slots.last().1.new_account_nonce == nonce::account_lane(slots[0].0.old_nonce),
    decreases slots.len(),
{
    let last = slots.last();
    law_nonce_advances_by_type(f, g, last.0, last.1);
    if slots.len() > 1 {
        let before = slots.drop_last();
        assert forall|k: int| 0 <= k < before.len() implies before[k] == slots[k] by {}
        law_account_lane_survives_other_slots(f, g, before);
        let previous = before.last();
        assert(slots[slots.len() - 1].0.old_state() == previous.1.new_state());
        law_nonce_advances_by_type(f, g, previous.0, previous.1);
    }
}

/// A signed slot, and one that installs a key, changes the nonce. Its witness
/// can therefore not be replayed: under the root that it leaves, its old account
/// state names a collision.
pub proof fn law_signed_slots_cannot_be_replayed(
    f: hash::Sponge,
    g: GameModel,
    input: SlotInput,
    effects: SlotEffects,
)
    requires
        accepts(f, g, input, effects),
        TxFlags::of(input.tx_type).signs_game_lane() || TxFlags::of(
            input.tx_type,
        ).signs_account_lane() || address::sets_key(input, TxFlags::of(input.tx_type)),
    ensures
        effects.new_nonce > input.old_nonce,
        validate::old_root(f, input) == effects.new_root ==> binding::collides(
            f,
            binding::account_collision(
                f,
                input.old_state(),
                input.main_siblings,
                effects.new_state(),
                input.main_siblings,
                input.user_id,
            ),
        ),
{
    law_nonce_advances_by_type(f, g, input, effects);
    if validate::old_root(f, input) == effects.new_root {
        binding::law_root_binds_account(
            f,
            input.old_state(),
            input.main_siblings,
            effects.new_state(),
            input.main_siblings,
            input.user_id,
        );
    }
}

/// A signed slot, and one that installs a key, stays spent over any run that
/// follows it. Every later state of the account has a higher nonce, and a higher
/// counter in the lane that the slot signed or bumped. Its old account state
/// therefore never authenticates again: along whatever path, under the root that
/// a later slot leaves, it names a collision.
pub proof fn law_signed_slots_stay_spent(
    f: hash::Sponge,
    g: GameModel,
    slots: Seq<(SlotInput, SlotEffects)>,
    j: int,
    k: int,
    siblings: [[u64; 4]; TREE_DEPTH],
)
    requires
        is_run(f, g, slots),
        0 <= j <= k < slots.len(),
        TxFlags::of(slots[j].0.tx_type).signs_game_lane() || TxFlags::of(
            slots[j].0.tx_type,
        ).signs_account_lane() || address::sets_key(slots[j].0, TxFlags::of(slots[j].0.tx_type)),
    ensures
        slots[k].1.new_nonce > slots[j].0.old_nonce,
        TxFlags::of(slots[j].0.tx_type).signs_game_lane() ==> slots[k].1.new_game_nonce
            > nonce::game_lane(slots[j].0.old_nonce),
        !TxFlags::of(slots[j].0.tx_type).signs_game_lane() ==> slots[k].1.new_account_nonce
            > nonce::account_lane(slots[j].0.old_nonce),
        validate::state_root(f, slots[j].0.old_state(), siblings, slots[k].0.user_id)
            == slots[k].1.new_root ==> binding::collides(
            f,
            binding::account_collision(
                f,
                slots[j].0.old_state(),
                siblings,
                slots[k].1.new_state(),
                slots[k].0.main_siblings,
                slots[k].0.user_id,
            ),
        ),
{
    lemma_lanes_never_fall(f, g, slots, j, k);
    law_nonce_advances_by_type(f, g, slots[j].0, slots[j].1);
    law_nonce_advances_by_type(f, g, slots[k].0, slots[k].1);
    law_common_checks_apply_to_every_type(f, g, slots[j].0, slots[j].1);
    law_common_checks_apply_to_every_type(f, g, slots[k].0, slots[k].1);
    law_allowance_caps_provider_bets(f, g, slots[k].0, slots[k].1);
    if validate::state_root(f, slots[j].0.old_state(), siblings, slots[k].0.user_id)
        == slots[k].1.new_root {
        binding::law_root_binds_account(
            f,
            slots[j].0.old_state(),
            siblings,
            slots[k].1.new_state(),
            slots[k].0.main_siblings,
            slots[k].0.user_id,
        );
    }
}

/// Over a run neither lane falls.
proof fn lemma_lanes_never_fall(
    f: hash::Sponge,
    g: GameModel,
    slots: Seq<(SlotInput, SlotEffects)>,
    j: int,
    k: int,
)
    requires
        is_run(f, g, slots),
        0 <= j <= k < slots.len(),
    ensures
        slots[k].1.new_game_nonce >= slots[j].1.new_game_nonce,
        slots[k].1.new_account_nonce >= slots[j].1.new_account_nonce,
    decreases k - j,
{
    if j < k {
        lemma_lanes_never_fall(f, g, slots, j, k - 1);
        law_nonce_advances_by_type(f, g, slots[k - 1].0, slots[k - 1].1);
        law_nonce_advances_by_type(f, g, slots[k].0, slots[k].1);
        assert(slots[k].0.old_state() == slots[k - 1].1.new_state());
    }
}

/// Two accepted slots at one user id under one root describe the same account,
/// or name a collision: a witness that authenticates reflects the live tree.
pub proof fn law_witness_reflects_the_tree(
    f: hash::Sponge,
    g: GameModel,
    input_a: SlotInput,
    effects_a: SlotEffects,
    input_b: SlotInput,
    effects_b: SlotEffects,
)
    requires
        accepts(f, g, input_a, effects_a),
        accepts(f, g, input_b, effects_b),
        input_a.user_id == input_b.user_id,
        input_a.current_root == input_b.current_root,
    ensures
        binding::same_leaf(input_a.old_state(), input_b.old_state()) || binding::collides(
            f,
            binding::account_collision(
                f,
                input_a.old_state(),
                input_a.main_siblings,
                input_b.old_state(),
                input_b.main_siblings,
                input_a.user_id,
            ),
        ),
{
    if !binding::same_leaf(input_a.old_state(), input_b.old_state()) {
        binding::law_root_binds_account(
            f,
            input_a.old_state(),
            input_a.main_siblings,
            input_b.old_state(),
            input_b.main_siblings,
            input_a.user_id,
        );
    }
}

/// The state after an accepted slot can be stored in a leaf: its limbs are
/// canonical, given that the digest of its address is, its allowance fits in 62
/// bits and its nonce in 63. The new root is the root of that state.
pub proof fn law_effects_are_a_valid_state(
    f: hash::Sponge,
    g: GameModel,
    input: SlotInput,
    effects: SlotEffects,
)
    requires
        accepts(f, g, input, effects),
        field::canonical(hash::address_hash_of(f, input.user_address)@),
    ensures
        effects.new_nonce < NONCE_LIMIT,
        effects.new_provider_allowance <= PROVIDER_ALLOWANCE_MAX,
        field::canonical(effects.new_seed_hash@),
        field::canonical(effects.new_pk_hash@),
        field::canonical(effects.new_address_hash@),
        effects.new_root == validate::state_root(
            f,
            effects.new_state(),
            input.main_siblings,
            input.user_id,
        ),
{
    law_nonce_advances_by_type(f, g, input, effects);
}

/// The effects of a slot can be built on: a following slot at the same leaf that
/// takes them as its old state, root and liability, and whose own limbs are
/// canonical, passes every check that does not depend on its type.
pub proof fn law_effects_chain(
    f: hash::Sponge,
    g: GameModel,
    input: SlotInput,
    effects: SlotEffects,
    next: SlotInput,
)
    requires
        accepts(f, g, input, effects),
        next.old_state() == effects.new_state(),
        next.user_id == input.user_id,
        next.main_siblings == input.main_siblings,
        next.current_root == effects.new_root,
        next.current_tl == effects.new_total_liability,
        next.old_total_liability == effects.new_total_liability,
        next.tx_type <= MAX_TX_TYPE,
        validate::limbs_are_canonical(next),
        validate::amounts_are_canonical(next),
    ensures
        validate::common_rejection(f, next) is None,
{
}

/// Balance and total liability move together: what a slot adds to the account it
/// adds to the liability.
pub proof fn law_liability_follows_balance(
    f: hash::Sponge,
    g: GameModel,
    input: SlotInput,
    effects: SlotEffects,
)
    requires
        accepts(f, g, input, effects),
    ensures
        effects.new_total_liability - input.old_total_liability == effects.new_balance
            - input.old_balance,
{
}

/// The deposit credit never exceeds the balance: every accepted slot keeps it so.
pub proof fn law_credit_stays_within_balance(
    f: hash::Sponge,
    g: GameModel,
    input: SlotInput,
    effects: SlotEffects,
)
    requires
        accepts(f, g, input, effects),
        input.old_deposit_credit <= input.old_balance,
    ensures
        effects.new_credit <= effects.new_balance,
{
}

/// Only a deposit raises the credit, by its amount.
pub proof fn law_only_deposits_raise_credit(
    f: hash::Sponge,
    g: GameModel,
    input: SlotInput,
    effects: SlotEffects,
)
    requires
        accepts(f, g, input, effects),
    ensures
        input.tx_type == TX_DEPOSIT ==> effects.new_credit == input.old_deposit_credit
            + input.amount,
        input.tx_type != TX_DEPOSIT ==> effects.new_credit <= input.old_deposit_credit,
        input.tx_type == TX_RISK_REJECT ==> effects.new_credit == input.old_deposit_credit
            && effects.new_balance >= effects.new_credit,
{
}

/// Only the owner raises the provider allowance. A provider bet lowers it by the
/// amount that it debits; everything else leaves it alone.
pub proof fn law_allowance_caps_provider_bets(
    f: hash::Sponge,
    g: GameModel,
    input: SlotInput,
    effects: SlotEffects,
)
    requires
        accepts(f, g, input, effects),
    ensures
        input.tx_type == TX_SET_PROVIDER_ALLOWANCE ==> effects.new_provider_allowance
            == input.amount && !field::zeros(input.old_pk_hash@),
        input.tx_type == TX_BET ==> effects.new_provider_allowance == input.old_provider_allowance
            - input.amount && effects.new_balance == input.old_balance - input.amount,
        input.tx_type != TX_SET_PROVIDER_ALLOWANCE && input.tx_type != TX_BET
            ==> effects.new_provider_allowance == input.old_provider_allowance,
{
}

/// Over any run without a new grant, provider bets debit exactly what the
/// allowance lost, so never more than the owner granted. Wins restore nothing.
pub proof fn law_provider_bets_never_exceed_the_grant(
    f: hash::Sponge,
    g: GameModel,
    slots: Seq<(SlotInput, SlotEffects)>,
)
    requires
        slots.len() > 0,
        is_run(f, g, slots),
        forall|k: int|
            #![trigger slots[k]]
            0 <= k < slots.len() ==> slots[k].0.tx_type != TX_SET_PROVIDER_ALLOWANCE,
    ensures
        provider_debits(slots) + slots.last().1.new_provider_allowance
            == slots[0].0.old_provider_allowance,
        provider_debits(slots) <= slots[0].0.old_provider_allowance,
    decreases slots.len(),
{
    let last = slots.last();
    let before = slots.drop_last();
    law_allowance_caps_provider_bets(f, g, last.0, last.1);
    if slots.len() > 1 {
        assert forall|k: int| 0 <= k < before.len() implies before[k] == slots[k] by {}
        law_provider_bets_never_exceed_the_grant(f, g, before);
        assert(slots[slots.len() - 1].0.old_state() == before.last().1.new_state());
    } else {
        assert(provider_debits(before) == 0);
    }
}

/// An account without a key holds no provider allowance, so no provider can bet
/// on it: every accepted slot keeps it so.
pub proof fn law_keyless_accounts_have_no_allowance(
    f: hash::Sponge,
    g: GameModel,
    input: SlotInput,
    effects: SlotEffects,
)
    requires
        accepts(f, g, input, effects),
        field::zeros(input.old_pk_hash@) ==> input.old_provider_allowance == 0,
    ensures
        field::zeros(effects.new_pk_hash@) ==> effects.new_provider_allowance == 0,
        field::zeros(input.old_pk_hash@) && input.tx_type == TX_BET ==> input.amount == 0,
{
}

/// A noop changes nothing, the root included.
pub proof fn law_noop_preserves_state(
    f: hash::Sponge,
    g: GameModel,
    input: SlotInput,
    effects: SlotEffects,
)
    requires
        accepts(f, g, input, effects),
        input.tx_type == TX_NOOP,
    ensures
        effects.new_state() == input.old_state(),
        effects.new_root == input.current_root,
        effects.new_total_liability == input.current_tl,
        !effects.is_multiset_slot,
{
}

/// Only a key registration that carries a key changes the key, and a registered
/// key is never removed.
pub proof fn law_keys_change_by_registration_only(
    f: hash::Sponge,
    g: GameModel,
    input: SlotInput,
    effects: SlotEffects,
)
    requires
        accepts(f, g, input, effects),
    ensures
        effects.new_pk_hash != input.old_pk_hash ==> input.tx_type == TX_KEY_REGISTER_ONLY
            && effects.new_pk_hash == input.new_pk_hash,
        !field::zeros(input.old_pk_hash@) ==> !field::zeros(effects.new_pk_hash@),
{
}

/// An address on record never changes. It is stamped by a deposit or a key
/// install, from the address that the slot carries; a deposit onto an account
/// with an address carries that address.
pub proof fn law_addresses_are_permanent(
    f: hash::Sponge,
    g: GameModel,
    input: SlotInput,
    effects: SlotEffects,
)
    requires
        accepts(f, g, input, effects),
    ensures
        !field::zeros(input.old_address_hash@) ==> effects.new_address_hash
            == input.old_address_hash,
        effects.new_address_hash != input.old_address_hash ==> {
            &&& input.tx_type == TX_DEPOSIT || input.tx_type == TX_KEY_REGISTER_ONLY
            &&& effects.new_address_hash == hash::address_hash_of(f, input.user_address)
        },
        input.tx_type == TX_DEPOSIT ==> effects.new_address_hash == hash::address_hash_of(
            f,
            input.user_address,
        ),
{
}

/// A seed hash changes only by an in-house bet, by the operator on the crash
/// house account or by the first key registration, and a committed seed is never
/// replaced by the all-zero commitment. The crash house account never bets.
pub proof fn law_seeds_change_by_commitment_only(
    f: hash::Sponge,
    g: GameModel,
    input: SlotInput,
    effects: SlotEffects,
)
    requires
        accepts(f, g, input, effects),
    ensures
        effects.new_seed_hash != input.old_seed_hash ==> {
            &&& effects.new_seed_hash == input.next_server_seed_hash
            &&& {
                ||| input.tx_type == TX_IN_HOUSE_BET && input.user_id != 0
                ||| input.tx_type == TX_SET_INIT_SEED_HASH && input.user_id == 0
                ||| input.tx_type == TX_KEY_REGISTER_ONLY && field::zeros(input.old_seed_hash@)
            }
            &&& !field::zeros(effects.new_seed_hash@)
        },
        !field::zeros(input.old_seed_hash@) ==> !field::zeros(effects.new_seed_hash@),
{
}

/// Every signed slot references a registered key.
pub proof fn law_signed_slots_have_a_key(
    f: hash::Sponge,
    g: GameModel,
    input: SlotInput,
    effects: SlotEffects,
)
    requires
        accepts(f, g, input, effects),
        TxFlags::of(input.tx_type).signs_game_lane() || TxFlags::of(
            input.tx_type,
        ).signs_account_lane(),
    ensures
        !field::zeros(input.old_pk_hash@),
{
}

/// A withdrawal pays the address whose truncated hash was signed; on every other
/// slot the signed counterparty is zero.
pub proof fn law_payouts_go_to_the_signed_counterparty(
    f: hash::Sponge,
    g: GameModel,
    input: SlotInput,
    effects: SlotEffects,
)
    requires
        accepts(f, g, input, effects),
    ensures
        input.tx_type == TX_WITHDRAWAL ==> input.recipient_addr_hash[0] == hash::address_hash_of(
            f,
            input.user_address,
        )[0] && input.recipient_addr_hash[1] == hash::address_hash_of(f, input.user_address)[1],
        input.tx_type != TX_WITHDRAWAL ==> field::zeros(input.recipient_addr_hash@),
{
}

/// The counterparty computed for a slot's type and address is the one the
/// validator asks for.
pub proof fn law_computed_recipient_is_accepted(f: hash::Sponge, g: GameModel, input: SlotInput)
    requires
        input.recipient_addr_hash == address::recipient_of(
            f,
            input.tx_type == TX_WITHDRAWAL,
            input.user_address,
        ),
    ensures
        validate::verdict(f, g, input) != Err::<SlotEffects, SlotRejection>(
            SlotRejection::RecipientAddrHashMismatch,
        ),
{
}

/// An accepted in-house bet reveals the seed its account committed to, its user
/// seed binds the bet, and its win is the one of the game rules under the
/// outcome seed of both.
pub proof fn law_in_house_bets_are_fair(
    f: hash::Sponge,
    g: GameModel,
    input: SlotInput,
    effects: SlotEffects,
)
    requires
        accepts(f, g, input, effects),
        input.tx_type == TX_IN_HOUSE_BET,
    ensures
        hash::seed_hash_of(f, input.server_seed) == input.old_seed_hash,
        input.user_seed == hash::user_seed_of(
            f,
            input.game_id as u64,
            input.amount,
            input.prediction_hash,
            input.user_secret_random,
        ),
        effects.random == hash::random_ihb_of(f, input.server_seed, input.user_seed),
        fairness::win_of(f, g, input, effects.random) == Some(input.win_amount),
        effects.new_balance == input.old_balance + input.win_amount - input.amount,
        effects.new_seed_hash == input.next_server_seed_hash,
{
}

/// An accepted crash settlement pays by the raw revealed seed, which matches the
/// house commitment where one is supplied, and leaves the account's seed alone.
pub proof fn law_crash_settlements_are_fair(
    f: hash::Sponge,
    g: GameModel,
    input: SlotInput,
    effects: SlotEffects,
)
    requires
        accepts(f, g, input, effects),
        input.tx_type == TX_CRASH_SETTLE,
    ensures
        !fairness::is_blackjack(g.ids, input.game_id),
        input.crash_seed_hash matches Some(commitment) ==> hash::seed_hash_of(f, input.server_seed)
            == commitment,
        effects.random == hash::random_crash_of(input.server_seed),
        fairness::win_of(f, g, input, effects.random) == Some(input.win_amount),
        effects.new_balance == input.old_balance + input.win_amount - input.amount,
        effects.new_seed_hash == input.old_seed_hash,
{
}

/// A coin flip is always paid, and by the side named in `prediction_lo`: slots that
/// differ only in `game_mode` get the same win.
pub proof fn law_coin_side_is_the_prediction(
    f: hash::Sponge,
    g: GameModel,
    a: SlotInput,
    b: SlotInput,
    random: [u64; 4],
)
    requires
        g.ids.are_distinct(),
        b == (SlotInput { game_mode: b.game_mode, ..a }),
        a.game_id == g.ids.coinflip,
        a.prediction_lo <= 1,
    ensures
        fairness::win_of(f, g, a, random) == Some(
            (g.payout)(
                random,
                a.amount,
                GameParamsView::Coinflip { prediction: a.prediction_lo as u8 },
            ),
        ),
        fairness::win_of(f, g, b, random) == fairness::win_of(f, g, a, random),
{
    let ids = seq![
        g.ids.crash,
        g.ids.limbo,
        g.ids.dice,
        g.ids.keno,
        g.ids.plinko,
        g.ids.coinflip,
        g.ids.blackjack,
    ];
    assert(ids[5] == a.game_id);
    assert(ids[0] != ids[5] && ids[1] != ids[5] && ids[2] != ids[5]);
    assert(ids[3] != ids[5] && ids[4] != ids[5] && ids[6] != ids[5]);
}

/// Only dice and plinko refuse parameters: a slot of any other game that is paid by
/// its outcome seed always has a win, whatever `is_valid` says.
pub proof fn law_only_dice_and_plinko_refuse_parameters(
    f: hash::Sponge,
    g: GameModel,
    input: SlotInput,
    random: [u64; 4],
)
    requires
        fairness::params_of(g.ids, input) is Some,
        input.game_id != g.ids.dice,
        input.game_id != g.ids.plinko,
    ensures
        fairness::win_of(f, g, input, random) == Some(
            (g.payout)(random, input.amount, fairness::params_of(g.ids, input)->Some_0),
        ),
{
}

/// An accepted blackjack slot is an in-house bet, and it replays: its actions are valid, its amount is the
/// total that the round stakes and its win the one of the round, whatever the
/// outcome seed.
pub proof fn law_blackjack_slots_replay(
    f: hash::Sponge,
    g: GameModel,
    input: SlotInput,
    effects: SlotEffects,
)
    requires
        accepts(f, g, input, effects),
        effects.is_multiset_slot,
        fairness::is_blackjack(g.ids, input.game_id),
    ensures
        input.tx_type == TX_IN_HOUSE_BET,
        blackjack::round_of(
            f,
            g,
            input.server_seed,
            input.user_secret_random,
            input.prediction_lo,
            input.prediction_hi,
            input.base_bet,
        ) == Some(BlackjackResult { total_bet: input.amount, win_amount: input.win_amount }),
        (g.replay_full)(
            (g.deal_shoe)(blackjack::swaps_of(f, input.server_seed, input.user_secret_random)),
            (g.unpack_actions)(input.prediction_lo, input.prediction_hi),
            input.base_bet,
        ) == (BlackjackResult { total_bet: input.amount, win_amount: input.win_amount }),
        blackjack::are_actions((g.unpack_actions)(input.prediction_lo, input.prediction_hi)),
{
}

/// Only the two game types enter the multiset; on every other slot the outcome
/// seed and the commitment are zero.
pub proof fn law_only_games_enter_the_multiset(
    f: hash::Sponge,
    g: GameModel,
    input: SlotInput,
    effects: SlotEffects,
)
    requires
        accepts(f, g, input, effects),
    ensures
        effects.is_multiset_slot <==> input.tx_type == TX_IN_HOUSE_BET || input.tx_type
            == TX_CRASH_SETTLE,
        effects.is_multiset_slot ==> effects.slot_h == hash::slot_h_of(
            f,
            effects.random,
            input.amount,
            input.win_amount,
            input.game_id as u64,
            input.prediction_hash,
        ),
        !effects.is_multiset_slot ==> field::zeros(effects.random@) && field::zeros(
            effects.slot_h@,
        ),
{
}

/// The game rules have no say in a slot that plays no game.
pub proof fn law_rules_matter_to_games_only(
    f: hash::Sponge,
    g: GameModel,
    h: GameModel,
    input: SlotInput,
)
    requires
        input.tx_type != TX_IN_HOUSE_BET,
        input.tx_type != TX_CRASH_SETTLE,
    ensures
        validate::verdict(f, g, input) == validate::verdict(f, h, input),
{
}

/// The order of keno picks does not matter: slots that differ only in it get one
/// verdict.
pub proof fn law_pick_order_is_irrelevant(
    f: hash::Sponge,
    g: GameModel,
    input: SlotInput,
    picks: Vec<u8>,
)
    requires
        picks@.to_multiset() == input.keno_selected@.to_multiset(),
    ensures
        validate::verdict(f, g, (SlotInput { keno_selected: picks, ..input }))
            == validate::verdict(f, g, input),
{
    let leq = |a: u8, b: u8| a <= b;
    let other = SlotInput { keno_selected: picks, ..input };
    picks@.lemma_sort_by_ensures(leq);
    input.keno_selected@.lemma_sort_by_ensures(leq);
    vstd::seq_lib::lemma_sorted_unique(
        games::in_order(picks@),
        games::in_order(input.keno_selected@),
        leq,
    );
    assert(fairness::fairness_of(f, g, other, TxFlags::of(input.tx_type)) == fairness::fairness_of(
        f,
        g,
        input,
        TxFlags::of(input.tx_type),
    ));
}

/// Limbs and address bytes are in range by their types, and the validator
/// computes the capped credit itself: three of the reasons are never given.
pub proof fn law_structural_reasons_are_never_given(f: hash::Sponge, g: GameModel, input: SlotInput)
    ensures
        validate::verdict(f, g, input) matches Err(reason) ==> reason
            != SlotRejection::AmountLimbOverflow && reason != SlotRejection::AddressByteOverflow
            && reason != SlotRejection::CreditCapMismatch,
{
}

} // verus!
