//! How values are encoded and hashed.
//!
//! Each law writes out, element by element, what a digest is taken over, or says
//! which numbers a value is made of. The first ones name the numbers and the
//! conditions that the contracts of the library are stated with.
use crate::blackjack;
use crate::blackjack::{BlackjackResult, ACTION_HIT, ACTION_INSURANCE_DECLINE, MAX_CARDS};
use crate::fairness;
use crate::field;
use crate::field::{
    ALLOWANCE_HALF_BITS, GOLDILOCKS_P, PROVIDER_ALLOWANCE_BITS, PROVIDER_ALLOWANCE_MAX,
};
use crate::flags::TxFlags;
use crate::games;
use crate::games::{GameCore, GameModel, GameParams, GameParamsView};
use crate::hash;
use crate::merkle;
use crate::merkle::TREE_DEPTH;
use crate::nonce::{
    ACCOUNT_LANE_BITS, ACCOUNT_LANE_MAX, ACCOUNT_LANE_UNIT, GAME_LANE_BITS, GAME_LANE_MAX,
    NONCE_LIMIT,
};
use crate::slot::{
    AccountState, SlotEffects, SlotInput, MAX_TX_TYPE, TX_BET, TX_BONUS, TX_CRASH_SETTLE,
    TX_DEPOSIT, TX_IN_HOUSE_BET, TX_KEY_REGISTER_ONLY, TX_NOOP, TX_REFERRAL, TX_RISK_REJECT,
    TX_SET_INIT_SEED_HASH, TX_SET_PROVIDER_ALLOWANCE, TX_TRANSFER, TX_WIN, TX_WITHDRAWAL,
};
use crate::validate;
use crate::validate::USER_ID_LIMIT;
use vstd::prelude::*;

verus! {

/// The codes of the transaction types.
pub proof fn law_type_codes()
    ensures
        TX_NOOP == 0,
        TX_DEPOSIT == 1,
        TX_BET == 2,
        TX_WIN == 3,
        TX_BONUS == 4,
        TX_IN_HOUSE_BET == 5,
        TX_WITHDRAWAL == 6,
        TX_RISK_REJECT == 7,
        TX_SET_INIT_SEED_HASH == 8,
        TX_KEY_REGISTER_ONLY == 9,
        TX_TRANSFER == 10,
        TX_REFERRAL == 11,
        TX_CRASH_SETTLE == 12,
        TX_SET_PROVIDER_ALLOWANCE == 13,
        MAX_TX_TYPE == 13,
{
}

/// The widths and limits fit together: the modulus is `2^64 - 2^32 + 1`, an allowance
/// has two halves of 31 bits, a nonce a lane of 40 bits and one of 23, and a user id
/// one bit for each level of the tree.
pub proof fn law_limits()
    ensures
        GOLDILOCKS_P == 0x1_0000_0000_0000_0000int - 0x1_0000_0000 + 1,
        ALLOWANCE_HALF_BITS == 31,
        PROVIDER_ALLOWANCE_BITS == 62,
        PROVIDER_ALLOWANCE_MAX + 1 == 0x8000_0000int * 0x8000_0000,
        GAME_LANE_BITS == 40,
        ACCOUNT_LANE_BITS == 23,
        ACCOUNT_LANE_UNIT == 0x100_0000_0000,
        GAME_LANE_MAX + 1 == 0x100_0000_0000,
        ACCOUNT_LANE_MAX + 1 == 0x80_0000,
        NONCE_LIMIT == 0x100_0000_0000int * 0x80_0000,
        TREE_DEPTH == 28,
        USER_ID_LIMIT == 0x1000_0000,
        MAX_CARDS == 30,
        ACTION_HIT == 1,
        ACTION_INSURANCE_DECLINE == 6,
{
}

/// Canonical elements are those below the modulus, and an unset hash is one without a
/// non-zero element.
pub proof fn law_canonical_and_zero(s: Seq<u64>)
    ensures
        field::canonical(s) <==> !exists|i: int| 0 <= i < s.len() && #[trigger] s[i] >= GOLDILOCKS_P,
        field::zeros(s) <==> !exists|i: int| 0 <= i < s.len() && #[trigger] s[i] != 0,
{
}

/// The limbs of a word are below `2^32` and make it up.
pub proof fn law_limbs_make_up_the_word(v: u64)
    ensures
        field::limb_lo(v) < 0x1_0000_0000,
        field::limb_hi(v) < 0x1_0000_0000,
        field::limb_hi(v) * 0x1_0000_0000 + field::limb_lo(v) == v,
{
}

/// A packed field holds a balance limb in its low 32 bits and an allowance half above
/// them: the low limb and the low half in the first, the high ones in the second.
pub proof fn law_packed_fields_hold_limbs_and_halves(balance: u64, allowance: u64)
    requires
        allowance <= PROVIDER_ALLOWANCE_MAX,
    ensures
        ({
            let packed = field::packed_fields(balance, allowance);
            &&& packed[0] % 0x1_0000_0000 + (packed[1] % 0x1_0000_0000) * 0x1_0000_0000 == balance
            &&& packed[0] / 0x1_0000_0000 < 0x8000_0000
            &&& packed[1] / 0x1_0000_0000 < 0x8000_0000
            &&& packed[0] / 0x1_0000_0000 + (packed[1] / 0x1_0000_0000) * 0x8000_0000 == allowance
        }),
{
    let a = (allowance % 0x8000_0000) as u64;
    let b = (allowance / 0x8000_0000) as u64;
    lemma_above((a * 0x1_0000_0000 + field::limb_lo(balance)) as u64, a, field::limb_lo(balance));
    lemma_above((b * 0x1_0000_0000 + field::limb_hi(balance)) as u64, b, field::limb_hi(balance));
}

/// A word made of a half above a limb divides back into them.
proof fn lemma_above(word: u64, half: u64, limb: u64)
    requires
        half < 0x8000_0000,
        limb < 0x1_0000_0000,
        word == half * 0x1_0000_0000 + limb,
    ensures
        word % 0x1_0000_0000 == limb,
        word / 0x1_0000_0000 == half,
{
}

/// Whatever accepts canonical elements and gives canonical digests is a sponge.
pub proof fn law_any_hash_is_a_sponge<H: Fn(&[u64]) -> [u64; 4]>(hash: &H)
    requires
        forall|x: &[u64]|
            (forall|i: int| 0 <= i < x@.len() ==> #[trigger] x@[i] < GOLDILOCKS_P)
                ==> #[trigger] call_requires(*hash, (x,)),
        forall|x: &[u64], d: [u64; 4], i: int|
            #![trigger call_ensures(*hash, (x,), d), d@[i]]
            call_ensures(*hash, (x,), d) && 0 <= i < 4 ==> d@[i] < GOLDILOCKS_P,
    ensures
        hash::is_sponge(hash),
{
}

/// Whatever returns the digests of `f` computes `f`.
pub proof fn law_any_function_is_computed<H: Fn(&[u64]) -> [u64; 4]>(hash: &H, f: hash::Sponge)
    requires
        forall|x: &[u64], d: [u64; 4]| #[trigger] call_ensures(*hash, (x,), d) ==> d == f(x@),
    ensures
        hash::computes(hash, f),
{
}

/// Rules that accept every argument are total.
pub proof fn law_any_rules_are_total<
    V: Fn(&GameParams) -> bool,
    P: Fn(&[u64; 4], u64, &GameParams) -> u64,
    U: Fn(u32, u32) -> Vec<u8>,
    D: Fn(&[u64; MAX_CARDS]) -> [u8; MAX_CARDS],
    R: Fn(&[u8; MAX_CARDS], &[u8], u64) -> BlackjackResult,
>(games: &GameCore<V, P, U, D, R>)
    requires
        forall|params: &GameParams|
            params is Dice || params is Plinko ==> #[trigger] call_requires(
                games.is_valid,
                (params,),
            ),
        forall|random: &[u64; 4], bet: u64, params: &GameParams|
            !(params is Dice || params is Plinko) || call_ensures(games.is_valid, (params,), true)
                ==> #[trigger] call_requires(games.payout, (random, bet, params)),
        forall|lo: u32, hi: u32| #[trigger] call_requires(games.unpack_actions, (lo, hi)),
        forall|swaps: &[u64; MAX_CARDS]|
            (forall|k: int| 0 <= k < 30 ==> #[trigger] swaps@[k] < 0x1_0000_0000)
                ==> #[trigger] call_requires(games.deal_shoe, (swaps,)),
        forall|drawn: &[u8; MAX_CARDS], actions: &[u8], base_bet: u64|
            (forall|i: int| 0 <= i < actions@.len() ==> 1 <= #[trigger] actions@[i] <= 6)
                ==> #[trigger] call_requires(games.replay_full, (drawn, actions, base_bet)),
    ensures
        games.is_total(),
{
}

/// Rules behave as the functions that they return the values of.
pub proof fn law_any_rules_behave<
    V: Fn(&GameParams) -> bool,
    P: Fn(&[u64; 4], u64, &GameParams) -> u64,
    U: Fn(u32, u32) -> Vec<u8>,
    D: Fn(&[u64; MAX_CARDS]) -> [u8; MAX_CARDS],
    R: Fn(&[u8; MAX_CARDS], &[u8], u64) -> BlackjackResult,
>(games: &GameCore<V, P, U, D, R>, g: GameModel)
    requires
        games.ids == g.ids,
        forall|params: &GameParams, valid: bool| #[trigger]
            call_ensures(games.is_valid, (params,), valid) ==> valid == (g.is_valid)(params@),
        forall|random: &[u64; 4], bet: u64, params: &GameParams, win: u64| #[trigger]
            call_ensures(games.payout, (random, bet, params), win) ==> win == (g.payout)(
                *random,
                bet,
                params@,
            ),
        forall|lo: u32, hi: u32, actions: Vec<u8>| #[trigger]
            call_ensures(games.unpack_actions, (lo, hi), actions) ==> actions@
                == (g.unpack_actions)(lo, hi),
        forall|swaps: &[u64; MAX_CARDS], drawn: [u8; MAX_CARDS]| #[trigger]
            call_ensures(games.deal_shoe, (swaps,), drawn) ==> drawn == (g.deal_shoe)(swaps@),
        forall|
            drawn: &[u8; MAX_CARDS],
            actions: &[u8],
            base_bet: u64,
            result: BlackjackResult,
        | #[trigger]
            call_ensures(games.replay_full, (drawn, actions, base_bet), result) ==> result
                == (g.replay_full)(*drawn, actions@, base_bet),
    ensures
        games.behaves(g),
{
}

/// The mathematical value of game parameters has each of their parts.
pub proof fn law_params_keep_their_parts(params: GameParams)
    ensures
        match params {
            GameParams::Crash { cashout_x100 } => params@ == (GameParamsView::Crash {
                cashout_x100,
            }),
            GameParams::Limbo { prediction_x100 } => params@ == (GameParamsView::Limbo {
                prediction_x100,
            }),
            GameParams::Dice { mode, bounds } => params@ == (GameParamsView::Dice { mode, bounds }),
            GameParams::Keno { risk, picks } => params@ == (GameParamsView::Keno {
                risk,
                picks: picks@,
            }),
            GameParams::Plinko { sector, rows, is_extreme } => params@ == (GameParamsView::Plinko {
                sector,
                rows,
                is_extreme,
            }),
            GameParams::Coinflip { prediction } => params@ == (GameParamsView::Coinflip {
                prediction,
            }),
        },
        games::is_checked(params@) <==> params is Dice || params is Plinko,
{
}

/// The checks of fairness ask for no more than a canonical witness.
pub proof fn law_canonical_witness_is_hashable(input: SlotInput, flags: TxFlags)
    requires
        validate::limbs_are_canonical(input),
        validate::amounts_are_canonical(input),
    ensures
        fairness::is_hashable(input, flags),
{
}

/// The balance leaf is the digest of eight elements: the two packed fields, the seed
/// hash, the two credit limbs and the nonce.
pub proof fn law_balance_leaf_layout(f: hash::Sponge, account: AccountState)
    ensures
        hash::balance_leaf_of(
            f,
            account.balance,
            account.seed_hash,
            account.credit,
            account.nonce,
            account.allowance,
        ) == f(
            seq![
                field::packed_fields(account.balance, account.allowance)[0],
                field::packed_fields(account.balance, account.allowance)[1],
                account.seed_hash[0],
                account.seed_hash[1],
                account.seed_hash[2],
                field::limb_lo(account.credit),
                field::limb_hi(account.credit),
                account.nonce,
            ],
        ),
{
    assert(hash::balance_preimage(
        account.balance,
        account.seed_hash,
        account.credit,
        account.nonce,
        account.allowance,
    ) =~= seq![
        field::packed_fields(account.balance, account.allowance)[0],
        field::packed_fields(account.balance, account.allowance)[1],
        account.seed_hash[0],
        account.seed_hash[1],
        account.seed_hash[2],
        field::limb_lo(account.credit),
        field::limb_hi(account.credit),
        account.nonce,
    ]);
}

/// The main leaf is the digest of eight elements: the balance hash, then the first two
/// of the key hash and the first two of the address hash.
pub proof fn law_main_leaf_layout(
    f: hash::Sponge,
    balance_hash: [u64; 4],
    pk_hash: [u64; 4],
    address_hash: [u64; 4],
)
    ensures
        hash::main_leaf_of(f, balance_hash, pk_hash, address_hash) == f(
            seq![
                balance_hash[0],
                balance_hash[1],
                balance_hash[2],
                balance_hash[3],
                pk_hash[0],
                pk_hash[1],
                address_hash[0],
                address_hash[1],
            ],
        ),
{
    assert(hash::main_preimage(balance_hash, pk_hash, address_hash) =~= seq![
        balance_hash[0],
        balance_hash[1],
        balance_hash[2],
        balance_hash[3],
        pk_hash[0],
        pk_hash[1],
        address_hash[0],
        address_hash[1],
    ]);
}

/// An inner node is the digest of its left child followed by its right child.
pub proof fn law_node_layout(f: hash::Sponge, left: [u64; 4], right: [u64; 4])
    ensures
        hash::node_of(f, left, right) == f(
            seq![
                left[0],
                left[1],
                left[2],
                left[3],
                right[0],
                right[1],
                right[2],
                right[3],
            ],
        ),
{
    assert(left@ + right@ =~= seq![
        left[0],
        left[1],
        left[2],
        left[3],
        right[0],
        right[1],
        right[2],
        right[3],
    ]);
}

/// The address hash is the digest of the twenty bytes, one element each.
pub proof fn law_address_layout(f: hash::Sponge, user_address: [u8; 20], s: Seq<u64>)
    requires
        s.len() == 20,
        forall|i: int| 0 <= i < 20 ==> #[trigger] s[i] == user_address@[i],
    ensures
        hash::address_hash_of(f, user_address) == f(s),
{
    assert(s =~= Seq::new(20, |i: int| user_address[i] as u64));
}

/// What the game layer hashes. The outcome seed of an in-house bet is the digest of
/// server seed and user seed, that of a crash the first four elements of the server
/// seed; the seed commitment is the first three elements of the server seed's digest;
/// the user seed binds game, bet, prediction hash and secret; the multiset commitment
/// holds outcome seed, bet, win, game and prediction hash.
pub proof fn law_game_layouts(f: hash::Sponge, input: SlotInput, random: [u64; 4])
    ensures
        ({
            let ss = input.server_seed;
            let us = input.user_seed;
            let ph = input.prediction_hash;
            let secret = input.user_secret_random;
            let id = input.game_id as u64;
            &&& hash::random_ihb_of(f, ss, us) == f(
                seq![
                    ss[0], ss[1], ss[2], ss[3], ss[4], ss[5], ss[6], ss[7],
                    us[0], us[1], us[2], us[3],
                ],
            )
            &&& hash::random_crash_of(ss)@ == seq![ss[0], ss[1], ss[2], ss[3]]
            &&& hash::seed_hash_of(f, ss)@ == f(
                seq![ss[0], ss[1], ss[2], ss[3], ss[4], ss[5], ss[6], ss[7]],
            )@.take(3)
            &&& hash::user_seed_of(f, id, input.amount, ph, secret) == f(
                seq![
                    id, input.amount, ph[0], ph[1], ph[2], ph[3],
                    secret[0], secret[1], secret[2], secret[3],
                ],
            )
            &&& hash::slot_h_of(f, random, input.amount, input.win_amount, id, ph) == f(
                seq![
                    random[0], random[1], random[2], random[3],
                    input.amount, input.win_amount, id, ph[0], ph[1], ph[2], ph[3],
                ],
            )
        }),
{
    let ss = input.server_seed;
    let us = input.user_seed;
    let ph = input.prediction_hash;
    let secret = input.user_secret_random;
    let id = input.game_id as u64;
    assert(ss@ + us@ =~= seq![
        ss[0], ss[1], ss[2], ss[3], ss[4], ss[5], ss[6], ss[7], us[0], us[1], us[2], us[3],
    ]);
    assert(hash::random_crash_of(ss)@ =~= seq![ss[0], ss[1], ss[2], ss[3]]);
    assert(ss@ =~= seq![ss[0], ss[1], ss[2], ss[3], ss[4], ss[5], ss[6], ss[7]]);
    assert(hash::seed_hash_of(f, ss)@ =~= f(ss@)@.take(3));
    assert(seq![id, input.amount] + ph@ + secret@ =~= seq![
        id, input.amount, ph[0], ph[1], ph[2], ph[3], secret[0], secret[1], secret[2], secret[3],
    ]);
    assert(random@ + seq![input.amount, input.win_amount, id] + ph@ =~= seq![
        random[0], random[1], random[2], random[3], input.amount, input.win_amount, id,
        ph[0], ph[1], ph[2], ph[3],
    ]);
}

/// The same layouts for words that come from no slot.
pub proof fn law_bet_layouts(
    f: hash::Sponge,
    id: u64,
    bet: u64,
    win: u64,
    random: [u64; 4],
    ph: [u64; 4],
    secret: [u64; 4],
)
    ensures
        hash::user_seed_of(f, id, bet, ph, secret) == f(
            seq![
                id, bet, ph[0], ph[1], ph[2], ph[3], secret[0], secret[1], secret[2], secret[3],
            ],
        ),
        hash::slot_h_of(f, random, bet, win, id, ph) == f(
            seq![
                random[0], random[1], random[2], random[3], bet, win, id,
                ph[0], ph[1], ph[2], ph[3],
            ],
        ),
{
    assert(seq![id, bet] + ph@ + secret@ =~= seq![
        id, bet, ph[0], ph[1], ph[2], ph[3], secret[0], secret[1], secret[2], secret[3],
    ]);
    assert(random@ + seq![bet, win, id] + ph@ =~= seq![
        random[0], random[1], random[2], random[3], bet, win, id, ph[0], ph[1], ph[2], ph[3],
    ]);
}

/// A prediction hash is the digest of game and three parameters. For keno it is the
/// digest of game, risk, number of picks and ten places, which hold the first ten
/// picks and zeros behind them.
pub proof fn law_prediction_layouts(
    f: hash::Sponge,
    game_id: u64,
    p0: u64,
    p1: u64,
    p2: u64,
    selected: Seq<u8>,
    s: Seq<u64>,
)
    requires
        s.len() == 13,
        s[0] == game_id && s[1] == p0 && s[2] == p1,
        forall|i: int|
            3 <= i < 13 ==> #[trigger] s[i] == if i - 3 < selected.len() {
                selected[i - 3] as u64
            } else {
                0
            },
    ensures
        hash::prediction_of(f, game_id, p0, p1, p2) == f(seq![game_id, p0, p1, p2]),
        hash::keno_prediction_of(f, game_id, p0, p1, selected) == f(s),
{
    assert(s =~= seq![game_id, p0, p1] + Seq::new(
        10,
        |i: int|
            if i < selected.len() {
                selected[i] as u64
            } else {
                0
            },
    ));
}

/// A path without siblings ends where it starts. Otherwise its first sibling stands
/// right of an even index and left of an odd one, and the rest of the path goes on from
/// their digest with half the index.
pub proof fn law_path_climbs_level_by_level(
    f: hash::Sponge,
    node: [u64; 4],
    siblings: Seq<[u64; 4]>,
    index: nat,
)
    ensures
        siblings.len() == 0 ==> merkle::root_above(f, node, siblings, index) == node,
        siblings.len() > 0 && index % 2 == 0 ==> merkle::root_above(f, node, siblings, index)
            == merkle::root_above(
            f,
            f(node@ + siblings[0]@),
            siblings.subrange(1, siblings.len() as int),
            index / 2,
        ),
        siblings.len() > 0 && index % 2 == 1 ==> merkle::root_above(f, node, siblings, index)
            == merkle::root_above(
            f,
            f(siblings[0]@ + node@),
            siblings.subrange(1, siblings.len() as int),
            index / 2,
        ),
{
    if siblings.len() > 0 {
        assert(siblings.drop_first() =~= siblings.subrange(1, siblings.len() as int));
    }
}

/// The root of a state is the path from its main leaf, over its balance leaf, along
/// the bits of the user id.
pub proof fn law_state_root_is_the_path(
    f: hash::Sponge,
    account: AccountState,
    siblings: [[u64; 4]; TREE_DEPTH],
    user_id: u32,
    input: SlotInput,
)
    ensures
        validate::state_root(f, account, siblings, user_id) == merkle::root_above(
            f,
            hash::main_leaf_of(
                f,
                hash::balance_leaf_of(
                    f,
                    account.balance,
                    account.seed_hash,
                    account.credit,
                    account.nonce,
                    account.allowance,
                ),
                account.pk_hash,
                account.address_hash,
            ),
            siblings@,
            user_id as nat,
        ),
        validate::old_root(f, input) == validate::state_root(
            f,
            input.old_state(),
            input.main_siblings,
            input.user_id,
        ),
{
}

/// The account before a slot and after it, field by field.
pub proof fn law_account_states(input: SlotInput, effects: SlotEffects)
    ensures
        input.old_state().balance == input.old_balance,
        input.old_state().seed_hash == input.old_seed_hash,
        input.old_state().credit == input.old_deposit_credit,
        input.old_state().nonce == input.old_nonce,
        input.old_state().allowance == input.old_provider_allowance,
        input.old_state().pk_hash == input.old_pk_hash,
        input.old_state().address_hash == input.old_address_hash,
        effects.new_state().balance == effects.new_balance,
        effects.new_state().seed_hash == effects.new_seed_hash,
        effects.new_state().credit == effects.new_credit,
        effects.new_state().nonce == effects.new_nonce,
        effects.new_state().allowance == effects.new_provider_allowance,
        effects.new_state().pk_hash == effects.new_pk_hash,
        effects.new_state().address_hash == effects.new_address_hash,
{
}

/// The shuffle of a shoe takes thirty words. Word `k` is the low half of the first
/// element of the digest over the mixed seed and `k`; the mixed seed is the digest of
/// server seed and user secret.
pub proof fn law_shuffle_layout(
    f: hash::Sponge,
    ss: [u64; 8],
    secret: [u64; 4],
    k: int,
)
    requires
        0 <= k < 30,
    ensures
        ({
            let mix = f(
                seq![
                    ss[0], ss[1], ss[2], ss[3], ss[4], ss[5], ss[6], ss[7],
                    secret[0], secret[1], secret[2], secret[3],
                ],
            );
            &&& blackjack::swaps_of(f, ss, secret).len() == 30
            &&& blackjack::swaps_of(f, ss, secret)[k] == f(
                seq![mix[0], mix[1], mix[2], mix[3], k as u64],
            )[0] % 0x1_0000_0000
        }),
{
    assert(ss@ + secret@ =~= seq![
        ss[0], ss[1], ss[2], ss[3], ss[4], ss[5], ss[6], ss[7],
        secret[0], secret[1], secret[2], secret[3],
    ]);
    let mix = f(ss@ + secret@);
    assert(mix@.push(k as u64) =~= seq![mix[0], mix[1], mix[2], mix[3], k as u64]);
}

} // verus!
