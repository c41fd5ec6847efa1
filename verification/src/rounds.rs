//! How each game is predicted, played and paid.
//!
//! The laws name the raw parameters that each game reads from a slot. Where two games
//! were to share an identifier, the one that is named first here would be played.
use crate::blackjack;
use crate::fairness;
use crate::flags::TxFlags;
use crate::games;
use crate::games::{GameModel, GameParamsView};
use crate::hash;
use crate::slot::{SlotInput, SlotRejection, TX_CRASH_SETTLE, TX_IN_HOUSE_BET};
use vstd::prelude::*;

verus! {

/// The low byte of a word is its remainder below 256.
pub proof fn law_low_byte(v: u32)
    ensures
        games::low_byte_of(v) < 256,
        (v - games::low_byte_of(v)) % 256 == 0,
        v < 256 ==> games::low_byte_of(v) == v,
{
}

/// Picks are put in ascending order: every ascending sequence of the same picks is the
/// one.
pub proof fn law_picks_in_order(picks: Seq<u8>, sorted: Seq<u8>)
    requires
        sorted.to_multiset() == picks.to_multiset(),
        forall|i: int, j: int| 0 <= i <= j < sorted.len() ==> #[trigger] sorted[i] <= #[trigger] sorted[j],
    ensures
        games::in_order(picks) == sorted,
{
    let leq = |a: u8, b: u8| a <= b;
    picks.lemma_sort_by_ensures(leq);
    vstd::seq_lib::lemma_sorted_unique(sorted, games::in_order(picks), leq);
}

/// Crash is paid by the cashout target in `prediction_lo`.
pub proof fn law_crash_is_paid(f: hash::Sponge, g: GameModel, input: SlotInput, random: [u64; 4])
    requires
        input.game_id == g.ids.crash,
    ensures
        fairness::win_of(f, g, input, random) == Some(
            (g.payout)(
                random,
                input.amount,
                GameParamsView::Crash { cashout_x100: input.prediction_lo },
            ),
        ),
{
}

/// Limbo is paid by the whole target in `prediction_lo`.
pub proof fn law_limbo_is_paid(f: hash::Sponge, g: GameModel, input: SlotInput, random: [u64; 4])
    requires
        input.game_id == g.ids.limbo,
        input.game_id != g.ids.crash,
    ensures
        fairness::win_of(f, g, input, random) == Some(
            (g.payout)(
                random,
                input.amount,
                GameParamsView::Limbo { prediction_x100: input.prediction_lo },
            ),
        ),
{
}

/// Dice is paid by the mode in the low byte of `game_mode` and the two predictions as
/// bounds. Where the rules know no such round there is no win.
pub proof fn law_dice_is_paid(
    f: hash::Sponge,
    g: GameModel,
    input: SlotInput,
    random: [u64; 4],
    mode: u8,
    bounds: [u32; 2],
)
    requires
        input.game_id == g.ids.dice,
        input.game_id != g.ids.crash,
        input.game_id != g.ids.limbo,
        mode == input.game_mode % 256,
        bounds[0] == input.prediction_lo && bounds[1] == input.prediction_hi,
    ensures
        ({
            let params = GameParamsView::Dice { mode, bounds };
            &&& (g.is_valid)(params) ==> fairness::win_of(f, g, input, random) == Some(
                (g.payout)(random, input.amount, params),
            )
            &&& !(g.is_valid)(params) ==> fairness::win_of(f, g, input, random) is None
        }),
{
    assert(bounds =~= [input.prediction_lo, input.prediction_hi]);
}

/// Keno is paid by the risk in the low byte of `game_mode` and the picks in ascending
/// order.
pub proof fn law_keno_is_paid(
    f: hash::Sponge,
    g: GameModel,
    input: SlotInput,
    random: [u64; 4],
    risk: u8,
    picks: Seq<u8>,
)
    requires
        input.game_id == g.ids.keno,
        input.game_id != g.ids.crash,
        input.game_id != g.ids.limbo,
        input.game_id != g.ids.dice,
        risk == input.game_mode % 256,
        picks.to_multiset() == input.keno_selected@.to_multiset(),
        forall|i: int, j: int| 0 <= i <= j < picks.len() ==> #[trigger] picks[i] <= #[trigger] picks[j],
    ensures
        fairness::win_of(f, g, input, random) == Some(
            (g.payout)(random, input.amount, GameParamsView::Keno { risk, picks }),
        ),
{
    law_picks_in_order(input.keno_selected@, picks);
}

/// Plinko is paid by the sector in the low byte of `game_mode`, the rows in
/// `prediction_lo` and the extreme board where `prediction_hi` is not zero. Where the
/// rules know no such board there is no win.
pub proof fn law_plinko_is_paid(
    f: hash::Sponge,
    g: GameModel,
    input: SlotInput,
    random: [u64; 4],
    sector: u8,
)
    requires
        input.game_id == g.ids.plinko,
        input.game_id != g.ids.crash,
        input.game_id != g.ids.limbo,
        input.game_id != g.ids.dice,
        input.game_id != g.ids.keno,
        sector == input.game_mode % 256,
    ensures
        ({
            let params = GameParamsView::Plinko {
                sector,
                rows: input.prediction_lo,
                is_extreme: input.prediction_hi > 0,
            };
            &&& (g.is_valid)(params) ==> fairness::win_of(f, g, input, random) == Some(
                (g.payout)(random, input.amount, params),
            )
            &&& !(g.is_valid)(params) ==> fairness::win_of(f, g, input, random) is None
        }),
{
}

/// A coin flip is paid by the side in the low byte of `prediction_lo`, zero or one.
/// Another side has no win.
pub proof fn law_coinflip_is_paid(
    f: hash::Sponge,
    g: GameModel,
    input: SlotInput,
    random: [u64; 4],
    prediction: u8,
)
    requires
        input.game_id == g.ids.coinflip,
        input.game_id != g.ids.crash,
        input.game_id != g.ids.limbo,
        input.game_id != g.ids.dice,
        input.game_id != g.ids.keno,
        input.game_id != g.ids.plinko,
        prediction == input.prediction_lo % 256,
    ensures
        prediction <= 1 ==> fairness::win_of(f, g, input, random) == Some(
            (g.payout)(random, input.amount, GameParamsView::Coinflip { prediction }),
        ),
        prediction > 1 ==> fairness::win_of(f, g, input, random) is None,
{
}

/// A blackjack round whose unpacked actions are all codes from 1 to 6 is the replay of
/// that whole list, over the shoe that is dealt from the shuffle, from the base stake.
/// Any other code leaves no round.
pub proof fn law_blackjack_round_is_the_replay(
    f: hash::Sponge,
    g: GameModel,
    server_seed: [u64; 8],
    secret: [u64; 4],
    lo: u32,
    hi: u32,
    base_bet: u64,
)
    ensures
        blackjack::are_actions((g.unpack_actions)(lo, hi)) <==> forall|i: int|
            0 <= i < (g.unpack_actions)(lo, hi).len() ==> 1 <= #[trigger] (g.unpack_actions)(
                lo,
                hi,
            )[i] <= 6,
        blackjack::are_actions((g.unpack_actions)(lo, hi)) ==> blackjack::round_of(
            f,
            g,
            server_seed,
            secret,
            lo,
            hi,
            base_bet,
        ) == Some(
            (g.replay_full)(
                (g.deal_shoe)(blackjack::swaps_of(f, server_seed, secret)),
                (g.unpack_actions)(lo, hi),
                base_bet,
            ),
        ),
        !blackjack::are_actions((g.unpack_actions)(lo, hi)) ==> blackjack::round_of(
            f,
            g,
            server_seed,
            secret,
            lo,
            hi,
            base_bet,
        ) is None,
        blackjack::shoe_of(f, g.deal_shoe, server_seed, secret) == (g.deal_shoe)(
            blackjack::swaps_of(f, server_seed, secret),
        ),
{
}

/// Blackjack is paid by its replay from the base stake, whatever the outcome seed,
/// provided that the slot's amount is all that the round stakes and its actions are
/// valid. Otherwise there is no win.
pub proof fn law_blackjack_is_paid(
    f: hash::Sponge,
    g: GameModel,
    input: SlotInput,
    random: [u64; 4],
)
    requires
        input.game_id == g.ids.blackjack,
        input.game_id != g.ids.crash,
        input.game_id != g.ids.limbo,
        input.game_id != g.ids.dice,
        input.game_id != g.ids.keno,
        input.game_id != g.ids.plinko,
        input.game_id != g.ids.coinflip,
    ensures
        ({
            let actions = (g.unpack_actions)(input.prediction_lo, input.prediction_hi);
            let swaps = blackjack::swaps_of(f, input.server_seed, input.user_secret_random);
            let round = (g.replay_full)((g.deal_shoe)(swaps), actions, input.base_bet);
            let is_played = blackjack::are_actions(actions) && round.total_bet == input.amount;
            &&& is_played ==> fairness::win_of(f, g, input, random) == Some(round.win_amount)
            &&& !is_played ==> fairness::win_of(f, g, input, random) is None
            &&& fairness::is_blackjack(g.ids, input.game_id)
        }),
{
}

/// A slot that names none of the games has no win, and only one that names blackjack
/// and no other game plays it.
pub proof fn law_unknown_games_are_not_paid(
    f: hash::Sponge,
    g: GameModel,
    input: SlotInput,
    random: [u64; 4],
)
    ensures
        ({
            let id = input.game_id;
            let is_paid_by_seed = id == g.ids.crash || id == g.ids.limbo || id == g.ids.dice || id
                == g.ids.keno || id == g.ids.plinko || id == g.ids.coinflip;
            &&& fairness::is_blackjack(g.ids, id) <==> id == g.ids.blackjack && !is_paid_by_seed
            &&& !is_paid_by_seed && id != g.ids.blackjack ==> fairness::win_of(
                f,
                g,
                input,
                random,
            ) is None
        }),
{
}

/// A slot of any game but keno predicts the digest of its game, its mode and its two
/// predictions, all of them whole.
pub proof fn law_prediction_is_exact(f: hash::Sponge, g: GameModel, input: SlotInput)
    requires
        input.game_id != g.ids.keno,
    ensures
        fairness::predicts(f, g.ids, input) <==> input.prediction_hash == f(
            seq![
                input.game_id as u64,
                input.game_mode as u64,
                input.prediction_lo as u64,
                input.prediction_hi as u64,
            ],
        ),
{
}

/// A keno slot predicts the digest of its game, its mode, the number of its picks and
/// the picks in ascending order.
pub proof fn law_keno_prediction_is_exact(
    f: hash::Sponge,
    g: GameModel,
    input: SlotInput,
    picks: Seq<u8>,
)
    requires
        input.game_id == g.ids.keno,
        picks.to_multiset() == input.keno_selected@.to_multiset(),
        forall|i: int, j: int| 0 <= i <= j < picks.len() ==> #[trigger] picks[i] <= #[trigger] picks[j],
        picks.len() < 0xFFFF_FFFF_0000_0001,
    ensures
        fairness::predicts(f, g.ids, input) <==> input.prediction_hash == hash::keno_prediction_of(
            f,
            input.game_id as u64,
            input.game_mode as u64,
            picks.len() as u64,
            picks,
        ),
{
    law_picks_in_order(input.keno_selected@, picks);
}

/// An in-house bet is fair iff it reveals the committed seed, its user seed binds game,
/// bet, prediction hash and secret, it predicts its parameters and it carries the win of
/// its game under the digest of both seeds. Those are checked in this order.
pub proof fn law_in_house_fairness_is_exact(f: hash::Sponge, g: GameModel, input: SlotInput)
    ensures
        ({
            let fair = fairness::fairness_of(f, g, input, TxFlags::of(TX_IN_HOUSE_BET));
            let random = hash::random_ihb_of(f, input.server_seed, input.user_seed);
            if hash::seed_hash_of(f, input.server_seed) != input.old_seed_hash {
                fair matches Err(e) && e == SlotRejection::SeedChainBreak
            } else if input.user_seed != hash::user_seed_of(
                f,
                input.game_id as u64,
                input.amount,
                input.prediction_hash,
                input.user_secret_random,
            ) {
                fair matches Err(e) && e == SlotRejection::UserSeedBindingMismatch
            } else if !fairness::predicts(f, g.ids, input) || fairness::win_of(f, g, input, random)
                != Some(input.win_amount) {
                fair matches Err(e) && e == SlotRejection::PayoutMismatch
            } else {
                &&& fair matches Ok(game)
                &&& game.random == random
                &&& game.slot_h == hash::slot_h_of(
                    f,
                    random,
                    input.amount,
                    input.win_amount,
                    input.game_id as u64,
                    input.prediction_hash,
                )
                &&& game.new_seed_hash == input.next_server_seed_hash
            }
        }),
{
}

/// A crash settlement is fair iff its seed matches the house commitment where one is
/// supplied, it does not name blackjack, it predicts its parameters and it carries the
/// win of its game under the raw seed. Neither the account's seed nor a user seed is
/// looked at.
pub proof fn law_crash_fairness_is_exact(f: hash::Sponge, g: GameModel, input: SlotInput)
    ensures
        ({
            let fair = fairness::fairness_of(f, g, input, TxFlags::of(TX_CRASH_SETTLE));
            let random = hash::random_crash_of(input.server_seed);
            if (input.crash_seed_hash matches Some(commitment) && commitment != hash::seed_hash_of(
                f,
                input.server_seed,
            )) {
                fair matches Err(e) && e == SlotRejection::CrashSeedCommitMismatch
            } else if fairness::is_blackjack(g.ids, input.game_id) || !fairness::predicts(
                f,
                g.ids,
                input,
            ) || fairness::win_of(f, g, input, random) != Some(input.win_amount) {
                fair matches Err(e) && e == SlotRejection::PayoutMismatch
            } else {
                &&& fair matches Ok(game)
                &&& game.random == random
                &&& game.slot_h == hash::slot_h_of(
                    f,
                    random,
                    input.amount,
                    input.win_amount,
                    input.game_id as u64,
                    input.prediction_hash,
                )
                &&& game.new_seed_hash == input.old_seed_hash
            }
        }),
{
}

} // verus!
