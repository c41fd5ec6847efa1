//! The blackjack round of an in-house bet.
//!
//! Unlike every other game, blackjack does not pay by the outcome seed: its win
//! follows from thirty cards dealt out of a fair shoe, the packed actions and the
//! base stake. The shoe is shuffled by a digest over the server seed and the
//! player's secret, so neither side can grind it.
use crate::field;
use crate::field::split_u64;
use crate::games;
use crate::games::{GameCore, GameParams};
use crate::hash;
use crate::hash::poseidon2;
use vstd::prelude::*;

verus! {

/// Cards dealt from the shoe.
pub const MAX_CARDS: usize = 30;

/// Lowest action code.
pub const ACTION_HIT: u8 = 1;

/// Highest action code.
pub const ACTION_INSURANCE_DECLINE: u8 = 6;

/// Outcome of a round.
#[derive(Clone, Copy, Debug, PartialEq, Eq, Structural)]
pub struct BlackjackResult {
    /// Everything staked: the base stake, doubles, splits and insurance.
    pub total_bet: u64,
    pub win_amount: u64,
}

/// Every code in the list is an action.
pub open spec fn are_actions(actions: Seq<u8>) -> bool {
    forall|i: int|
        0 <= i < actions.len() ==> ACTION_HIT <= #[trigger] actions[i] <= ACTION_INSURANCE_DECLINE
}

/// The swap randomness of the shuffle: step `k` takes the low limb of the digest
/// over the mixed seed and `k`.
pub open spec fn swaps_of(
    f: hash::Sponge,
    server_seed: [u64; 8],
    user_secret_random: [u64; 4],
) -> Seq<u64> {
    let mix = f(server_seed@ + user_secret_random@);
    Seq::new(MAX_CARDS as nat, |k: int| field::limb_lo(f(mix@.push(k as u64))[0]))
}

/// The dealt cards.
pub open spec fn shoe_of(
    f: hash::Sponge,
    deal: spec_fn(Seq<u64>) -> [u8; MAX_CARDS],
    server_seed: [u64; 8],
    user_secret_random: [u64; 4],
) -> [u8; MAX_CARDS] {
    deal(swaps_of(f, server_seed, user_secret_random))
}

/// `deal_shoe` accepts any 32-bit swap randomness.
pub open spec fn is_dealer<D: Fn(&[u64; MAX_CARDS]) -> [u8; MAX_CARDS]>(deal_shoe: &D) -> bool {
    forall|swaps: &[u64; MAX_CARDS]|
        (forall|k: int| 0 <= k < MAX_CARDS ==> #[trigger] swaps@[k] < 0x1_0000_0000) ==> #[trigger]
        call_requires(*deal_shoe, (swaps,))
}

/// Whatever `deal_shoe` deals is what `deal` gives.
pub open spec fn deals<D: Fn(&[u64; MAX_CARDS]) -> [u8; MAX_CARDS]>(
    deal_shoe: &D,
    deal: spec_fn(Seq<u64>) -> [u8; MAX_CARDS],
) -> bool {
    forall|swaps: &[u64; MAX_CARDS], drawn: [u8; MAX_CARDS]| #[trigger]
        call_ensures(*deal_shoe, (swaps,), drawn) ==> drawn == deal(swaps@)
}

/// The outcome of the round, or `None` where the action list holds a code that
/// is no action.
pub open spec fn round_of(
    f: hash::Sponge,
    g: games::GameModel,
    server_seed: [u64; 8],
    user_secret_random: [u64; 4],
    prediction_lo: u32,
    prediction_hi: u32,
    base_bet: u64,
) -> Option<BlackjackResult> {
    let actions = (g.unpack_actions)(prediction_lo, prediction_hi);
    if are_actions(actions) {
        Some(
            (g.replay_full)(
                shoe_of(f, g.deal_shoe, server_seed, user_secret_random),
                actions,
                base_bet,
            ),
        )
    } else {
        None
    }
}

/// Deal the thirty cards of a round.
pub fn unfold_shoe<
    D: Fn(&[u64; MAX_CARDS]) -> [u8; MAX_CARDS],
    H: Fn(&[u64]) -> [u64; 4],
>(server_seed: &[u64; 8], user_secret_random: &[u64; 4], deal_shoe: &D, hash: &H) -> (r: [u8;
    MAX_CARDS])
    requires
        hash::is_sponge(hash),
        is_dealer(deal_shoe),
        field::canonical(server_seed@),
        field::canonical(user_secret_random@),
    ensures
        forall|f: hash::Sponge, deal: spec_fn(Seq<u64>) -> [u8; MAX_CARDS]|
            #![trigger hash::computes(hash, f), deals(deal_shoe, deal)]
            hash::computes(hash, f) && deals(deal_shoe, deal) ==> r == shoe_of(
                f,
                deal,
                *server_seed,
                *user_secret_random,
            ),
{
    let mix_input = [
        server_seed[0],
        server_seed[1],
        server_seed[2],
        server_seed[3],
        server_seed[4],
        server_seed[5],
        server_seed[6],
        server_seed[7],
        user_secret_random[0],
        user_secret_random[1],
        user_secret_random[2],
        user_secret_random[3],
    ];
    assert(mix_input@ =~= server_seed@ + user_secret_random@);
    let mix = poseidon2(&mix_input, hash);

    let mut swap_random = [0u64; MAX_CARDS];
    let mut k: usize = 0;
    while k < MAX_CARDS
        invariant
            k <= MAX_CARDS,
            hash::is_sponge(hash),
            field::canonical(mix@),
            forall|f: hash::Sponge| #[trigger]
                hash::computes(hash, f) ==> mix == f(server_seed@ + user_secret_random@),
            forall|j: int| 0 <= j < k ==> #[trigger] swap_random@[j] < 0x1_0000_0000,
            forall|f: hash::Sponge, j: int|
                #![trigger hash::computes(hash, f), swap_random@[j]]
                hash::computes(hash, f) && 0 <= j < k ==> swap_random@[j] == swaps_of(
                    f,
                    *server_seed,
                    *user_secret_random,
                )[j],
        decreases MAX_CARDS - k,
    {
        let step_input = [mix[0], mix[1], mix[2], mix[3], k as u64];
        assert(step_input@ =~= mix@.push(k as u64));
        let step = poseidon2(&step_input, hash);
        let (low, _high) = split_u64(step[0]);
        swap_random[k] = low;
        k += 1;
    }
    let drawn = deal_shoe(&swap_random);
    assert forall|f: hash::Sponge| #[trigger] hash::computes(hash, f) implies swap_random@
        == swaps_of(f, *server_seed, *user_secret_random) by {
        assert(swap_random@ =~= swaps_of(f, *server_seed, *user_secret_random));
    }
    drawn
}

/// Replay a blackjack round from the slot's seeds, packed actions and base
/// stake. An action code outside `1..=6` gives `None`.
pub fn compute_payout<
    V: Fn(&GameParams) -> bool,
    P: Fn(&[u64; 4], u64, &GameParams) -> u64,
    U: Fn(u32, u32) -> Vec<u8>,
    D: Fn(&[u64; MAX_CARDS]) -> [u8; MAX_CARDS],
    R: Fn(&[u8; MAX_CARDS], &[u8], u64) -> BlackjackResult,
    H: Fn(&[u64]) -> [u64; 4],
>(
    server_seed: &[u64; 8],
    user_secret_random: &[u64; 4],
    prediction_lo: u32,
    prediction_hi: u32,
    base_bet: u64,
    games: &GameCore<V, P, U, D, R>,
    hash: &H,
) -> (r: Option<BlackjackResult>)
    requires
        hash::is_sponge(hash),
        games.is_total(),
        field::canonical(server_seed@),
        field::canonical(user_secret_random@),
    ensures
        forall|f: hash::Sponge, g: games::GameModel|
            #![trigger hash::computes(hash, f), games.behaves(g)]
            hash::computes(hash, f) && games.behaves(g) ==> r == round_of(
                f,
                g,
                *server_seed,
                *user_secret_random,
                prediction_lo,
                prediction_hi,
                base_bet,
            ),
{
    let actions = (games.unpack_actions)(prediction_lo, prediction_hi);
    let mut i: usize = 0;
    while i < actions.len()
        invariant
            i <= actions@.len(),
            call_ensures(games.unpack_actions, (prediction_lo, prediction_hi), actions),
            forall|j: int|
                0 <= j < i ==> ACTION_HIT <= #[trigger] actions@[j] <= ACTION_INSURANCE_DECLINE,
        decreases actions@.len() - i,
    {
        if actions[i] < ACTION_HIT || actions[i] > ACTION_INSURANCE_DECLINE {
            assert(!are_actions(actions@));
            return None;
        }
        i += 1;
    }
    let drawn = unfold_shoe(server_seed, user_secret_random, &games.deal_shoe, hash);
    Some((games.replay_full)(&drawn, actions.as_slice(), base_bet))
}

} // verus!
