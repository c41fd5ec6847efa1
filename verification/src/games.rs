//! The interface to the game rules.
//!
//! The rules of the games are parameters, like the sponge of [`crate::hash`].
//! A [`GameCore`] holds the identifiers of the games and the functions that pay
//! them out. [`GameCore::is_total`] says what is asked of those functions, and
//! `games.behaves(g)` that they compute what the mathematical [`GameModel`] `g`
//! gives.
use crate::blackjack;
use crate::blackjack::{BlackjackResult, MAX_CARDS};
use vstd::prelude::*;

verus! {

/// The identifiers of the games.
#[derive(Clone, Copy, Debug, PartialEq, Eq, Structural)]
pub struct GameIds {
    pub crash: u8,
    pub limbo: u8,
    pub dice: u8,
    pub keno: u8,
    pub plinko: u8,
    pub coinflip: u8,
    pub blackjack: u8,
}

impl GameIds {
    /// No two games share an identifier.
    pub open spec fn are_distinct(self) -> bool {
        seq![
            self.crash,
            self.limbo,
            self.dice,
            self.keno,
            self.plinko,
            self.coinflip,
            self.blackjack,
        ].no_duplicates()
    }
}

/// The parameters of one round of a game that is paid by its outcome seed.
#[derive(Clone, Debug)]
pub enum GameParams {
    Crash { cashout_x100: u32 },
    Limbo { prediction_x100: u32 },
    Dice { mode: u8, bounds: [u32; 2] },
    /// `picks` is in ascending order.
    Keno { risk: u8, picks: Vec<u8> },
    Plinko { sector: u8, rows: u32, is_extreme: bool },
    Coinflip { prediction: u8 },
}

/// The mathematical value of [`GameParams`].
pub enum GameParamsView {
    Crash { cashout_x100: u32 },
    Limbo { prediction_x100: u32 },
    Dice { mode: u8, bounds: [u32; 2] },
    Keno { risk: u8, picks: Seq<u8> },
    Plinko { sector: u8, rows: u32, is_extreme: bool },
    Coinflip { prediction: u8 },
}

impl View for GameParams {
    type V = GameParamsView;

    open spec fn view(&self) -> GameParamsView {
        match *self {
            GameParams::Crash { cashout_x100 } => GameParamsView::Crash { cashout_x100 },
            GameParams::Limbo { prediction_x100 } => GameParamsView::Limbo { prediction_x100 },
            GameParams::Dice { mode, bounds } => GameParamsView::Dice { mode, bounds },
            GameParams::Keno { risk, picks } => GameParamsView::Keno { risk, picks: picks@ },
            GameParams::Plinko { sector, rows, is_extreme } => GameParamsView::Plinko {
                sector,
                rows,
                is_extreme,
            },
            GameParams::Coinflip { prediction } => GameParamsView::Coinflip { prediction },
        }
    }
}

/// The games whose parameters are checked before a bet is paid. Every other game
/// pays on any parameters.
pub open spec fn is_checked(params: GameParamsView) -> bool {
    params is Dice || params is Plinko
}

/// The game rules a slot is checked against.
pub struct GameCore<V, P, U, D, R> {
    pub ids: GameIds,
    /// Whether a dice or plinko round with these parameters exists.
    pub is_valid: V,
    /// The win of a bet under an outcome seed.
    pub payout: P,
    /// The blackjack actions packed into two words.
    pub unpack_actions: U,
    /// The cards dealt under the swap randomness of a shuffle.
    pub deal_shoe: D,
    /// The outcome of a blackjack round: cards, actions and base stake.
    pub replay_full: R,
}

/// What the functions of a [`GameCore`] compute.
pub struct GameModel {
    pub ids: GameIds,
    pub is_valid: spec_fn(GameParamsView) -> bool,
    pub payout: spec_fn([u64; 4], u64, GameParamsView) -> u64,
    pub unpack_actions: spec_fn(u32, u32) -> Seq<u8>,
    pub deal_shoe: spec_fn(Seq<u64>) -> [u8; MAX_CARDS],
    pub replay_full: spec_fn([u8; MAX_CARDS], Seq<u8>, u64) -> BlackjackResult,
}

impl<
    V: Fn(&GameParams) -> bool,
    P: Fn(&[u64; 4], u64, &GameParams) -> u64,
    U: Fn(u32, u32) -> Vec<u8>,
    D: Fn(&[u64; MAX_CARDS]) -> [u8; MAX_CARDS],
    R: Fn(&[u8; MAX_CARDS], &[u8], u64) -> BlackjackResult,
> GameCore<V, P, U, D, R> {
    /// The functions accept whatever the validator hands them: any dice or plinko
    /// parameters to check, any outcome seed and bet on parameters that need no
    /// check or were found valid, any packed actions, any 32-bit swap randomness
    /// and any list of valid actions.
    pub open spec fn is_total(&self) -> bool {
        &&& forall|params: &GameParams|
            is_checked(params@) ==> #[trigger] call_requires(self.is_valid, (params,))
        &&& forall|random: &[u64; 4], bet: u64, params: &GameParams|
            !is_checked(params@) || call_ensures(self.is_valid, (params,), true)
                ==> #[trigger] call_requires(self.payout, (random, bet, params))
        &&& forall|lo: u32, hi: u32| #[trigger] call_requires(self.unpack_actions, (lo, hi))
        &&& blackjack::is_dealer(&self.deal_shoe)
        &&& forall|drawn: &[u8; MAX_CARDS], actions: &[u8], base_bet: u64|
            blackjack::are_actions(actions@) ==> #[trigger] call_requires(
                self.replay_full,
                (drawn, actions, base_bet),
            )
    }

    /// Whatever the functions return is what `g` gives.
    pub open spec fn behaves(&self, g: GameModel) -> bool {
        &&& self.ids == g.ids
        &&& forall|params: &GameParams, valid: bool| #[trigger]
            call_ensures(self.is_valid, (params,), valid) ==> valid == (g.is_valid)(params@)
        &&& forall|random: &[u64; 4], bet: u64, params: &GameParams, win: u64| #[trigger]
            call_ensures(self.payout, (random, bet, params), win) ==> win == (g.payout)(
                *random,
                bet,
                params@,
            )
        &&& forall|lo: u32, hi: u32, actions: Vec<u8>| #[trigger]
            call_ensures(self.unpack_actions, (lo, hi), actions) ==> actions@ == (g.unpack_actions)(
                lo,
                hi,
            )
        &&& blackjack::deals(&self.deal_shoe, g.deal_shoe)
        &&& forall|
            drawn: &[u8; MAX_CARDS],
            actions: &[u8],
            base_bet: u64,
            result: BlackjackResult,
        | #[trigger]
            call_ensures(self.replay_full, (drawn, actions, base_bet), result) ==> result == (
            g.replay_full)(*drawn, actions@, base_bet)
    }
}

/// Picks in ascending order.
pub open spec fn in_order(picks: Seq<u8>) -> Seq<u8> {
    picks.sort_by(|a: u8, b: u8| a <= b)
}

/// The low byte of a word.
pub open spec fn low_byte_of(v: u32) -> u8 {
    (v % 256) as u8
}

/// Sort the picked numbers.
pub fn sort_picks(picks: &Vec<u8>) -> (r: Vec<u8>)
    ensures
        r@ == in_order(picks@),
        r@.len() == picks@.len(),
        r@.to_multiset() == picks@.to_multiset(),
        forall|i: int, j: int| 0 <= i <= j < r@.len() ==> #[trigger] r@[i] <= #[trigger] r@[j],
{
    let mut sorted: Vec<u8> = Vec::new();
    let mut i: usize = 0;
    assert(picks@.take(0) =~= sorted@);
    while i < picks.len()
        invariant
            i <= picks@.len(),
            sorted@.len() == i,
            sorted@.to_multiset() == picks@.take(i as int).to_multiset(),
            forall|a: int, b: int|
                0 <= a <= b < sorted@.len() ==> #[trigger] sorted@[a] <= #[trigger] sorted@[b],
        decreases picks@.len() - i,
    {
        let pick: u8 = picks[i];
        let mut at: usize = 0;
        while at < sorted.len() && sorted[at] <= pick
            invariant
                at <= sorted@.len(),
                forall|a: int| 0 <= a < at ==> #[trigger] sorted@[a] <= pick,
            decreases sorted@.len() - at,
        {
            at += 1;
        }
        let ghost before = sorted@;
        sorted.insert(at, pick);
        proof {
            vstd::seq_lib::to_multiset_insert(before, at as int, pick);
            assert(picks@.take(i as int + 1) =~= picks@.take(i as int).push(pick));
            vstd::seq_lib::to_multiset_build(picks@.take(i as int), pick);
        }
        i += 1;
    }
    proof {
        let leq = |a: u8, b: u8| a <= b;
        assert(picks@.take(picks@.len() as int) =~= picks@);
        picks@.lemma_sort_by_ensures(leq);
        vstd::seq_lib::lemma_sorted_unique(sorted@, in_order(picks@), leq);
    }
    sorted
}

/// The low byte of a word.
pub fn low_byte(v: u32) -> (r: u8)
    ensures
        r == low_byte_of(v),
{
    (v % 256) as u8
}

} // verus!
