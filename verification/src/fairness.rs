//! Fairness and payout of the two game types.
//!
//! An in-house bet reveals the server seed that the account's seed hash commits
//! to, and carries a user seed that binds the user's secret to the parameters of
//! the bet. A crash settlement reveals the seed of the round, which is checked
//! against the house account's commitment where the caller supplies it. Both
//! have their prediction hash and their win recomputed from the raw game
//! parameters.
use crate::blackjack;
use crate::blackjack::{BlackjackResult, MAX_CARDS};
use crate::field;
use crate::field::{same_limbs, GOLDILOCKS_P};
use crate::flags::TxFlags;
use crate::games;
use crate::games::{low_byte, sort_picks, GameCore, GameIds, GameParams};
use crate::hash;
use crate::slot::{SlotInput, SlotRejection};
use vstd::prelude::*;

verus! {

/// What a game slot adds to the effects.
#[derive(Clone, Debug, PartialEq)]
pub struct FairnessEffects {
    pub random: [u64; 4],
    pub slot_h: [u64; 4],
    /// The next commitment after an in-house bet, the old one after a crash.
    pub new_seed_hash: [u64; 3],
}

/// The elements of the slot that the fairness layer hashes are canonical: both
/// amounts and the outcome seed of a crash; the server seed where it is checked
/// against a commitment; what the user seed of an in-house bet binds. An element
/// that was compared with a digest before it is hashed is not asked for.
pub open spec fn is_hashable(input: SlotInput, flags: TxFlags) -> bool {
    &&& input.amount < GOLDILOCKS_P
    &&& input.win_amount < GOLDILOCKS_P
    &&& field::canonical(input.server_seed@.take(4))
    &&& flags.is_in_house_bet || (flags.is_crash_settle && input.crash_seed_hash is Some)
        ==> field::canonical(input.server_seed@)
    &&& flags.is_in_house_bet ==> field::canonical(input.user_secret_random@) && field::canonical(
        input.prediction_hash@,
    )
}

/// Outcome seed of a game slot.
pub open spec fn random_of(f: hash::Sponge, input: SlotInput, flags: TxFlags) -> [u64; 4] {
    if flags.is_in_house_bet {
        hash::random_ihb_of(f, input.server_seed, input.user_seed)
    } else {
        hash::random_crash_of(input.server_seed)
    }
}

/// The prediction hash is the one of the raw game parameters. A number of picks
/// that is no field element has no prediction hash.
pub open spec fn predicts(f: hash::Sponge, ids: GameIds, input: SlotInput) -> bool {
    if input.game_id == ids.keno {
        let picks = games::in_order(input.keno_selected@);
        &&& picks.len() < GOLDILOCKS_P
        &&& input.prediction_hash == hash::keno_prediction_of(
            f,
            input.game_id as u64,
            input.game_mode as u64,
            picks.len() as u64,
            picks,
        )
    } else {
        input.prediction_hash == hash::prediction_of(
            f,
            input.game_id as u64,
            input.game_mode as u64,
            input.prediction_lo as u64,
            input.prediction_hi as u64,
        )
    }
}

/// The game parameters of a slot whose game is paid by its outcome seed. `None`
/// where the slot names no such game, or a coin side that does not exist.
pub open spec fn params_of(ids: GameIds, input: SlotInput) -> Option<games::GameParamsView> {
    if input.game_id == ids.crash {
        Some(games::GameParamsView::Crash { cashout_x100: input.prediction_lo })
    } else if input.game_id == ids.limbo {
        Some(games::GameParamsView::Limbo { prediction_x100: input.prediction_lo })
    } else if input.game_id == ids.dice {
        Some(
            games::GameParamsView::Dice {
                mode: games::low_byte_of(input.game_mode),
                bounds: [input.prediction_lo, input.prediction_hi],
            },
        )
    } else if input.game_id == ids.keno {
        Some(
            games::GameParamsView::Keno {
                risk: games::low_byte_of(input.game_mode),
                picks: games::in_order(input.keno_selected@),
            },
        )
    } else if input.game_id == ids.plinko {
        Some(
            games::GameParamsView::Plinko {
                sector: games::low_byte_of(input.game_mode),
                rows: input.prediction_lo,
                is_extreme: input.prediction_hi != 0,
            },
        )
    } else if input.game_id == ids.coinflip && games::low_byte_of(input.prediction_lo) <= 1 {
        Some(games::GameParamsView::Coinflip { prediction: games::low_byte_of(input.prediction_lo) })
    } else {
        None
    }
}

/// The slot plays blackjack: no other game claims its identifier.
pub open spec fn is_blackjack(ids: GameIds, game_id: u8) -> bool {
    &&& game_id == ids.blackjack
    &&& game_id != ids.crash
    &&& game_id != ids.limbo
    &&& game_id != ids.dice
    &&& game_id != ids.keno
    &&& game_id != ids.plinko
    &&& game_id != ids.coinflip
}

/// The win that the game rules give, or `None` where they give none. A blackjack
/// round has a win only if the slot's amount is the total that the round stakes.
pub open spec fn win_of(
    f: hash::Sponge,
    g: games::GameModel,
    input: SlotInput,
    random: [u64; 4],
) -> Option<u64> {
    if is_blackjack(g.ids, input.game_id) {
        match blackjack::round_of(
            f,
            g,
            input.server_seed,
            input.user_secret_random,
            input.prediction_lo,
            input.prediction_hi,
            input.base_bet,
        ) {
            Some(round) if round.total_bet == input.amount => Some(round.win_amount),
            _ => None,
        }
    } else {
        match params_of(g.ids, input) {
            Some(params) if !games::is_checked(params) || (g.is_valid)(params) => Some(
                (g.payout)(random, input.amount, params),
            ),
            _ => None,
        }
    }
}

/// The effects of a fair game slot, or the reason why it is not one. Blackjack is
/// an in-house bet: a crash settlement, whose user secret nothing binds, cannot
/// name it.
pub open spec fn fairness_of(
    f: hash::Sponge,
    g: games::GameModel,
    input: SlotInput,
    flags: TxFlags,
) -> Result<FairnessEffects, SlotRejection> {
    let random = random_of(f, input, flags);
    let revealed = hash::seed_hash_of(f, input.server_seed);
    if flags.is_in_house_bet && revealed != input.old_seed_hash {
        Err(SlotRejection::SeedChainBreak)
    } else if flags.is_crash_settle && input.crash_seed_hash is Some && input.crash_seed_hash
        != Some(revealed) {
        Err(SlotRejection::CrashSeedCommitMismatch)
    } else if flags.is_crash_settle && is_blackjack(g.ids, input.game_id) {
        Err(SlotRejection::PayoutMismatch)
    } else if flags.is_in_house_bet && input.user_seed != hash::user_seed_of(
        f,
        input.game_id as u64,
        input.amount,
        input.prediction_hash,
        input.user_secret_random,
    ) {
        Err(SlotRejection::UserSeedBindingMismatch)
    } else if !predicts(f, g.ids, input) || win_of(f, g, input, random) != Some(input.win_amount) {
        Err(SlotRejection::PayoutMismatch)
    } else {
        Ok(
            FairnessEffects {
                random,
                slot_h: hash::slot_h_of(
                    f,
                    random,
                    input.amount,
                    input.win_amount,
                    input.game_id as u64,
                    input.prediction_hash,
                ),
                new_seed_hash: if flags.is_in_house_bet {
                    input.next_server_seed_hash
                } else {
                    input.old_seed_hash
                },
            },
        )
    }
}

/// Check fairness and payout of a game slot and derive its outcome seed, its
/// multiset commitment and the account's next seed hash.
pub fn check_fairness<
    V: Fn(&GameParams) -> bool,
    P: Fn(&[u64; 4], u64, &GameParams) -> u64,
    U: Fn(u32, u32) -> Vec<u8>,
    D: Fn(&[u64; MAX_CARDS]) -> [u8; MAX_CARDS],
    R: Fn(&[u8; MAX_CARDS], &[u8], u64) -> BlackjackResult,
    H: Fn(&[u64]) -> [u64; 4],
>(input: &SlotInput, flags: &TxFlags, hash: &H, games: &GameCore<V, P, U, D, R>) -> (r: Result<
    FairnessEffects,
    SlotRejection,
>)
    requires
        hash::is_sponge(hash),
        games.is_total(),
        flags.plays(),
        is_hashable(*input, *flags),
    ensures
        forall|f: hash::Sponge, g: games::GameModel|
            #![trigger hash::computes(hash, f), games.behaves(g)]
            hash::computes(hash, f) && games.behaves(g) ==> r == fairness_of(f, g, *input, *flags),
        r matches Ok(e) ==> field::canonical(e.random@) && field::canonical(e.slot_h@),
        r matches Ok(e) ==> e.new_seed_hash == if flags.is_in_house_bet {
            input.next_server_seed_hash
        } else {
            input.old_seed_hash
        },
{
    if flags.is_in_house_bet {
        let computed = hash::seed_hash_truncated(input.server_seed, hash);
        if !same_limbs(&computed, &input.old_seed_hash) {
            return Err(SlotRejection::SeedChainBreak);
        }
    }
    if flags.is_crash_settle {
        if let Some(seed_hash) = input.crash_seed_hash {
            let computed = hash::seed_hash_truncated(input.server_seed, hash);
            if !same_limbs(&computed, &seed_hash) {
                return Err(SlotRejection::CrashSeedCommitMismatch);
            }
        }
    }
    if flags.is_crash_settle && names_blackjack(&games.ids, input.game_id) {
        return Err(SlotRejection::PayoutMismatch);
    }
    if flags.is_in_house_bet {
        let computed = hash::user_seed_binding(
            input.game_id as u64,
            input.amount,
            input.prediction_hash,
            input.user_secret_random,
            hash,
        );
        if !same_limbs(&computed, &input.user_seed) {
            return Err(SlotRejection::UserSeedBindingMismatch);
        }
    }
    let random = if flags.is_in_house_bet {
        hash::random_ihb(input.server_seed, input.user_seed, hash)
    } else {
        hash::random_crash(input.server_seed)
    };
    assert(field::canonical(random@)) by {
        if !flags.is_in_house_bet {
            assert(random@ =~= input.server_seed@.take(4));
        }
    }
    match verify_prediction_hash(input, &games.ids, hash) {
        Ok(()) => {},
        Err(e) => return Err(e),
    }
    match verify_payout(input, &random, hash, games) {
        Ok(()) => {},
        Err(e) => return Err(e),
    }
    let slot_h = hash::slot_h(
        random,
        input.amount,
        input.win_amount,
        input.game_id as u64,
        input.prediction_hash,
        hash,
    );
    let new_seed_hash = if flags.is_in_house_bet {
        input.next_server_seed_hash
    } else {
        input.old_seed_hash
    };
    Ok(FairnessEffects { random, slot_h, new_seed_hash })
}

/// True iff a slot with this game identifier plays blackjack.
fn names_blackjack(ids: &GameIds, game_id: u8) -> (r: bool)
    ensures
        r == is_blackjack(*ids, game_id),
{
    game_id == ids.blackjack && game_id != ids.crash && game_id != ids.limbo && game_id != ids.dice
        && game_id != ids.keno && game_id != ids.plinko && game_id != ids.coinflip
}

/// Check that the prediction hash is the one of the raw game parameters.
pub fn verify_prediction_hash<H: Fn(&[u64]) -> [u64; 4]>(
    input: &SlotInput,
    ids: &GameIds,
    hash: &H,
) -> (r: Result<(), SlotRejection>)
    requires
        hash::is_sponge(hash),
    ensures
        r is Ok || r == Err::<(), SlotRejection>(SlotRejection::PayoutMismatch),
        r is Ok ==> field::canonical(input.prediction_hash@),
        forall|f: hash::Sponge| #[trigger]
            hash::computes(hash, f) ==> (r is Ok <==> predicts(f, *ids, *input)),
{
    let game_id: u64 = input.game_id as u64;
    let expected = if input.game_id == ids.keno {
        let sorted = sort_picks(&input.keno_selected);
        let pick_count: u64 = sorted.len() as u64;
        if pick_count >= GOLDILOCKS_P {
            return Err(SlotRejection::PayoutMismatch);
        }
        hash::prediction_hash_keno(
            game_id,
            input.game_mode as u64,
            pick_count,
            sorted.as_slice(),
            hash,
        )
    } else {
        hash::prediction_hash_standard(
            game_id,
            input.game_mode as u64,
            input.prediction_lo as u64,
            input.prediction_hi as u64,
            hash,
        )
    };
    if same_limbs(&expected, &input.prediction_hash) {
        Ok(())
    } else {
        Err(SlotRejection::PayoutMismatch)
    }
}

/// Check that the slot's win is the one that the game rules give.
pub fn verify_payout<
    V: Fn(&GameParams) -> bool,
    P: Fn(&[u64; 4], u64, &GameParams) -> u64,
    U: Fn(u32, u32) -> Vec<u8>,
    D: Fn(&[u64; MAX_CARDS]) -> [u8; MAX_CARDS],
    R: Fn(&[u8; MAX_CARDS], &[u8], u64) -> BlackjackResult,
    H: Fn(&[u64]) -> [u64; 4],
>(input: &SlotInput, random: &[u64; 4], hash: &H, games: &GameCore<V, P, U, D, R>) -> (r: Result<
    (),
    SlotRejection,
>)
    requires
        hash::is_sponge(hash),
        games.is_total(),
        is_blackjack(games.ids, input.game_id) ==> field::canonical(input.server_seed@)
            && field::canonical(input.user_secret_random@),
    ensures
        r is Ok || r == Err::<(), SlotRejection>(SlotRejection::PayoutMismatch),
        forall|f: hash::Sponge, g: games::GameModel|
            #![trigger hash::computes(hash, f), games.behaves(g)]
            hash::computes(hash, f) && games.behaves(g) ==> (r is Ok <==> win_of(
                f,
                g,
                *input,
                *random,
            ) == Some(input.win_amount)),
{
    let expected_win: u64 = match dispatch_payout(input, random, hash, games) {
        Ok(win) => win,
        Err(e) => return Err(e),
    };
    if expected_win != input.win_amount {
        return Err(SlotRejection::PayoutMismatch);
    }
    Ok(())
}

/// The win that the rules of the slot's game give. An unknown game, parameters
/// that the game refuses and a blackjack stake that the round does not reproduce
/// are a `PayoutMismatch`.
pub fn dispatch_payout<
    V: Fn(&GameParams) -> bool,
    P: Fn(&[u64; 4], u64, &GameParams) -> u64,
    U: Fn(u32, u32) -> Vec<u8>,
    D: Fn(&[u64; MAX_CARDS]) -> [u8; MAX_CARDS],
    R: Fn(&[u8; MAX_CARDS], &[u8], u64) -> BlackjackResult,
    H: Fn(&[u64]) -> [u64; 4],
>(input: &SlotInput, random: &[u64; 4], hash: &H, games: &GameCore<V, P, U, D, R>) -> (r: Result<
    u64,
    SlotRejection,
>)
    requires
        hash::is_sponge(hash),
        games.is_total(),
        is_blackjack(games.ids, input.game_id) ==> field::canonical(input.server_seed@)
            && field::canonical(input.user_secret_random@),
    ensures
        r is Ok || r == Err::<u64, SlotRejection>(SlotRejection::PayoutMismatch),
        forall|f: hash::Sponge, g: games::GameModel|
            #![trigger hash::computes(hash, f), games.behaves(g)]
            hash::computes(hash, f) && games.behaves(g) ==> r == (match win_of(
                f,
                g,
                *input,
                *random,
            ) {
                Some(win) => Ok::<u64, SlotRejection>(win),
                None => Err(SlotRejection::PayoutMismatch),
            }),
{
    let ids = &games.ids;
    let params = if input.game_id == ids.crash {
        GameParams::Crash { cashout_x100: input.prediction_lo }
    } else if input.game_id == ids.limbo {
        GameParams::Limbo { prediction_x100: input.prediction_lo }
    } else if input.game_id == ids.dice {
        GameParams::Dice {
            mode: low_byte(input.game_mode),
            bounds: [input.prediction_lo, input.prediction_hi],
        }
    } else if input.game_id == ids.keno {
        GameParams::Keno {
            risk: low_byte(input.game_mode),
            picks: sort_picks(&input.keno_selected),
        }
    } else if input.game_id == ids.plinko {
        GameParams::Plinko {
            sector: low_byte(input.game_mode),
            rows: input.prediction_lo,
            is_extreme: input.prediction_hi != 0,
        }
    } else if input.game_id == ids.coinflip {
        let prediction: u8 = low_byte(input.prediction_lo);
        if prediction > 1 {
            return Err(SlotRejection::PayoutMismatch);
        }
        GameParams::Coinflip { prediction }
    } else if input.game_id == ids.blackjack {
        return match blackjack::compute_payout(
            &input.server_seed,
            &input.user_secret_random,
            input.prediction_lo,
            input.prediction_hi,
            input.base_bet,
            games,
            hash,
        ) {
            Some(round) => if round.total_bet == input.amount {
                Ok(round.win_amount)
            } else {
                Err(SlotRejection::PayoutMismatch)
            },
            None => Err(SlotRejection::PayoutMismatch),
        };
    } else {
        return Err(SlotRejection::PayoutMismatch);
    };
    assert(params_of(*ids, *input) == Some(params@));
    let is_refused = match &params {
        GameParams::Dice { .. } | GameParams::Plinko { .. } => !(games.is_valid)(&params),
        _ => false,
    };
    if is_refused {
        return Err(SlotRejection::PayoutMismatch);
    }
    Ok((games.payout)(random, input.amount, &params))
}

} // verus!
