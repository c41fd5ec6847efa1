//! Whole slots.
use slot_validator::{hash, merkle};
use slot_validator::balance::compute_new_tl;
use slot_validator::blackjack::{BlackjackResult, MAX_CARDS};
use slot_validator::field::{GOLDILOCKS_P, PROVIDER_ALLOWANCE_MAX, is_canonical};
use slot_validator::games::{GameCore, GameIds, GameParams};
use slot_validator::hash::random_crash;
use slot_validator::nonce::compute_new_nonce;
use slot_validator::{
    ACCOUNT_LANE_BITS, ACCOUNT_LANE_MAX, ACCOUNT_LANE_UNIT, GAME_LANE_BITS, GAME_LANE_MAX,
    MAX_TX_TYPE, SlotEffects, SlotInput, SlotRejection, TREE_DEPTH, TX_BET, TX_BONUS,
    TX_CRASH_SETTLE, TX_DEPOSIT, TX_IN_HOUSE_BET, TX_KEY_REGISTER_ONLY, TX_NOOP, TX_REFERRAL,
    TX_RISK_REJECT, TX_SET_INIT_SEED_HASH, TX_SET_PROVIDER_ALLOWANCE, TX_TRANSFER, TX_WIN,
    TX_WITHDRAWAL, advance_nonce, join_nonce, split_nonce,
};

const P: u128 = GOLDILOCKS_P as u128;

fn permute(state: &mut [u64; 12]) {
    for round in 0..8u128 {
        for (i, x) in state.iter_mut().enumerate() {
            let y = (*x as u128 + 0x9E37_79B9_7F4A_7C15 + (12 * round + i as u128) * 0x100_0001) % P;
            let y2 = y * y % P;
            let y4 = y2 * y2 % P;
            *x = (y4 * y2 % P * y % P) as u64;
        }
        let sum = state.iter().map(|&x| x as u128).sum::<u128>() % P;
        for (i, x) in state.iter_mut().enumerate() {
            *x = ((*x as u128 * (i as u128 + 2) + sum) % P) as u64;
        }
    }
}

/// A small overwrite-mode sponge of rate 8 over the field.
fn sponge(input: &[u64]) -> [u64; 4] {
    let mut state = [0u64; 12];
    for chunk in input.chunks(8) {
        state[..chunk.len()].copy_from_slice(chunk);
        permute(&mut state);
    }
    [state[0], state[1], state[2], state[3]]
}

const LIMBO_GAME_ID: u8 = 1;
const DICE_GAME_ID: u8 = 2;
const CRASH_GAME_ID: u8 = 3;
const KENO_GAME_ID: u8 = 4;
const COINFLIP_GAME_ID: u8 = 5;
const PLINKO_GAME_ID: u8 = 6;
const BLACKJACK_GAME_ID: u8 = 7;

fn percent(bet: u64, x100: u64) -> u64 {
    (bet as u128 * x100 as u128 / 100) as u64
}

fn crash_win(random: &[u64; 4], bet: u64, cashout_x100: u32) -> u64 {
    if cashout_x100 as u64 <= 100 + random[0] % 900 { percent(bet, cashout_x100 as u64) } else { 0 }
}

fn limbo_win(random: &[u64; 4], bet: u64, prediction_x100: u32) -> u64 {
    if prediction_x100 as u64 <= 100 + random[0] % 900 { percent(bet, prediction_x100 as u64) } else { 0 }
}

fn dice_win(random: &[u64; 4], bet: u64, mode: u8, bounds: [u32; 2]) -> u64 {
    let roll = (random[1] % 1000) as u32;
    let hit = if mode == 0 { roll < bounds[0] } else { roll > bounds[0] };
    if hit { percent(bet, 196) } else { 0 }
}

fn keno_win(random: &[u64; 4], bet: u64, risk: u8, picks: &[u8]) -> u64 {
    let hits = picks.iter().filter(|&&pick| (random[0] >> (pick % 40)) % 2 == 1).count() as u64;
    percent(bet, hits * (30 + risk as u64))
}

fn plinko_win(random: &[u64; 4], bet: u64, sector: u8, rows: u32, is_extreme: bool) -> u64 {
    percent(bet, (random[0] % 3) * (rows as u64 + sector as u64 + is_extreme as u64))
}

fn coinflip_win(random: &[u64; 4], bet: u64, prediction: u8) -> u64 {
    if random[2] % 2 == prediction as u64 { percent(bet, 196) } else { 0 }
}

fn is_valid(params: &GameParams) -> bool {
    match params {
        GameParams::Dice { mode, .. } => *mode <= 1,
        GameParams::Plinko { sector, rows, .. } => *sector < 3 && (8..=16).contains(rows),
        _ => true,
    }
}

fn payout(random: &[u64; 4], bet: u64, params: &GameParams) -> u64 {
    assert!(is_valid(params));
    match params {
        GameParams::Crash { cashout_x100 } => crash_win(random, bet, *cashout_x100),
        GameParams::Limbo { prediction_x100 } => limbo_win(random, bet, *prediction_x100),
        GameParams::Dice { mode, bounds } => dice_win(random, bet, *mode, *bounds),
        GameParams::Keno { risk, picks } => keno_win(random, bet, *risk, picks),
        GameParams::Plinko { sector, rows, is_extreme } => {
            plinko_win(random, bet, *sector, *rows, *is_extreme)
        }
        GameParams::Coinflip { prediction } => coinflip_win(random, bet, *prediction),
    }
}

fn unpack_actions(lo: u32, hi: u32) -> Vec<u8> {
    let mut packed = lo as u64 | ((hi as u64) << 30);
    let mut actions = Vec::new();
    while packed > 0 {
        actions.push((packed % 8) as u8);
        packed /= 8;
    }
    actions
}

fn deal_shoe(swaps: &[u64; MAX_CARDS]) -> [u8; MAX_CARDS] {
    let mut deck: [u8; 52] = core::array::from_fn(|i| (i % 13) as u8);
    for (k, swap) in swaps.iter().enumerate() {
        deck.swap(k, k + (*swap as usize) % (52 - k));
    }
    core::array::from_fn(|k| deck[k])
}

const ACTION_DOUBLE: u8 = 3;

fn replay_full(drawn: &[u8; MAX_CARDS], actions: &[u8], base_bet: u64) -> BlackjackResult {
    let doubled = actions.iter().any(|&a| a == ACTION_DOUBLE);
    let total_bet = if doubled { base_bet.saturating_mul(2) } else { base_bet };
    let player = drawn[0] + drawn[2];
    let dealer = drawn[1] + drawn[3];
    let win_amount = if player > dealer {
        total_bet.saturating_mul(2)
    } else if player == dealer {
        total_bet
    } else {
        0
    };
    BlackjackResult { total_bet, win_amount }
}

fn games() -> GameCore<
    impl Fn(&GameParams) -> bool,
    impl Fn(&[u64; 4], u64, &GameParams) -> u64,
    impl Fn(u32, u32) -> Vec<u8>,
    impl Fn(&[u64; MAX_CARDS]) -> [u8; MAX_CARDS],
    impl Fn(&[u8; MAX_CARDS], &[u8], u64) -> BlackjackResult,
> {
    GameCore {
        ids: GameIds {
            crash: CRASH_GAME_ID,
            limbo: LIMBO_GAME_ID,
            dice: DICE_GAME_ID,
            keno: KENO_GAME_ID,
            plinko: PLINKO_GAME_ID,
            coinflip: COINFLIP_GAME_ID,
            blackjack: BLACKJACK_GAME_ID,
        },
        is_valid,
        payout,
        unpack_actions,
        deal_shoe,
        replay_full,
    }
}

fn balance_leaf(balance: u64, seed_hash: [u64; 3], credit: u64, nonce: u64, allowance: u64) -> [u64; 4] {
    hash::balance_leaf(balance, seed_hash, credit, nonce, allowance, &sponge)
}

fn compute_root(
    balance_hash: [u64; 4],
    pk_hash: [u64; 4],
    address_hash: [u64; 4],
    siblings: &[[u64; 4]; TREE_DEPTH],
    user_id: u32,
) -> [u64; 4] {
    merkle::compute_root(balance_hash, pk_hash, address_hash, siblings, user_id, &sponge)
}

fn schnorr_pk_hash(key: [u64; 5]) -> [u64; 4] {
    hash::schnorr_pk_hash(key, &sponge)
}

fn address_hash(address: [u8; 20]) -> [u64; 4] {
    hash::address_hash(address, &sponge)
}

fn random_ihb(server_seed: [u64; 8], user_seed: [u64; 4]) -> [u64; 4] {
    hash::random_ihb(server_seed, user_seed, &sponge)
}

fn seed_hash_truncated(server_seed: [u64; 8]) -> [u64; 3] {
    hash::seed_hash_truncated(server_seed, &sponge)
}

fn user_seed_binding(game_id: u64, bet: u64, prediction_hash: [u64; 4], secret: [u64; 4]) -> [u64; 4] {
    hash::user_seed_binding(game_id, bet, prediction_hash, secret, &sponge)
}

fn prediction_hash_standard(game_id: u64, p0: u64, p1: u64, p2: u64) -> [u64; 4] {
    hash::prediction_hash_standard(game_id, p0, p1, p2, &sponge)
}

fn recipient_addr_hash_for(tx_type: u8, address: [u8; 20]) -> [u64; 2] {
    slot_validator::recipient_addr_hash_for(tx_type, address, &sponge)
}

fn validate_slot(input: &SlotInput) -> Result<SlotEffects, SlotRejection> {
    slot_validator::validate_slot(input, &sponge, &games())
}

fn consistent_noop() -> SlotInput {
    let user_id = 0b1011u32;
    let old_balance = 1_500_000u64;
    let old_credit = 1_000_000u64;
    let old_nonce = 17u64;
    let old_seed_hash = [11u64, 22, 33];
    let old_pk_hash = [101u64, 102, 103, 104];
    let old_address_hash = [201u64, 202, 203, 204];
    let main_siblings: [[u64; 4]; TREE_DEPTH] =
        core::array::from_fn(|l| core::array::from_fn(|j| (l as u64) * 7 + j as u64 + 1));

    let old_balance_hash =
        balance_leaf(old_balance, old_seed_hash, old_credit, old_nonce, 0);
    let current_root = compute_root(
        old_balance_hash,
        old_pk_hash,
        old_address_hash,
        &main_siblings,
        user_id,
    );

    SlotInput {
        tx_type: TX_NOOP,
        user_id,
        amount: 0,
        win_amount: 0,
        old_balance,
        old_deposit_credit: old_credit,
        old_nonce,
        old_provider_allowance: 0,
        main_siblings,
        server_seed: [0; 8],
        user_seed: [0; 4],
        old_seed_hash,
        next_server_seed_hash: [0; 3],
        old_pk_hash,
        new_pk_hash: [0; 4],
        user_address: [0; 20],
        old_address_hash,
        recipient_addr_hash: [0; 2],
        old_total_liability: 4_000_000,
        game_id: 0,
        prediction_hash: [0; 4],
        user_secret_random: [0; 4],
        current_root,
        current_tl: 4_000_000,
        game_mode: 0,
        prediction_lo: 0,
        prediction_hi: 0,
        base_bet: 0,
        keno_selected: Vec::new(),
        crash_seed_hash: None,
    }
}

#[test]
fn noop_passes_and_preserves_state() {
    let inp = consistent_noop();
    let eff = validate_slot(&inp).expect("consistent noop must validate");
    assert_eq!(eff.new_balance, inp.old_balance);
    assert_eq!(eff.new_credit, inp.old_deposit_credit);
    assert_eq!(eff.new_seed_hash, inp.old_seed_hash);
    assert_eq!(eff.new_nonce, inp.old_nonce);
    assert_eq!((eff.new_account_nonce, eff.new_game_nonce), (0, inp.old_nonce));
    assert_eq!(eff.new_provider_allowance, 0);
    assert_eq!(eff.new_pk_hash, inp.old_pk_hash);
    assert_eq!(eff.new_address_hash, inp.old_address_hash);
    assert_eq!(eff.new_root, inp.current_root);
    assert_eq!(eff.new_total_liability, inp.current_tl);
    assert!(!eff.is_multiset_slot);
}

#[test]
fn stored_allowance_above_62_bits_is_rejected_before_hashing() {
    let mut inp = consistent_noop();
    inp.old_provider_allowance = 1u64 << 62;
    assert_eq!(validate_slot(&inp), Err(SlotRejection::ProviderAllowanceOverflow));
}

#[test]
fn rejects_bad_tx_type() {
    let mut inp = consistent_noop();
    inp.tx_type = MAX_TX_TYPE + 1;
    assert_eq!(validate_slot(&inp), Err(SlotRejection::BadTxType));
}

#[test]
fn rejects_non_canonical_field_limb() {
    let mut inp = consistent_noop();
    inp.old_pk_hash[2] = GOLDILOCKS_P;
    assert_eq!(validate_slot(&inp), Err(SlotRejection::FieldNotCanonical));

    let mut inp = consistent_noop();
    inp.old_nonce = GOLDILOCKS_P;
    assert_eq!(validate_slot(&inp), Err(SlotRejection::FieldNotCanonical));

    let mut inp = consistent_noop();
    inp.main_siblings[5][1] = u64::MAX;
    assert_eq!(validate_slot(&inp), Err(SlotRejection::FieldNotCanonical));
}

#[test]
fn rejects_non_canonical_amount() {
    let mut inp = consistent_noop();
    inp.amount = GOLDILOCKS_P;
    assert_eq!(validate_slot(&inp), Err(SlotRejection::AmountNotCanonical));

    let mut inp = consistent_noop();
    inp.win_amount = u64::MAX;
    assert_eq!(validate_slot(&inp), Err(SlotRejection::AmountNotCanonical));
}

#[test]
fn rejects_user_id_out_of_range() {
    let mut inp = consistent_noop();
    inp.user_id = 1u32 << TREE_DEPTH;
    assert_eq!(validate_slot(&inp), Err(SlotRejection::UserIdOutOfRange));
}

#[test]
fn rejects_merkle_root_mismatch() {
    let mut inp = consistent_noop();
    inp.current_root[0] ^= 1;
    assert_eq!(validate_slot(&inp), Err(SlotRejection::MerkleRootMismatch));

    let mut inp = consistent_noop();
    inp.old_balance += 1;
    assert_eq!(validate_slot(&inp), Err(SlotRejection::MerkleRootMismatch));
}

#[test]
fn rejects_tl_chain_break() {
    let mut inp = consistent_noop();
    inp.old_total_liability = inp.current_tl + 1;
    assert_eq!(validate_slot(&inp), Err(SlotRejection::TlOverflow));
}

#[test]
fn always_on_checks_apply_to_every_tx_type() {
    let mut inp = consistent_noop();
    inp.tx_type = TX_IN_HOUSE_BET;
    inp.current_root[3] ^= 0xFF;
    assert_eq!(validate_slot(&inp), Err(SlotRejection::MerkleRootMismatch));
}

#[test]
fn compute_new_tl_detects_overflow_and_underflow() {
    assert_eq!(compute_new_tl(100, 50, 30), Ok(120));
    assert_eq!(compute_new_tl(0, 0, 0), Ok(0));
    assert_eq!(
        compute_new_tl(u64::MAX, 1, 0),
        Err(SlotRejection::TlOverflow)
    );
    assert_eq!(compute_new_tl(10, 0, 11), Err(SlotRejection::TlOverflow));
}

#[test]
fn split_and_join_nonce_round_trip() {
    assert_eq!(split_nonce(0), (0, 0));
    assert_eq!(split_nonce(41), (0, 41));
    assert_eq!(split_nonce(ACCOUNT_LANE_UNIT), (1, 0));
    assert_eq!(split_nonce(ACCOUNT_LANE_UNIT - 1), (0, GAME_LANE_MAX));
    let top = join_nonce(ACCOUNT_LANE_MAX, GAME_LANE_MAX);
    assert_eq!(top, (1u64 << 63) - 1);
    assert!(is_canonical(top), "a full two-lane nonce stays below p");
    for (a, g) in [(0, 0), (1, 0), (0, 1), (7, 123_456_789), (ACCOUNT_LANE_MAX, GAME_LANE_MAX)] {
        assert_eq!(split_nonce(join_nonce(a, g)), (a, g));
    }
}

#[test]
fn compute_new_nonce_bumps_each_lane_in_isolation() {
    let n = join_nonce(5, 900);
    assert_eq!(compute_new_nonce(n, false, false), Ok(n));
    assert_eq!(compute_new_nonce(n, true, false), Ok(join_nonce(5, 901)));
    assert_eq!(compute_new_nonce(n, false, true), Ok(join_nonce(6, 900)));
    assert_eq!(compute_new_nonce(41, false, true), Ok(join_nonce(1, 41)));
    assert_eq!(compute_new_nonce(41, true, false), Ok(42));
}

#[test]
fn compute_new_nonce_rejects_at_lane_ceiling_without_carry() {
    let game_full = join_nonce(2, GAME_LANE_MAX);
    assert_eq!(
        compute_new_nonce(game_full, true, false),
        Err(SlotRejection::NonceLaneOverflow)
    );
    assert_eq!(
        compute_new_nonce(game_full, false, true),
        Ok(join_nonce(3, GAME_LANE_MAX))
    );

    let acct_full = join_nonce(ACCOUNT_LANE_MAX, 10);
    assert_eq!(
        compute_new_nonce(acct_full, false, true),
        Err(SlotRejection::NonceLaneOverflow)
    );
    assert_eq!(
        compute_new_nonce(acct_full, true, false),
        Ok(join_nonce(ACCOUNT_LANE_MAX, 11))
    );

    let both_full = join_nonce(ACCOUNT_LANE_MAX, GAME_LANE_MAX);
    assert_eq!(compute_new_nonce(both_full, false, false), Ok(both_full));
    assert_eq!(compute_new_nonce(both_full, true, false), Err(SlotRejection::NonceLaneOverflow));
    assert_eq!(compute_new_nonce(both_full, false, true), Err(SlotRejection::NonceLaneOverflow));

    for bad in [1u64 << 63, GOLDILOCKS_P - 1] {
        assert_eq!(compute_new_nonce(bad, false, false), Err(SlotRejection::NonceLaneOverflow));
        assert_eq!(compute_new_nonce(bad, true, false), Err(SlotRejection::NonceLaneOverflow));
    }
}

#[test]
fn advance_nonce_dispatches_lane_by_tx_type() {
    let n = join_nonce(3, 77);
    for tx_type in [TX_IN_HOUSE_BET, TX_CRASH_SETTLE, TX_SET_PROVIDER_ALLOWANCE] {
        assert_eq!(advance_nonce(n, tx_type, false), Ok(join_nonce(3, 78)), "tx_type {tx_type}");
    }
    for tx_type in [TX_WITHDRAWAL, TX_TRANSFER] {
        assert_eq!(advance_nonce(n, tx_type, false), Ok(join_nonce(4, 77)), "tx_type {tx_type}");
    }
    assert_eq!(advance_nonce(n, TX_KEY_REGISTER_ONLY, true), Ok(join_nonce(4, 77)));
    assert_eq!(advance_nonce(n, TX_KEY_REGISTER_ONLY, false), Ok(n));
    for tx_type in [
        TX_NOOP, TX_DEPOSIT, TX_BET, TX_WIN, TX_BONUS, TX_RISK_REJECT,
        TX_SET_INIT_SEED_HASH, TX_REFERRAL,
    ] {
        assert_eq!(advance_nonce(n, tx_type, false), Ok(n), "tx_type {tx_type}");
    }
}

const SCHNORR_PK: [u64; 5] = [1111, 2222, 3333, 4444, 5555];
const NEW_PK: [u64; 4] = [9001, 9002, 9003, 9004];

fn commit(mut inp: SlotInput) -> SlotInput {
    let bh = balance_leaf(
        inp.old_balance,
        inp.old_seed_hash,
        inp.old_deposit_credit,
        inp.old_nonce,
        inp.old_provider_allowance,
    );
    inp.current_root = compute_root(
        bh,
        inp.old_pk_hash,
        inp.old_address_hash,
        &inp.main_siblings,
        inp.user_id,
    );
    inp.current_tl = inp.old_total_liability;
    inp
}

fn registered_user(tx_type: u8) -> SlotInput {
    let main_siblings: [[u64; 4]; TREE_DEPTH] =
        core::array::from_fn(|l| core::array::from_fn(|j| (l as u64) * 5 + j as u64 + 3));
    commit(SlotInput {
        tx_type,
        user_id: 0b110101u32,
        old_balance: 2_000_000,
        old_deposit_credit: 1_200_000,
        old_nonce: 41,
        main_siblings,
        old_seed_hash: [71, 82, 93],
        old_pk_hash: schnorr_pk_hash(SCHNORR_PK),
        old_address_hash: address_hash([7u8; 20]),
        old_total_liability: 9_000_000,
        ..SlotInput::default()
    })
}

fn root_of_effects(inp: &SlotInput, eff: &SlotEffects) -> [u64; 4] {
    let bh = balance_leaf(
        eff.new_balance,
        eff.new_seed_hash,
        eff.new_credit,
        eff.new_nonce,
        eff.new_provider_allowance,
    );
    compute_root(
        bh,
        eff.new_pk_hash,
        eff.new_address_hash,
        &inp.main_siblings,
        inp.user_id,
    )
}

#[test]
fn deposit_redeposit_grows_balance_and_credit() {
    let mut inp = registered_user(TX_DEPOSIT);
    inp.user_address = [7u8; 20];
    inp.amount = 500_000;
    let inp = commit(inp);
    let eff = validate_slot(&inp).expect("redeposit must validate");
    assert_eq!(eff.new_balance, 2_500_000);
    assert_eq!(eff.new_credit, 1_700_000);
    assert_eq!(eff.new_address_hash, inp.old_address_hash);
    assert_eq!(eff.new_total_liability, 9_500_000);
    assert_eq!(eff.new_root, root_of_effects(&inp, &eff));
    assert!(!eff.is_multiset_slot);
}

#[test]
fn deposit_mismatched_address_is_rejected() {
    let mut inp = registered_user(TX_DEPOSIT);
    inp.user_address = [8u8; 20];
    inp.amount = 100;
    let inp = commit(inp);
    assert_eq!(validate_slot(&inp), Err(SlotRejection::AddressHashMismatch));
}

#[test]
fn first_deposit_stamps_address() {
    let mut inp = registered_user(TX_DEPOSIT);
    inp.old_address_hash = [0; 4];
    inp.user_address = [13u8; 20];
    inp.amount = 250_000;
    let inp = commit(inp);
    let eff = validate_slot(&inp).expect("first deposit must validate");
    assert_eq!(eff.new_address_hash, address_hash([13u8; 20]));
    assert_eq!(eff.new_balance, 2_250_000);
    assert_eq!(eff.new_root, root_of_effects(&inp, &eff));
}

#[test]
fn provider_bet_caps_credit_without_nonce_bump() {
    let mut inp = registered_user(TX_BET);
    inp.old_provider_allowance = 1_500_000;
    inp.amount = 1_000_000;
    let inp = commit(inp);
    let eff = validate_slot(&inp).expect("provider bet must validate");
    assert_eq!(eff.new_balance, 1_000_000);
    assert_eq!(eff.new_credit, 1_000_000);
    assert_eq!(eff.new_total_liability, 8_000_000);
    assert_eq!(eff.new_nonce, inp.old_nonce);
    assert_eq!(eff.new_provider_allowance, 500_000);
    assert_eq!(eff.new_root, root_of_effects(&inp, &eff));
}

#[test]
fn provider_bet_without_registered_pk_is_allowed_within_allowance() {
    let mut inp = registered_user(TX_BET);
    inp.old_pk_hash = [0; 4];
    inp.old_provider_allowance = 100_000;
    inp.amount = 100_000;
    let inp = commit(inp);
    let eff = validate_slot(&inp).expect("provider bet does not require a Schnorr key");
    assert_eq!(eff.new_nonce, inp.old_nonce);
    assert_eq!(eff.new_provider_allowance, 0);
}

#[test]
fn provider_bet_above_allowance_is_rejected() {
    let mut inp = registered_user(TX_BET);
    inp.old_provider_allowance = 100_000;
    inp.amount = 100_001;
    let inp = commit(inp);
    assert_eq!(validate_slot(&inp), Err(SlotRejection::ProviderAllowanceExceeded));

    let mut inp = registered_user(TX_BET);
    inp.amount = 1;
    let inp = commit(inp);
    assert_eq!(validate_slot(&inp), Err(SlotRejection::ProviderAllowanceExceeded));

    let mut inp = registered_user(TX_BET);
    inp.old_provider_allowance = PROVIDER_ALLOWANCE_MAX;
    inp.amount = 2_000_001;
    let inp = commit(inp);
    assert_eq!(validate_slot(&inp), Err(SlotRejection::InsufficientBalance));
}

#[test]
fn set_provider_allowance_is_signed_absolute_and_bumps_game_lane() {
    let mut inp = registered_user(TX_SET_PROVIDER_ALLOWANCE);
    inp.old_provider_allowance = 5;
    inp.amount = 7_500_000;
    let inp = commit(inp);
    let eff = validate_slot(&inp).expect("set_provider_allowance must validate");
    assert_eq!(eff.new_provider_allowance, 7_500_000, "absolute, not additive");
    assert_eq!(eff.new_balance, inp.old_balance);
    assert_eq!(eff.new_credit, inp.old_deposit_credit);
    assert_eq!(eff.new_seed_hash, inp.old_seed_hash);
    assert_eq!(eff.new_total_liability, inp.old_total_liability);
    assert_eq!(eff.new_nonce, inp.old_nonce + 1);
    assert_eq!((eff.new_account_nonce, eff.new_game_nonce), (0, 42));
    assert!(!eff.is_multiset_slot);
    assert_eq!(eff.new_root, root_of_effects(&inp, &eff));
    let bh0 = balance_leaf(eff.new_balance, eff.new_seed_hash, eff.new_credit, eff.new_nonce, 0);
    let root0 = compute_root(bh0, eff.new_pk_hash, eff.new_address_hash, &inp.main_siblings, inp.user_id);
    assert_ne!(eff.new_root, root0);

    let mut revoke = registered_user(TX_SET_PROVIDER_ALLOWANCE);
    revoke.old_provider_allowance = 7_500_000;
    revoke.amount = 0;
    let revoke = commit(revoke);
    let eff = validate_slot(&revoke).expect("revoke must validate");
    assert_eq!(eff.new_provider_allowance, 0);
    assert_eq!(eff.new_root, root_of_effects(&revoke, &eff));
}

#[test]
fn set_provider_allowance_requires_registered_pk() {
    let mut inp = registered_user(TX_SET_PROVIDER_ALLOWANCE);
    inp.old_pk_hash = [0; 4];
    inp.amount = 1;
    let inp = commit(inp);
    assert_eq!(validate_slot(&inp), Err(SlotRejection::SignedWithoutPk));
}

#[test]
fn set_provider_allowance_above_62_bits_is_rejected() {
    let mut inp = registered_user(TX_SET_PROVIDER_ALLOWANCE);
    inp.amount = 1u64 << 62;
    let inp = commit(inp);
    assert_eq!(validate_slot(&inp), Err(SlotRejection::ProviderAllowanceOverflow));

    let mut inp = registered_user(TX_SET_PROVIDER_ALLOWANCE);
    inp.amount = PROVIDER_ALLOWANCE_MAX;
    let inp = commit(inp);
    assert_eq!(
        validate_slot(&inp).map(|e| e.new_provider_allowance),
        Ok(PROVIDER_ALLOWANCE_MAX),
    );
}

#[test]
fn set_provider_allowance_rejects_recipient_and_game_lane_ceiling() {
    let mut inp = registered_user(TX_SET_PROVIDER_ALLOWANCE);
    inp.amount = 10;
    inp.recipient_addr_hash = [1, 2];
    let inp = commit(inp);
    assert_eq!(validate_slot(&inp), Err(SlotRejection::RecipientAddrHashMismatch));

    let mut inp = registered_user(TX_SET_PROVIDER_ALLOWANCE);
    inp.old_nonce = join_nonce(2, GAME_LANE_MAX);
    inp.amount = 10;
    let inp = commit(inp);
    assert_eq!(validate_slot(&inp), Err(SlotRejection::NonceLaneOverflow));
}

#[test]
fn win_and_other_types_keep_the_allowance_strict() {
    let mut inp = registered_user(TX_WIN);
    inp.old_pk_hash = [0; 4];
    inp.old_provider_allowance = 400_000;
    inp.amount = 333_333;
    let inp = commit(inp);
    let eff = validate_slot(&inp).expect("win must validate");
    assert_eq!(eff.new_provider_allowance, 400_000);
    assert_eq!(eff.new_root, root_of_effects(&inp, &eff));

    for tx in [TX_DEPOSIT, TX_WITHDRAWAL, TX_TRANSFER, TX_BONUS] {
        let mut inp = registered_user(tx);
        inp.old_provider_allowance = 400_000;
        inp.amount = 1_000;
        inp.user_address = [7u8; 20];
        inp.recipient_addr_hash = recipient_addr_hash_for(tx, inp.user_address);
        let inp = commit(inp);
        let eff = validate_slot(&inp).unwrap_or_else(|e| panic!("tx {tx}: {e:?}"));
        assert_eq!(eff.new_provider_allowance, 400_000, "tx {tx} must keep the allowance");
        assert_eq!(eff.new_root, root_of_effects(&inp, &eff), "tx {tx}");
    }
}

#[test]
fn withdrawal_over_balance_is_insufficient() {
    let mut inp = registered_user(TX_WITHDRAWAL);
    inp.amount = 2_000_001;
    let inp = commit(inp);
    assert_eq!(validate_slot(&inp), Err(SlotRejection::InsufficientBalance));
}

#[test]
fn withdrawal_pays_the_signed_counterparty_f6() {
    let hot_wallet = [0xABu8; 20];
    let h = address_hash(hot_wallet);

    let mut inp = registered_user(TX_WITHDRAWAL);
    inp.amount = 750_000;
    inp.user_address = hot_wallet;
    inp.recipient_addr_hash = [h[0], h[1]];
    let inp = commit(inp);
    let eff = validate_slot(&inp).expect("withdrawal to the signed counterparty must validate");
    assert_eq!(eff.new_balance, 1_250_000);
    assert_eq!(eff.new_nonce, join_nonce(1, 41));
    assert_eq!((eff.new_account_nonce, eff.new_game_nonce), (1, 41));
    assert_eq!(eff.new_address_hash, inp.old_address_hash);
    assert_eq!(eff.new_root, root_of_effects(&inp, &eff));

    let mut redirected = inp.clone();
    redirected.user_address = [0xCDu8; 20];
    assert_eq!(
        validate_slot(&redirected),
        Err(SlotRejection::RecipientAddrHashMismatch)
    );

    let mut unsigned_dest = inp.clone();
    unsigned_dest.recipient_addr_hash = [0; 2];
    assert_eq!(
        validate_slot(&unsigned_dest),
        Err(SlotRejection::RecipientAddrHashMismatch)
    );
}

#[test]
fn non_payout_slot_with_recipient_is_rejected_f6() {
    let mut inp = registered_user(TX_TRANSFER);
    inp.amount = 100_000;
    inp.recipient_addr_hash = [11, 22];
    let inp = commit(inp);
    assert_eq!(validate_slot(&inp), Err(SlotRejection::RecipientAddrHashMismatch));
}

#[test]
fn win_adds_balance_without_signature_or_credit_change() {
    let mut inp = registered_user(TX_WIN);
    inp.old_pk_hash = [0; 4];
    inp.amount = 333_333;
    let inp = commit(inp);
    let eff = validate_slot(&inp).expect("win must validate unsigned");
    assert_eq!(eff.new_balance, 2_333_333);
    assert_eq!(eff.new_credit, 1_200_000);
    assert_eq!(eff.new_total_liability, 9_333_333);
    assert_eq!(eff.new_root, root_of_effects(&inp, &eff));
}

#[test]
fn risk_reject_below_credit_is_rejected_but_above_passes() {
    let mut low = registered_user(TX_RISK_REJECT);
    low.amount = 1_000_000;
    let low = commit(low);
    assert_eq!(validate_slot(&low), Err(SlotRejection::RiskRejectBelowCredit));

    let mut ok = registered_user(TX_RISK_REJECT);
    ok.amount = 500_000;
    let ok = commit(ok);
    let eff = validate_slot(&ok).expect("risk_reject above credit must validate");
    assert_eq!(eff.new_balance, 1_500_000);
    assert_eq!(eff.new_credit, 1_200_000);
    assert_eq!(eff.new_total_liability, 8_500_000);
    assert_eq!(eff.new_root, root_of_effects(&ok, &eff));
}

#[test]
fn set_init_seed_first_time_is_unsigned() {
    let mut inp = registered_user(TX_SET_INIT_SEED_HASH);
    inp.user_id = 0;
    inp.old_seed_hash = [0; 3];
    inp.old_pk_hash = [0; 4];
    inp.next_server_seed_hash = [501, 502, 503];
    let inp = commit(inp);
    let eff = validate_slot(&inp).expect("first seed init must validate");
    assert_eq!(eff.new_seed_hash, [501, 502, 503]);
    assert_eq!(eff.new_balance, inp.old_balance);
    assert_eq!(eff.new_total_liability, inp.old_total_liability);
    assert_eq!(eff.new_root, root_of_effects(&inp, &eff));
}

#[test]
fn set_init_seed_reset_does_not_bump_nonce() {
    let mut inp = registered_user(TX_SET_INIT_SEED_HASH);
    inp.user_id = 0;
    inp.next_server_seed_hash = [601, 602, 603];
    let inp = commit(inp);
    let eff = validate_slot(&inp).expect("operator seed reset must validate");
    assert_eq!(eff.new_seed_hash, [601, 602, 603]);
    assert_eq!(eff.new_nonce, inp.old_nonce);

    let mut no_pk = registered_user(TX_SET_INIT_SEED_HASH);
    no_pk.user_id = 0;
    no_pk.old_pk_hash = [0; 4];
    no_pk.next_server_seed_hash = [601, 602, 603];
    let no_pk = commit(no_pk);
    assert!(validate_slot(&no_pk).is_ok());
}

#[test]
fn set_init_seed_on_user_leaf_is_rejected() {
    let mut inp = registered_user(TX_SET_INIT_SEED_HASH);
    inp.user_id = 7;
    inp.next_server_seed_hash = [601, 602, 603];
    let inp = commit(inp);
    assert_eq!(
        validate_slot(&inp),
        Err(SlotRejection::SetInitSeedNotAccountZero),
    );
}

#[test]
fn first_key_registration_installs_initial_seed() {
    let mut first = registered_user(TX_KEY_REGISTER_ONLY);
    first.old_pk_hash = [0; 4];
    first.old_address_hash = [0; 4];
    first.old_seed_hash = [0; 3];
    first.new_pk_hash = NEW_PK;
    first.user_address = [21u8; 20];
    first.next_server_seed_hash = [711, 712, 713];
    let first = commit(first);
    let eff = validate_slot(&first).expect("first key registration must validate");
    assert_eq!(eff.new_seed_hash, [711, 712, 713]);
    assert_eq!(eff.new_root, root_of_effects(&first, &eff));

    let mut rot = registered_user(TX_KEY_REGISTER_ONLY);
    rot.new_pk_hash = NEW_PK;
    rot.next_server_seed_hash = [711, 712, 713];
    let rot = commit(rot);
    let eff = validate_slot(&rot).expect("key rotation must validate");
    assert_eq!(eff.new_seed_hash, rot.old_seed_hash);
    assert_eq!(eff.new_root, root_of_effects(&rot, &eff));
}

#[test]
fn zero_seed_commit_is_rejected_on_every_seed_writing_path() {
    let mut init = registered_user(TX_SET_INIT_SEED_HASH);
    init.user_id = 0;
    init.next_server_seed_hash = [0; 3];
    let init = commit(init);
    assert_eq!(validate_slot(&init), Err(SlotRejection::ZeroSeedCommit));

    let mut first = registered_user(TX_KEY_REGISTER_ONLY);
    first.old_pk_hash = [0; 4];
    first.old_address_hash = [0; 4];
    first.old_seed_hash = [0; 3];
    first.new_pk_hash = NEW_PK;
    first.user_address = [21u8; 20];
    first.next_server_seed_hash = [0; 3];
    let first = commit(first);
    assert_eq!(validate_slot(&first), Err(SlotRejection::ZeroSeedCommit));

    let mut rot = registered_user(TX_KEY_REGISTER_ONLY);
    rot.new_pk_hash = NEW_PK;
    rot.next_server_seed_hash = [0; 3];
    let rot = commit(rot);
    assert!(validate_slot(&rot).is_ok(), "rotation keeps the old seed");

    let mut xfer = registered_user(TX_TRANSFER);
    xfer.amount = 1;
    xfer.next_server_seed_hash = [0; 3];
    let xfer = commit(xfer);
    assert!(validate_slot(&xfer).is_ok(), "non-seed tx ignores next_server_seed_hash");
}

#[test]
fn key_first_registration_is_unsigned() {
    let mut inp = registered_user(TX_KEY_REGISTER_ONLY);
    inp.old_pk_hash = [0; 4];
    inp.old_address_hash = [0; 4];
    inp.new_pk_hash = NEW_PK;
    inp.user_address = [21u8; 20];
    let inp = commit(inp);
    let eff = validate_slot(&inp).expect("first key registration must validate");
    assert_eq!(eff.new_pk_hash, NEW_PK);
    assert_eq!(eff.new_address_hash, address_hash([21u8; 20]));
    assert_eq!(eff.new_nonce, inp.old_nonce + ACCOUNT_LANE_UNIT);
    assert_eq!(eff.new_root, root_of_effects(&inp, &eff));
}

#[test]
fn key_rotation_bumps_account_lane() {
    let mut inp = registered_user(TX_KEY_REGISTER_ONLY);
    inp.new_pk_hash = NEW_PK;
    let inp = commit(inp);
    let eff = validate_slot(&inp).expect("registration side-circuit authorizes rotation");
    assert_eq!(eff.new_pk_hash, NEW_PK);
    assert_eq!(eff.new_address_hash, inp.old_address_hash);
    assert_eq!(split_nonce(eff.new_nonce), (1, 41));
}

#[test]
fn nonce_lanes_bump_independently() {
    assert_eq!(split_nonce(41), (0, 41));
    let packed = join_nonce(5, 123_456_789);
    assert_eq!(split_nonce(packed), (5, 123_456_789));

    let mut inp = registered_user(TX_TRANSFER);
    inp.old_nonce = packed;
    inp.amount = 1;
    let inp = commit(inp);
    let eff = validate_slot(&inp).expect("transfer on a two-lane nonce must validate");
    assert_eq!(split_nonce(eff.new_nonce), (6, 123_456_789));
    assert_eq!((eff.new_account_nonce, eff.new_game_nonce), (6, 123_456_789));

    let mut inp = registered_user(TX_KEY_REGISTER_ONLY);
    inp.old_nonce = packed;
    inp.new_pk_hash = NEW_PK;
    let inp = commit(inp);
    let eff = validate_slot(&inp).expect("rotation on a two-lane nonce must validate");
    assert_eq!(split_nonce(eff.new_nonce), (6, 123_456_789));
    assert_eq!((eff.new_account_nonce, eff.new_game_nonce), (6, 123_456_789));

    let mut inp = registered_user(TX_NOOP);
    inp.old_nonce = packed;
    let inp = commit(inp);
    let eff = validate_slot(&inp).unwrap();
    assert_eq!(eff.new_nonce, packed);
    assert_eq!((eff.new_account_nonce, eff.new_game_nonce), (5, 123_456_789));
}

#[test]
fn withdrawal_signed_lane_survives_interleaved_bets() {
    let hot_wallet = [0xABu8; 20];
    let h = address_hash(hot_wallet);
    let start = join_nonce(4, 41);

    let mut bet = consistent_ihb(2, 1_000_000, 0, 500, 0);
    bet.old_nonce = start;
    let bet = commit(bet);
    let after_bet = validate_slot(&bet).expect("bet must validate");
    assert_eq!((after_bet.new_account_nonce, after_bet.new_game_nonce), (4, 42));

    let mut wd = registered_user(TX_WITHDRAWAL);
    wd.old_nonce = after_bet.new_nonce;
    wd.amount = 750_000;
    wd.user_address = hot_wallet;
    wd.recipient_addr_hash = [h[0], h[1]];
    let wd = commit(wd);
    let eff = validate_slot(&wd).expect("withdrawal after a bet must validate");
    assert_eq!((eff.new_account_nonce, eff.new_game_nonce), (5, 42));
    assert_eq!(eff.new_nonce, join_nonce(5, 42));
}

#[test]
fn nonce_lane_ceiling_is_typed_rejection() {
    let full_acct = join_nonce(ACCOUNT_LANE_MAX, 10);
    for tx_type in [TX_WITHDRAWAL, TX_TRANSFER, TX_KEY_REGISTER_ONLY] {
        let mut inp = registered_user(tx_type);
        inp.old_nonce = full_acct;
        inp.amount = 1;
        if tx_type == TX_WITHDRAWAL {
            inp.user_address = [7u8; 20];
            inp.recipient_addr_hash = recipient_addr_hash_for(tx_type, inp.user_address);
        }
        if tx_type == TX_KEY_REGISTER_ONLY {
            inp.new_pk_hash = NEW_PK;
        }
        let inp = commit(inp);
        assert_eq!(
            validate_slot(&inp),
            Err(SlotRejection::NonceLaneOverflow),
            "tx_type {tx_type} at the account-lane ceiling",
        );
    }
    let mut inp = registered_user(TX_NOOP);
    inp.old_nonce = join_nonce(ACCOUNT_LANE_MAX, GAME_LANE_MAX);
    let inp = commit(inp);
    assert_eq!(validate_slot(&inp).unwrap().new_nonce, inp.old_nonce);

    let mut inp = registered_user(TX_KEY_REGISTER_ONLY);
    inp.old_nonce = join_nonce(3, GAME_LANE_MAX);
    inp.new_pk_hash = NEW_PK;
    let inp = commit(inp);
    assert_eq!(split_nonce(validate_slot(&inp).unwrap().new_nonce), (4, GAME_LANE_MAX));

    let mut inp = registered_user(TX_NOOP);
    inp.old_nonce = 1u64 << 63;
    let inp = commit(inp);
    assert_eq!(validate_slot(&inp), Err(SlotRejection::NonceLaneOverflow));
}

#[test]
fn transfer_is_signed_and_debits_balance() {
    let mut inp = registered_user(TX_TRANSFER);
    inp.amount = 400_000;
    let inp = commit(inp);
    let eff = validate_slot(&inp).expect("signed transfer must validate");
    assert_eq!(eff.new_balance, 1_600_000);
    assert_eq!(eff.new_credit, 1_200_000);
    assert_eq!(eff.new_total_liability, 8_600_000);
    assert_eq!(eff.new_nonce, inp.old_nonce + ACCOUNT_LANE_UNIT);
    assert_eq!(eff.new_root, root_of_effects(&inp, &eff));
}

fn consistent_ihb(
    game_id: u8,
    bet: u64,
    game_mode: u32,
    prediction_lo: u32,
    prediction_hi: u32,
) -> SlotInput {
    let server_seed = [101u64, 202, 303, 404, 505, 606, 707, 808];
    let user_secret = [11u64, 22, 33, 44];
    let old_seed_hash = seed_hash_truncated(server_seed);

    let prediction_hash = prediction_hash_standard(
        game_id as u64,
        game_mode as u64,
        prediction_lo as u64,
        prediction_hi as u64,
    );
    let user_seed = user_seed_binding(
        game_id as u64,
        bet,
        prediction_hash,
        user_secret,
    );
    let random = random_ihb(server_seed, user_seed);

    let win_amount = match game_id {
        2 => {
            dice_win(&random, bet, game_mode as u8, [prediction_lo, prediction_hi])
        }
        5 => {
            coinflip_win(&random, bet, prediction_lo as u8)
        }
        1 => {
            limbo_win(&random, bet, prediction_lo)
        }
        _ => 0,
    };

    let mut inp = registered_user(TX_IN_HOUSE_BET);
    inp.game_id = game_id;
    inp.amount = bet;
    inp.win_amount = win_amount;
    inp.server_seed = server_seed;
    inp.user_seed = user_seed;
    inp.old_seed_hash = old_seed_hash;
    inp.next_server_seed_hash = [991, 992, 993];
    inp.user_secret_random = user_secret;
    inp.prediction_hash = prediction_hash;
    inp.game_mode = game_mode;
    inp.prediction_lo = prediction_lo;
    inp.prediction_hi = prediction_hi;
    commit(inp)
}

#[test]
fn ihb_dice_full_pipeline() {
    let inp = consistent_ihb(
        2,
        1_000_000,
        0,
        500,
        0,
    );
    let eff = validate_slot(&inp).expect("IHB Dice must validate");
    assert!(eff.is_multiset_slot);
    assert_ne!(eff.random, [0; 4]);
    assert_ne!(eff.slot_h, [0; 4]);
    assert_eq!(eff.new_seed_hash, inp.next_server_seed_hash);
    assert_eq!(eff.new_nonce, inp.old_nonce + 1);
    assert_eq!(eff.new_root, root_of_effects(&inp, &eff));
}

#[test]
fn ihb_on_crash_house_account_is_rejected() {
    let mut inp = consistent_ihb(2, 1_000_000, 0, 500, 0);
    inp.user_id = 0;
    let inp = commit(inp);
    assert_eq!(
        validate_slot(&inp),
        Err(SlotRejection::InHouseBetOnAccountZero),
    );
}

#[test]
fn ihb_bumps_game_lane_only_and_rejects_at_its_ceiling() {
    let mut inp = consistent_ihb(2, 1_000_000, 0, 500, 0);
    inp.old_nonce = join_nonce(2, 41);
    let inp = commit(inp);
    let eff = validate_slot(&inp).expect("IHB on a two-lane nonce must validate");
    assert_eq!(split_nonce(eff.new_nonce), (2, 42));
    assert_eq!((eff.new_account_nonce, eff.new_game_nonce), (2, 42));

    let mut inp = consistent_ihb(2, 1_000_000, 0, 500, 0);
    inp.old_nonce = join_nonce(2, GAME_LANE_MAX);
    let inp = commit(inp);
    assert_eq!(validate_slot(&inp), Err(SlotRejection::NonceLaneOverflow));

    let mut inp = consistent_ihb(2, 1_000_000, 0, 500, 0);
    inp.old_nonce = join_nonce(ACCOUNT_LANE_MAX, 41);
    let inp = commit(inp);
    assert_eq!(split_nonce(validate_slot(&inp).unwrap().new_nonce), (ACCOUNT_LANE_MAX, 42));
}

#[test]
fn ihb_coinflip_heads_full_pipeline() {
    let inp = consistent_ihb(
        5,
        2_000_000,
        0,
        0,
        0,
    );
    let eff = validate_slot(&inp).expect("IHB CoinFlip heads must validate");
    assert!(eff.is_multiset_slot);
    assert_eq!(eff.new_seed_hash, inp.next_server_seed_hash);
    assert_eq!(eff.new_root, root_of_effects(&inp, &eff));
}

#[test]
fn ihb_coinflip_tails_full_pipeline() {
    let inp = consistent_ihb(
        5,
        2_000_000,
        0,
        1,
        0,
    );
    let eff = validate_slot(&inp).expect("IHB CoinFlip tails must validate");
    assert!(eff.is_multiset_slot);
    assert_eq!(eff.new_seed_hash, inp.next_server_seed_hash);
    assert_eq!(eff.new_root, root_of_effects(&inp, &eff));
}

#[test]
fn ihb_coinflip_tails_real_we_flow() {
    let server_seed = [101u64, 202, 303, 404, 505, 606, 707, 808];
    let user_secret = [11u64, 22, 33, 44];
    let old_seed_hash = seed_hash_truncated(server_seed);
    let bet = 2_000_000u64;
    let game_mode: u32 = 0;
    let prediction_lo: u32 = 1;

    let prediction_hash = prediction_hash_standard(
        5, game_mode as u64, prediction_lo as u64, 0,
    );
    let user_seed = user_seed_binding(5, bet, prediction_hash, user_secret);
    let random = random_ihb(server_seed, user_seed);

    let win_amount = coinflip_win(&random, bet, prediction_lo as u8);

    let mut inp = registered_user(TX_IN_HOUSE_BET);
    inp.game_id = 5;
    inp.amount = bet;
    inp.win_amount = win_amount;
    inp.server_seed = server_seed;
    inp.user_seed = user_seed;
    inp.old_seed_hash = old_seed_hash;
    inp.next_server_seed_hash = [991, 992, 993];
    inp.user_secret_random = user_secret;
    inp.prediction_hash = prediction_hash;
    inp.game_mode = game_mode;
    inp.prediction_lo = prediction_lo;
    inp.prediction_hi = 0;
    let inp = commit(inp);

    let result = validate_slot(&inp);
    assert!(
        result.is_ok(),
        "CoinFlip tails (prediction_lo=1, game_mode=0) must validate, got: {:?}",
        result,
    );
}

#[test]
fn ihb_limbo_full_pipeline() {
    let inp = consistent_ihb(
        1,
        1_000_000,
        98,
        200,
        0,
    );
    let eff = validate_slot(&inp).expect("IHB Limbo must validate");
    assert!(eff.is_multiset_slot);
    assert_eq!(eff.new_root, root_of_effects(&inp, &eff));
}

#[test]
fn ihb_broken_seed_chain_rejected() {
    let mut inp = consistent_ihb(2, 1_000_000, 0, 500, 0);
    inp.old_seed_hash[0] ^= 1;
    let inp = commit(inp);
    assert_eq!(validate_slot(&inp), Err(SlotRejection::SeedChainBreak));
}

#[test]
fn ihb_tampered_user_seed_rejected() {
    let mut inp = consistent_ihb(2, 1_000_000, 0, 500, 0);
    inp.user_seed[0] ^= 1;
    let inp = commit(inp);
    assert_eq!(
        validate_slot(&inp),
        Err(SlotRejection::UserSeedBindingMismatch)
    );
}

#[test]
fn ihb_wrong_win_amount_rejected() {
    let mut inp = consistent_ihb(2, 1_000_000, 0, 500, 0);
    inp.win_amount = inp.win_amount.wrapping_add(1);
    let inp = commit(inp);
    assert_eq!(validate_slot(&inp), Err(SlotRejection::PayoutMismatch));
}

#[test]
fn ihb_still_checks_auth() {
    let mut inp = consistent_ihb(2, 1_000_000, 0, 500, 0);
    inp.old_pk_hash = [0; 4];
    let inp = commit(inp);
    assert_eq!(validate_slot(&inp), Err(SlotRejection::SignedWithoutPk));
}

#[test]
fn ihb_still_checks_insufficient_balance() {
    let inp = consistent_ihb(5, 3_000_000, 0, 0, 0);
    assert_eq!(
        validate_slot(&inp),
        Err(SlotRejection::InsufficientBalance)
    );
}

fn consistent_crash(cashout_x100: u32) -> SlotInput {
    let server_seed = [201u64, 202, 203, 204, 205, 206, 207, 208];
    let random = random_crash(server_seed);
    let bet = 1_000_000u64;

    let prediction_hash = prediction_hash_standard(
        CRASH_GAME_ID as u64,
        0,
        cashout_x100 as u64,
        0,
    );
    let win = crash_win(&random, bet, cashout_x100);

    let mut inp = registered_user(TX_CRASH_SETTLE);
    inp.game_id = CRASH_GAME_ID;
    inp.amount = bet;
    inp.win_amount = win;
    inp.server_seed = server_seed;
    inp.prediction_hash = prediction_hash;
    inp.game_mode = 0;
    inp.prediction_lo = cashout_x100;
    inp.prediction_hi = 0;
    commit(inp)
}

#[test]
fn crash_settle_full_pipeline() {
    let inp = consistent_crash(200);
    let eff = validate_slot(&inp).expect("crash settle must validate");
    assert!(eff.is_multiset_slot);
    assert_ne!(eff.random, [0; 4]);
    assert_ne!(eff.slot_h, [0; 4]);
    assert_eq!(eff.new_seed_hash, inp.old_seed_hash);
    assert_eq!(eff.new_nonce, inp.old_nonce + 1);
    assert_eq!((eff.new_account_nonce, eff.new_game_nonce), (0, inp.old_nonce + 1));
    assert_eq!(eff.new_root, root_of_effects(&inp, &eff));
}

#[test]
fn crash_settle_on_two_lane_nonce_keeps_account_lane() {
    let mut inp = consistent_crash(200);
    inp.old_nonce = join_nonce(9, 41);
    let inp = commit(inp);
    let eff = validate_slot(&inp).expect("crash settle on a two-lane nonce must validate");
    assert_eq!((eff.new_account_nonce, eff.new_game_nonce), (9, 42));

    let mut inp = consistent_crash(200);
    inp.old_nonce = join_nonce(9, GAME_LANE_MAX);
    let inp = commit(inp);
    assert_eq!(validate_slot(&inp), Err(SlotRejection::NonceLaneOverflow));
}

#[test]
fn crash_wrong_payout_rejected() {
    let mut inp = consistent_crash(200);
    inp.win_amount = inp.win_amount.wrapping_add(1);
    let inp = commit(inp);
    assert_eq!(validate_slot(&inp), Err(SlotRejection::PayoutMismatch));
}

#[test]
fn crash_still_checks_auth() {
    let mut inp = consistent_crash(200);
    inp.old_pk_hash = [0; 4];
    let inp = commit(inp);
    assert_eq!(validate_slot(&inp), Err(SlotRejection::SignedWithoutPk));
}

#[test]
fn crash_seed_commit_enforced_when_supplied() {
    let mut ok = consistent_crash(200);
    ok.crash_seed_hash = Some(seed_hash_truncated(ok.server_seed));
    let ok = commit(ok);
    assert!(validate_slot(&ok).is_ok(), "matching seed commit must validate");

    let mut bad = consistent_crash(200);
    let mut wrong = seed_hash_truncated(bad.server_seed);
    wrong[0] ^= 1;
    bad.crash_seed_hash = Some(wrong);
    let bad = commit(bad);
    assert_eq!(
        validate_slot(&bad),
        Err(SlotRejection::CrashSeedCommitMismatch),
    );
}

/// The next slot of the same account, on top of the effects of the last one.
fn following(inp: &SlotInput, eff: &SlotEffects, tx_type: u8, amount: u64) -> SlotInput {
    SlotInput {
        tx_type,
        amount,
        user_id: inp.user_id,
        main_siblings: inp.main_siblings,
        old_balance: eff.new_balance,
        old_deposit_credit: eff.new_credit,
        old_nonce: eff.new_nonce,
        old_provider_allowance: eff.new_provider_allowance,
        old_seed_hash: eff.new_seed_hash,
        old_pk_hash: eff.new_pk_hash,
        old_address_hash: eff.new_address_hash,
        old_total_liability: eff.new_total_liability,
        current_root: eff.new_root,
        current_tl: eff.new_total_liability,
        ..SlotInput::default()
    }
}

#[test]
fn effects_chain_into_the_next_slot() {
    let mut first = registered_user(TX_SET_PROVIDER_ALLOWANCE);
    first.amount = 900_000;
    let granted = validate_slot(&first).unwrap();
    let bet = following(&first, &granted, TX_BET, 300_000);
    let after_bet = validate_slot(&bet).unwrap();
    let win = following(&bet, &after_bet, TX_WIN, 50_000);
    let after_win = validate_slot(&win).unwrap();
    assert_eq!(after_win.new_balance, 1_750_000);
    assert_eq!(after_win.new_total_liability, 8_750_000);
    assert_eq!(after_win.new_provider_allowance, 600_000);
    assert_eq!((after_win.new_account_nonce, after_win.new_game_nonce), (0, 42));
}

#[test]
fn provider_bets_never_exceed_the_grant() {
    let mut inp = registered_user(TX_SET_PROVIDER_ALLOWANCE);
    inp.amount = 1_000_000;
    let mut eff = validate_slot(&inp).unwrap();
    let mut debited = 0;
    for (tx_type, amount) in [(TX_BET, 400_000), (TX_WIN, 800_000), (TX_BET, 500_000), (TX_BET, 100_000)] {
        inp = following(&inp, &eff, tx_type, amount);
        eff = validate_slot(&inp).unwrap();
        if tx_type == TX_BET {
            debited += amount;
        }
        assert_eq!(debited + eff.new_provider_allowance, 1_000_000);
    }
    let one_more = following(&inp, &eff, TX_BET, 1);
    assert_eq!(validate_slot(&one_more), Err(SlotRejection::ProviderAllowanceExceeded));
}

#[test]
fn a_signed_slot_cannot_be_replayed() {
    let mut inp = registered_user(TX_TRANSFER);
    inp.amount = 10;
    let eff = validate_slot(&inp).unwrap();
    assert!(eff.new_nonce > inp.old_nonce);
    let mut replay = inp.clone();
    replay.current_root = eff.new_root;
    replay.current_tl = eff.new_total_liability;
    replay.old_total_liability = eff.new_total_liability;
    assert_eq!(validate_slot(&replay), Err(SlotRejection::MerkleRootMismatch));

    let mut zero_effect = registered_user(TX_TRANSFER);
    zero_effect.amount = 0;
    let eff = validate_slot(&zero_effect).unwrap();
    assert_ne!(eff.new_root, zero_effect.current_root);
}

#[test]
fn liability_follows_balance_on_every_type() {
    for tx_type in 0..=MAX_TX_TYPE {
        if tx_type == TX_IN_HOUSE_BET || tx_type == TX_CRASH_SETTLE {
            continue;
        }
        let mut inp = registered_user(tx_type);
        if tx_type == TX_SET_INIT_SEED_HASH {
            inp.user_id = 0;
        }
        inp.amount = 70_000;
        inp.old_provider_allowance = 80_000;
        inp.user_address = [7u8; 20];
        inp.recipient_addr_hash = recipient_addr_hash_for(tx_type, inp.user_address);
        inp.next_server_seed_hash = [5, 6, 7];
        let inp = commit(inp);
        let eff = validate_slot(&inp).unwrap();
        assert_eq!(
            eff.new_total_liability as i128 - inp.old_total_liability as i128,
            eff.new_balance as i128 - inp.old_balance as i128,
            "tx {tx_type}",
        );
        assert!(eff.new_credit <= eff.new_balance, "tx {tx_type}");
        assert_eq!(
            eff.new_nonce,
            advance_nonce(inp.old_nonce, tx_type, false).unwrap(),
            "tx {tx_type}",
        );
        assert_eq!((eff.random, eff.slot_h), ([0; 4], [0; 4]), "tx {tx_type}");
        assert_eq!(eff.new_root, root_of_effects(&inp, &eff), "tx {tx_type}");
    }
}

#[test]
fn only_a_deposit_raises_the_credit() {
    let mut deposit = registered_user(TX_DEPOSIT);
    deposit.user_address = [7u8; 20];
    deposit.amount = 11;
    assert_eq!(validate_slot(&deposit).unwrap().new_credit, 1_200_011);
    for tx_type in [TX_WIN, TX_BONUS, TX_REFERRAL] {
        let mut inp = registered_user(tx_type);
        inp.amount = 11;
        assert_eq!(validate_slot(&inp).unwrap().new_credit, 1_200_000);
    }
}

#[test]
fn an_address_on_record_never_changes() {
    let mut rotation = registered_user(TX_KEY_REGISTER_ONLY);
    rotation.new_pk_hash = NEW_PK;
    rotation.user_address = [99u8; 20];
    let eff = validate_slot(&rotation).unwrap();
    assert_eq!(eff.new_address_hash, address_hash([7u8; 20]));
    assert_eq!(eff.new_pk_hash, NEW_PK);
}

#[test]
fn a_registered_key_is_never_removed() {
    let keyless = registered_user(TX_KEY_REGISTER_ONLY);
    let eff = validate_slot(&keyless).unwrap();
    assert_eq!(eff.new_pk_hash, schnorr_pk_hash(SCHNORR_PK));
    assert_eq!(eff.new_nonce, keyless.old_nonce);
}

#[test]
fn the_game_rules_have_no_say_in_other_slots() {
    let mut inp = registered_user(TX_TRANSFER);
    inp.amount = 5;
    inp.game_id = 99;
    let mut other = games();
    other.ids.dice = 77;
    assert_eq!(
        slot_validator::validate_slot(&inp, &sponge, &other),
        validate_slot(&inp),
    );
}

#[test]
fn an_in_house_bet_pays_an_exact_win() {
    let inp = consistent_ihb(2, 1_000_000, 0, 500, 0);
    assert_eq!(inp.win_amount, 1_960_000);
    let eff = validate_slot(&inp).unwrap();
    assert_eq!(eff.new_balance, 2_960_000);
    assert_eq!(eff.new_total_liability, 9_960_000);
    assert_eq!(eff.new_credit, 1_200_000);
    assert_eq!(eff.random, random_ihb(inp.server_seed, inp.user_seed));
    assert_eq!(
        eff.slot_h,
        hash::slot_h(eff.random, 1_000_000, 1_960_000, 2, inp.prediction_hash, &sponge),
    );
}

#[test]
fn a_crash_settlement_pays_by_the_raw_seed() {
    let inp = consistent_crash(150);
    let eff = validate_slot(&inp).unwrap();
    assert_eq!(eff.random, [201, 202, 203, 204]);
    assert_eq!(inp.win_amount, 1_500_000);
    assert_eq!(eff.new_balance, 2_500_000);
    assert_eq!(eff.new_seed_hash, [71, 82, 93]);
}

#[test]
fn an_in_house_bet_commits_a_seed() {
    let mut inp = consistent_ihb(2, 1_000_000, 0, 500, 0);
    inp.next_server_seed_hash = [0; 3];
    assert_eq!(validate_slot(&inp), Err(SlotRejection::ZeroSeedCommit));
}

#[test]
fn liability_may_not_underflow() {
    let mut inp = registered_user(TX_TRANSFER);
    inp.old_total_liability = 5;
    inp.amount = 6;
    let inp = commit(inp);
    assert_eq!(validate_slot(&inp), Err(SlotRejection::TlOverflow));
}

#[test]
fn every_limb_group_is_checked() {
    let spoil: [fn(&mut SlotInput); 11] = [
        |i| i.server_seed[7] = GOLDILOCKS_P,
        |i| i.user_seed[3] = GOLDILOCKS_P,
        |i| i.old_seed_hash[2] = GOLDILOCKS_P,
        |i| i.next_server_seed_hash[0] = GOLDILOCKS_P,
        |i| i.old_nonce = u64::MAX,
        |i| i.old_pk_hash[0] = GOLDILOCKS_P,
        |i| i.new_pk_hash[3] = GOLDILOCKS_P,
        |i| i.old_address_hash[1] = GOLDILOCKS_P,
        |i| i.prediction_hash[0] = GOLDILOCKS_P,
        |i| i.user_secret_random[2] = GOLDILOCKS_P,
        |i| i.main_siblings[TREE_DEPTH - 1][3] = GOLDILOCKS_P,
    ];
    for f in spoil {
        let mut inp = consistent_noop();
        f(&mut inp);
        assert_eq!(validate_slot(&inp), Err(SlotRejection::FieldNotCanonical));
    }
}

#[test]
fn checks_come_in_order() {
    let mut inp = consistent_noop();
    inp.old_total_liability += 1;
    assert_eq!(validate_slot(&inp), Err(SlotRejection::TlOverflow));
    inp.current_root[0] ^= 1;
    assert_eq!(validate_slot(&inp), Err(SlotRejection::MerkleRootMismatch));
    inp.user_id = u32::MAX;
    assert_eq!(validate_slot(&inp), Err(SlotRejection::UserIdOutOfRange));
    inp.old_provider_allowance = u64::MAX;
    assert_eq!(validate_slot(&inp), Err(SlotRejection::ProviderAllowanceOverflow));
    inp.amount = u64::MAX;
    assert_eq!(validate_slot(&inp), Err(SlotRejection::AmountNotCanonical));
    inp.user_seed[0] = u64::MAX;
    assert_eq!(validate_slot(&inp), Err(SlotRejection::FieldNotCanonical));
    inp.tx_type = 14;
    assert_eq!(validate_slot(&inp), Err(SlotRejection::BadTxType));
}

#[test]
fn witnesses_of_one_tree_agree() {
    let inp = registered_user(TX_NOOP);
    let mut other = inp.clone();
    other.old_deposit_credit += 1;
    assert_eq!(validate_slot(&other), Err(SlotRejection::MerkleRootMismatch));
    let mut other = inp.clone();
    other.main_siblings[4][2] += 1;
    assert_eq!(validate_slot(&other), Err(SlotRejection::MerkleRootMismatch));
    let mut truncated = inp.clone();
    truncated.old_pk_hash[3] ^= 1;
    assert!(validate_slot(&truncated).is_ok());
}

#[test]
fn nonces_join_and_split() {
    assert_eq!(join_nonce(5, 7), 5 * ACCOUNT_LANE_UNIT + 7);
    assert_eq!(split_nonce((3 << 40) | 9), (3, 9));
    for nonce in [0, 41, (1 << 40) - 1, 1 << 40, (1 << 63) - 1] {
        let (account, game) = split_nonce(nonce);
        assert!(account <= ACCOUNT_LANE_MAX && game <= GAME_LANE_MAX);
        assert_eq!(join_nonce(account, game), nonce);
    }
    assert_eq!(1 << GAME_LANE_BITS, ACCOUNT_LANE_UNIT);
    assert_eq!((1u64 << ACCOUNT_LANE_BITS) - 1, ACCOUNT_LANE_MAX);
}

#[test]
fn reasons_are_variant_names() {
    for rejection in [
        SlotRejection::BadTxType,
        SlotRejection::AmountLimbOverflow,
        SlotRejection::FieldNotCanonical,
        SlotRejection::AmountNotCanonical,
        SlotRejection::AddressByteOverflow,
        SlotRejection::UserIdOutOfRange,
        SlotRejection::MerkleRootMismatch,
        SlotRejection::InsufficientBalance,
        SlotRejection::TlOverflow,
        SlotRejection::CreditCapMismatch,
        SlotRejection::SignedWithoutPk,
        SlotRejection::SetInitSeedNotAccountZero,
        SlotRejection::InHouseBetOnAccountZero,
        SlotRejection::SeedChainBreak,
        SlotRejection::ZeroSeedCommit,
        SlotRejection::UserSeedBindingMismatch,
        SlotRejection::AddressHashMismatch,
        SlotRejection::RecipientAddrHashMismatch,
        SlotRejection::RiskRejectBelowCredit,
        SlotRejection::PayoutMismatch,
        SlotRejection::CrashSeedCommitMismatch,
        SlotRejection::NonceLaneOverflow,
        SlotRejection::ProviderAllowanceExceeded,
        SlotRejection::ProviderAllowanceOverflow,
    ] {
        assert_eq!(rejection.reason(), format!("{rejection:?}"));
    }
}

#[test]
fn the_default_witness_is_all_zero() {
    let inp = SlotInput::default();
    assert_eq!((inp.tx_type, inp.user_id, inp.amount, inp.win_amount), (TX_NOOP, 0, 0, 0));
    assert_eq!(inp.main_siblings, [[0; 4]; TREE_DEPTH]);
    assert_eq!((inp.server_seed, inp.user_address), ([0; 8], [0; 20]));
    assert!(inp.keno_selected.is_empty() && inp.crash_seed_hash.is_none());
    assert!(validate_slot(&commit(inp)).is_ok());
}

#[test]
fn a_keyless_account_holds_no_allowance() {
    let mut grant = registered_user(TX_SET_PROVIDER_ALLOWANCE);
    grant.old_pk_hash = [0; 4];
    grant.amount = 10;
    assert_eq!(validate_slot(&commit(grant)), Err(SlotRejection::SignedWithoutPk));
    let mut bet = registered_user(TX_BET);
    bet.old_pk_hash = [0; 4];
    bet.amount = 1;
    assert_eq!(validate_slot(&commit(bet)), Err(SlotRejection::ProviderAllowanceExceeded));
}

#[test]
fn a_blackjack_slot_replays() {
    let build = |amount: u64, win_amount: u64| {
        let mut inp = consistent_ihb(BLACKJACK_GAME_ID, amount, 0, ACTION_DOUBLE as u32, 0);
        inp.base_bet = 400_000;
        inp.win_amount = win_amount;
        inp
    };
    let eff = validate_slot(&build(800_000, 1_600_000)).unwrap();
    assert_eq!(eff.new_balance, 2_800_000);
    assert_eq!(validate_slot(&build(800_000, 800_000)), Err(SlotRejection::PayoutMismatch));
    assert_eq!(validate_slot(&build(400_000, 1_600_000)), Err(SlotRejection::PayoutMismatch));
}

#[test]
fn a_signed_slot_stays_spent_over_a_run() {
    let mut first = registered_user(TX_TRANSFER);
    first.amount = 10;
    let mut inp = first.clone();
    let mut eff = validate_slot(&inp).unwrap();
    for (tx_type, amount) in [(TX_WIN, 10), (TX_SET_PROVIDER_ALLOWANCE, 0), (TX_NOOP, 0)] {
        inp = following(&inp, &eff, tx_type, amount);
        eff = validate_slot(&inp).unwrap();
        assert!(eff.new_nonce > first.old_nonce);
        assert!(eff.new_account_nonce > split_nonce(first.old_nonce).0);
        let mut replay = first.clone();
        replay.current_root = eff.new_root;
        replay.old_total_liability = eff.new_total_liability;
        replay.current_tl = eff.new_total_liability;
        assert_eq!(validate_slot(&replay), Err(SlotRejection::MerkleRootMismatch));
    }
    assert_eq!(eff.new_balance, first.old_balance);
}

#[test]
fn effects_are_storable() {
    for inp in [consistent_noop(), consistent_ihb(2, 1_000_000, 0, 500, 0), consistent_crash(200)] {
        let eff = validate_slot(&inp).unwrap();
        let digests = [eff.new_root, eff.new_pk_hash, eff.new_address_hash, eff.random, eff.slot_h];
        assert!(digests.iter().flatten().all(|&limb| is_canonical(limb)));
        assert!(eff.new_seed_hash.iter().all(|&limb| is_canonical(limb)));
        assert!(is_canonical(eff.new_nonce) && eff.new_provider_allowance <= PROVIDER_ALLOWANCE_MAX);
    }
}
