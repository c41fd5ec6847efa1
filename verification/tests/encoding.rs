//! Field limbs, digests and authentication paths.
use slot_validator::{hash, merkle};
use slot_validator::field::{
    GOLDILOCKS_P, PROVIDER_ALLOWANCE_MAX, all_canonical, all_zero, is_canonical,
    pack_balance_fields, same_limbs, split_u64, unpack_balance_fields,
};
use slot_validator::hash::random_crash;
use slot_validator::TREE_DEPTH;

const P: u128 = GOLDILOCKS_P as u128;

fn permute(state: &mut [u64; 12]) {
    for round in 0..8u128 {
        for (i, x) in state.iter_mut().enumerate() {
            let y = (*x as u128 + 0x9E37_79B9_7F4A_7C15 + (12 * round + i as u128) * 0x100_0001) % P;
            let y2 = y * y % P;
            let y4 = y2 * y2 % P;
            *x = (y4 * y2 % P * y % P) as u64;
        }
        let sum = state.iter().map(|&x| x as u128).sum::<u128>() % P;
        for (i, x) in state.iter_mut().enumerate() {
            *x = ((*x as u128 * (i as u128 + 2) + sum) % P) as u64;
        }
    }
}

/// A small overwrite-mode sponge of rate 8 over the field.
fn sponge(input: &[u64]) -> [u64; 4] {
    let mut state = [0u64; 12];
    for chunk in input.chunks(8) {
        state[..chunk.len()].copy_from_slice(chunk);
        permute(&mut state);
    }
    [state[0], state[1], state[2], state[3]]
}

fn poseidon2(input: &[u64]) -> [u64; 4] {
    hash::poseidon2(input, &sponge)
}

fn balance_leaf(balance: u64, seed_hash: [u64; 3], credit: u64, nonce: u64, allowance: u64) -> [u64; 4] {
    hash::balance_leaf(balance, seed_hash, credit, nonce, allowance, &sponge)
}

fn main_leaf(balance_hash: [u64; 4], pk_hash: [u64; 4], address_hash: [u64; 4]) -> [u64; 4] {
    hash::main_leaf(balance_hash, pk_hash, address_hash, &sponge)
}

fn two_to_one(left: [u64; 4], right: [u64; 4]) -> [u64; 4] {
    hash::two_to_one(left, right, &sponge)
}

fn schnorr_pk_hash(key: [u64; 5]) -> [u64; 4] {
    hash::schnorr_pk_hash(key, &sponge)
}

fn address_hash(address: [u8; 20]) -> [u64; 4] {
    hash::address_hash(address, &sponge)
}

fn random_ihb(server_seed: [u64; 8], user_seed: [u64; 4]) -> [u64; 4] {
    hash::random_ihb(server_seed, user_seed, &sponge)
}

fn seed_hash_truncated(server_seed: [u64; 8]) -> [u64; 3] {
    hash::seed_hash_truncated(server_seed, &sponge)
}

fn user_seed_binding(game_id: u64, bet: u64, prediction_hash: [u64; 4], secret: [u64; 4]) -> [u64; 4] {
    hash::user_seed_binding(game_id, bet, prediction_hash, secret, &sponge)
}

fn slot_h(random: [u64; 4], bet: u64, win: u64, game_id: u64, prediction_hash: [u64; 4]) -> [u64; 4] {
    hash::slot_h(random, bet, win, game_id, prediction_hash, &sponge)
}

fn prediction_hash_standard(game_id: u64, p0: u64, p1: u64, p2: u64) -> [u64; 4] {
    hash::prediction_hash_standard(game_id, p0, p1, p2, &sponge)
}

fn prediction_hash_keno(game_id: u64, risk: u64, pick_count: u64, selected: &[u8]) -> [u64; 4] {
    hash::prediction_hash_keno(game_id, risk, pick_count, selected, &sponge)
}

fn root_from_leaf(leaf: [u64; 4], siblings: &[[u64; 4]; TREE_DEPTH], user_id: u32) -> [u64; 4] {
    merkle::root_from_leaf(leaf, siblings, user_id, &sponge)
}

const LIMB_MASK: u64 = 0xFFFF_FFFF;
const ALLOWANCE_HALF_MASK: u64 = 0x7FFF_FFFF;

#[test]
fn pack_unpack_roundtrip_and_legacy_identity() {
    for balance in [0u64, 1, 0xFFFF_FFFF, 1 << 32, u64::MAX] {
        let (lo, hi) = split_u64(balance);
        assert_eq!(pack_balance_fields(balance, 0), [lo, hi]);
    }
    let cases: &[(u64, u64)] = &[
        (0, 0),
        (0, 1),
        (u64::MAX, PROVIDER_ALLOWANCE_MAX),
        (0xFFFF_FFFF, (1u64 << 31) - 1),
        (0xFFFF_FFFF_0000_0000, 1u64 << 31),
        (123_456_789, 0x2ABC_DEF0_1234_5678 & PROVIDER_ALLOWANCE_MAX),
    ];
    for &(balance, allowance) in cases {
        let f = pack_balance_fields(balance, allowance);
        assert!(f[0] < (1u64 << 63) && f[1] < (1u64 << 63), "packed field must stay canonical");
        assert!(is_canonical(f[0]) && is_canonical(f[1]));
        assert_eq!(f[0] & LIMB_MASK, balance & LIMB_MASK);
        assert_eq!(f[1] & LIMB_MASK, balance >> 32);
        assert_eq!(f[0] >> 32, allowance & ALLOWANCE_HALF_MASK);
        assert_eq!(f[1] >> 32, allowance >> 31);
        assert_eq!(unpack_balance_fields(f), (balance, allowance), "({balance}, {allowance})");
    }
}

#[test]
fn modulus_matches_known_value() {
    assert_eq!(GOLDILOCKS_P, 18446744069414584321);
}

#[test]
fn canonicity_boundary() {
    assert!(is_canonical(0));
    assert!(is_canonical(GOLDILOCKS_P - 1));
    assert!(!is_canonical(GOLDILOCKS_P));
    assert!(!is_canonical(u64::MAX));
}

#[test]
fn all_zero_detects_empty_slot() {
    assert!(all_zero(&[0u64; 4]));
    assert!(all_zero(&[] as &[u64]));
    assert!(!all_zero(&[0u64, 0, 1, 0]));
}

#[test]
fn split_roundtrips() {
    for v in [0u64, 1, 0xFFFF_FFFF, 1 << 32, u64::MAX, GOLDILOCKS_P] {
        let (lo, hi) = split_u64(v);
        assert!(lo < (1 << 32));
        assert!(hi < (1 << 32));
        assert_eq!(lo | (hi << 32), v);
    }
}

#[test]
fn poseidon2_matches_two_to_one_concat() {
    let l = [1u64, 2, 3, 4];
    let r = [5u64, 6, 7, 8];
    assert_eq!(two_to_one(l, r), poseidon2(&[1, 2, 3, 4, 5, 6, 7, 8]));
}

#[test]
fn main_leaf_truncates_pk_and_address() {
    let bh = [10u64, 11, 12, 13];
    let a = main_leaf(bh, [1, 2, 3, 4], [5, 6, 7, 8]);
    let b = main_leaf(bh, [1, 2, 99, 100], [5, 6, 101, 102]);
    assert_eq!(a, b);
    let c = main_leaf(bh, [1, 42, 3, 4], [5, 6, 7, 8]);
    assert_ne!(a, c);
}

#[test]
fn balance_leaf_matches_manual_layout() {
    let balance = (7u64 << 32) | 3;
    let credit = (9u64 << 32) | 5;
    let seed = [111u64, 222, 333];
    let expected = poseidon2(&[3, 7, 111, 222, 333, 5, 9, 17]);
    assert_eq!(balance_leaf(balance, seed, credit, 17, 0), expected);
}

#[test]
fn balance_leaf_packs_allowance_above_balance_limbs() {
    let balance = (7u64 << 32) | 3;
    let credit = (9u64 << 32) | 5;
    let seed = [111u64, 222, 333];
    let allowance = (5u64 << 31) | 0x1234_5678;
    let bare = balance_leaf(balance, seed, credit, 17, 0);
    let packed = balance_leaf(balance, seed, credit, 17, allowance);
    assert_ne!(bare, packed);
    assert_eq!(
        packed,
        poseidon2(&[(0x1234_5678u64 << 32) | 3, (5u64 << 32) | 7, 111, 222, 333, 5, 9, 17]),
    );
    let _ = balance_leaf(balance, seed, credit, 17, PROVIDER_ALLOWANCE_MAX);
}

#[test]
fn schnorr_pk_hash_matches_manual_layout() {
    let key = [1u64, 2, 3, 4, 5];
    assert_eq!(schnorr_pk_hash(key), poseidon2(&key));
    let mut changed = key;
    changed[4] += 1;
    assert_ne!(schnorr_pk_hash(key), schnorr_pk_hash(changed));
}

#[test]
fn address_hash_matches_manual_layout() {
    let mut addr = [0u8; 20];
    for (i, b) in addr.iter_mut().enumerate() {
        *b = (i as u8).wrapping_mul(13).wrapping_add(1);
    }
    let expected = poseidon2(&core::array::from_fn::<u64, 20, _>(|i| addr[i] as u64));
    assert_eq!(address_hash(addr), expected);
    let mut addr2 = addr;
    addr2[19] ^= 0xFF;
    assert_ne!(address_hash(addr), address_hash(addr2));
}

#[test]
fn pin_balance_leaf() {
    let h = balance_leaf(1_000_000, [100, 200, 300], 500_000, 9, 0);
    assert_eq!(h, balance_leaf(1_000_000, [100, 200, 300], 500_000, 9, 0));
    assert_ne!(h, balance_leaf(1_000_001, [100, 200, 300], 500_000, 9, 0));
    assert_ne!(h, balance_leaf(1_000_000, [101, 200, 300], 500_000, 9, 0));
    assert_ne!(h, balance_leaf(1_000_000, [100, 200, 300], 500_001, 9, 0));
    assert_ne!(h, balance_leaf(1_000_000, [100, 200, 300], 500_000, 10, 0));
    assert_ne!(h, balance_leaf(1_000_000, [100, 200, 300], 500_000, 9, 1));
}

#[test]
fn zero_nonce_preserves_retired_seven_field_leaf() {
    let old = poseidon2(&[3, 7, 111, 222, 333, 5, 9]);
    assert_eq!(balance_leaf((7 << 32) | 3, [111, 222, 333], (9 << 32) | 5, 0, 0), old);
}

#[test]
fn pin_random_ihb_field_order() {
    let ss = [1u64, 2, 3, 4, 5, 6, 7, 8];
    let us = [9u64, 10, 11, 12];
    let r = random_ihb(ss, us);
    assert_eq!(r, poseidon2(&[1, 2, 3, 4, 5, 6, 7, 8, 9, 10, 11, 12]));
    assert_ne!(r, poseidon2(&[9, 10, 11, 12, 1, 2, 3, 4, 5, 6, 7, 8]));
}

#[test]
fn pin_random_crash_is_raw_server_seed() {
    let ss = [1u64, 2, 3, 4, 5, 6, 7, 8];
    let r = random_crash(ss);
    assert_eq!(r, [1, 2, 3, 4]);
    let r_ihb_zero = random_ihb(ss, [0; 4]);
    assert_ne!(r, r_ihb_zero);
}

#[test]
fn pin_seed_hash_truncated() {
    let ss = [10u64, 20, 30, 40, 50, 60, 70, 80];
    let full = poseidon2(&ss);
    let trunc = seed_hash_truncated(ss);
    assert_eq!(trunc, [full[0], full[1], full[2]]);
    assert_ne!(full[3], 0);
}

#[test]
fn pin_user_seed_binding_field_order() {
    let gid = 5u64;
    let bet = 1_000_000u64;
    let ph = [100u64, 200, 300, 400];
    let secret = [11u64, 22, 33, 44];
    let h = user_seed_binding(gid, bet, ph, secret);
    assert_eq!(h, poseidon2(&[5, 1_000_000, 100, 200, 300, 400, 11, 22, 33, 44]));
    assert_ne!(h, poseidon2(&[1_000_000, 5, 100, 200, 300, 400, 11, 22, 33, 44]));
}

#[test]
fn pin_slot_h_field_order() {
    let random = [1u64, 2, 3, 4];
    let bet = 500_000u64;
    let win = 1_000_000u64;
    let gid = 2u64;
    let ph = [10u64, 20, 30, 40];
    let h = slot_h(random, bet, win, gid, ph);
    assert_eq!(
        h,
        poseidon2(&[1, 2, 3, 4, 500_000, 1_000_000, 2, 10, 20, 30, 40])
    );
    assert_ne!(h, slot_h(random, win, bet, gid, ph));
}

#[test]
fn pin_prediction_hash_standard_field_order() {
    let h = prediction_hash_standard(2, 0, 500, 0);
    assert_eq!(h, poseidon2(&[2, 0, 500, 0]));
    assert_ne!(h, poseidon2(&[0, 2, 500, 0]));
}

#[test]
fn pin_prediction_hash_keno_field_order() {
    let selected = [3u8, 7, 12, 25, 38];
    let h = prediction_hash_keno(4, 1, 5, &selected);
    assert_eq!(h, poseidon2(&[4, 1, 5, 3, 7, 12, 25, 38, 0, 0, 0, 0, 0]));
}

fn sample_siblings() -> [[u64; 4]; TREE_DEPTH] {
    core::array::from_fn(|l| core::array::from_fn(|j| (l * 4 + j + 1) as u64))
}

#[test]
fn root_changes_with_path_index() {
    let leaf = [9u64, 8, 7, 6];
    let sibs = sample_siblings();
    assert_ne!(
        root_from_leaf(leaf, &sibs, 0),
        root_from_leaf(leaf, &sibs, 1)
    );
}

#[test]
fn first_level_swap_matches_manual() {
    let leaf = [1u64, 2, 3, 4];
    let mut sibs = sample_siblings();
    for s in sibs.iter_mut().skip(1) {
        *s = [0; 4];
    }
    let even = root_from_leaf(leaf, &sibs, 0b0);
    let odd = root_from_leaf(leaf, &sibs, 0b1);

    let mut up_even = two_to_one(leaf, sibs[0]);
    let mut up_odd = two_to_one(sibs[0], leaf);
    for sib in sibs.iter().skip(1) {
        up_even = two_to_one(up_even, *sib);
        up_odd = two_to_one(up_odd, *sib);
    }
    assert_eq!(even, up_even);
    assert_eq!(odd, up_odd);
}

#[test]
fn packing_has_this_layout() {
    assert_eq!(
        pack_balance_fields((7 << 32) | 3, (5 << 31) | 0x1234_5678),
        [(0x1234_5678 << 32) | 3, (5 << 32) | 7],
    );
    assert_eq!(
        unpack_balance_fields([(0x1234_5678 << 32) | 3, (5 << 32) | 7]),
        ((7 << 32) | 3, (5 << 31) | 0x1234_5678),
    );
    assert_eq!(
        pack_balance_fields(u64::MAX, PROVIDER_ALLOWANCE_MAX),
        [0x7FFF_FFFF_FFFF_FFFF, 0x7FFF_FFFF_FFFF_FFFF],
    );
}

#[test]
fn packing_undoes_unpacking() {
    for fields in [[0, 0], [1, 2], [(1 << 63) - 1, 0], [0x1234_5678_9ABC_DEF0, 0x7FFF_FFFF_0000_0001]] {
        let (balance, allowance) = unpack_balance_fields(fields);
        assert_eq!(pack_balance_fields(balance, allowance), fields);
    }
}

#[test]
fn split_u64_gives_the_two_limbs() {
    assert_eq!(split_u64(0x1122_3344_5566_7788), (0x5566_7788, 0x1122_3344));
}

#[test]
fn one_bad_limb_makes_a_group_non_canonical() {
    assert!(all_canonical(&[]));
    assert!(all_canonical(&[0, 1, GOLDILOCKS_P - 1]));
    assert!(!all_canonical(&[0, GOLDILOCKS_P, 1]));
    assert!(!all_canonical(&[u64::MAX]));
}

#[test]
fn same_limbs_compares_every_limb() {
    assert!(same_limbs(&[1, 2, 3], &[1, 2, 3]));
    assert!(!same_limbs(&[1, 2, 3], &[1, 2, 4]));
    assert!(!same_limbs(&[0, 2, 3], &[1, 2, 3]));
}

#[test]
fn main_leaf_has_this_layout() {
    assert_eq!(
        main_leaf([10, 11, 12, 13], [1, 2, 3, 4], [5, 6, 7, 8]),
        poseidon2(&[10, 11, 12, 13, 1, 2, 5, 6]),
    );
}

#[test]
fn balance_leaves_of_different_accounts_differ() {
    let base = balance_leaf(5, [1, 2, 3], 4, 6, 7);
    assert_ne!(base, balance_leaf(5, [1, 9, 3], 4, 6, 7));
    assert_ne!(base, balance_leaf(5, [1, 2, 9], 4, 6, 7));
    assert_ne!(base, balance_leaf(5 + (1 << 32), [1, 2, 3], 4, 6, 7));
    assert_ne!(base, balance_leaf(5, [1, 2, 3], 4 + (1 << 32), 6, 7));
    assert_ne!(base, balance_leaf(5, [1, 2, 3], 4, 6, 7 + (1 << 31)));
}

#[test]
fn root_from_leaf_follows_every_bit_of_the_index() {
    let leaf = [9u64, 8, 7, 6];
    let sibs = sample_siblings();
    let index = 0xA5A_5A5Au32;
    let mut node = leaf;
    for (level, sib) in sibs.iter().enumerate() {
        node = if (index >> level) & 1 == 1 { two_to_one(*sib, node) } else { two_to_one(node, *sib) };
    }
    assert_eq!(root_from_leaf(leaf, &sibs, index), node);
}

#[test]
fn a_changed_sibling_changes_the_root() {
    let leaf = [9u64, 8, 7, 6];
    let sibs = sample_siblings();
    let root = root_from_leaf(leaf, &sibs, 5);
    for level in [0, 13, TREE_DEPTH - 1] {
        let mut other = sibs;
        other[level][3] += 1;
        assert_ne!(root_from_leaf(leaf, &other, 5), root);
    }
}

#[test]
fn compute_root_lifts_the_main_leaf() {
    let sibs = sample_siblings();
    assert_eq!(
        merkle::compute_root([1, 2, 3, 4], [5, 6, 7, 8], [9, 10, 11, 12], &sibs, 77, &sponge),
        root_from_leaf(main_leaf([1, 2, 3, 4], [5, 6, 7, 8], [9, 10, 11, 12]), &sibs, 77),
    );
}

#[test]
fn keno_prediction_takes_ten_picks() {
    let picks: Vec<u8> = (1..=12).collect();
    assert_eq!(
        prediction_hash_keno(4, 2, 12, &picks),
        poseidon2(&[4, 2, 12, 1, 2, 3, 4, 5, 6, 7, 8, 9, 10]),
    );
}
