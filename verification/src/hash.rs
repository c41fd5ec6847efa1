//! The Poseidon2 preimage layouts of the rollup.
//!
//! The sponge itself is a parameter: every function here takes the hash
//! function `hash` it is to use, fixes the order of the field elements handed to
//! it and calls it. [`is_sponge`] says what is asked of `hash`; a contract that
//! begins `computes(hash, f) ==> ...` says what comes back when `hash` computes
//! the mathematical function `f`.
//!
//! Every element has to be canonical. Digests are canonical in turn, so they can
//! be hashed again.
use crate::field;
use crate::field::{pack_balance_fields, split_u64, GOLDILOCKS_P, PROVIDER_ALLOWANCE_MAX};
use vstd::prelude::*;

verus! {

/// The mathematical function behind a sponge: from the absorbed field elements
/// to the four-element digest.
pub type Sponge = spec_fn(Seq<u64>) -> [u64; 4];

/// `hash` accepts every sequence of canonical elements and returns canonical
/// digests.
pub open spec fn is_sponge<H: Fn(&[u64]) -> [u64; 4]>(hash: &H) -> bool {
    &&& forall|x: &[u64]|
        field::canonical(x@) ==> #[trigger] call_requires(*hash, (x,))
    &&& forall|x: &[u64], d: [u64; 4]| #[trigger]
        call_ensures(*hash, (x,), d) ==> field::canonical(d@)
}

/// Whatever `hash` returns is the digest that `f` gives.
pub open spec fn computes<H: Fn(&[u64]) -> [u64; 4]>(hash: &H, f: Sponge) -> bool {
    forall|x: &[u64], d: [u64; 4]| #[trigger] call_ensures(*hash, (x,), d) ==> d == f(x@)
}

/// The elements of a balance leaf.
pub open spec fn balance_preimage(
    balance: u64,
    seed_hash: [u64; 3],
    credit: u64,
    nonce: u64,
    allowance: u64,
) -> Seq<u64> {
    let packed = field::packed_fields(balance, allowance);
    seq![
        packed[0],
        packed[1],
        seed_hash[0],
        seed_hash[1],
        seed_hash[2],
        field::limb_lo(credit),
        field::limb_hi(credit),
        nonce,
    ]
}

/// Digest of a balance leaf.
pub open spec fn balance_leaf_of(
    f: Sponge,
    balance: u64,
    seed_hash: [u64; 3],
    credit: u64,
    nonce: u64,
    allowance: u64,
) -> [u64; 4] {
    f(balance_preimage(balance, seed_hash, credit, nonce, allowance))
}

/// The elements of a main leaf: the whole balance hash and the first two
/// elements of the key and address hashes.
pub open spec fn main_preimage(
    balance_hash: [u64; 4],
    pk_hash: [u64; 4],
    address_hash: [u64; 4],
) -> Seq<u64> {
    balance_hash@ + pk_hash@.take(2) + address_hash@.take(2)
}

/// Digest of a main leaf.
pub open spec fn main_leaf_of(
    f: Sponge,
    balance_hash: [u64; 4],
    pk_hash: [u64; 4],
    address_hash: [u64; 4],
) -> [u64; 4] {
    f(main_preimage(balance_hash, pk_hash, address_hash))
}

/// Digest of an inner Merkle node.
pub open spec fn node_of(f: Sponge, left: [u64; 4], right: [u64; 4]) -> [u64; 4] {
    f(left@ + right@)
}

/// Digest of a 20-byte address, one element per byte.
pub open spec fn address_hash_of(f: Sponge, user_address: [u8; 20]) -> [u64; 4] {
    f(Seq::new(20, |i: int| user_address[i] as u64))
}

/// Outcome seed of an in-house bet: server seed first, user seed second.
pub open spec fn random_ihb_of(f: Sponge, server_seed: [u64; 8], user_seed: [u64; 4]) -> [u64; 4] {
    f(server_seed@ + user_seed@)
}

/// Outcome seed of a crash round: the first half of the server seed, unhashed.
pub open spec fn random_crash_of(server_seed: [u64; 8]) -> [u64; 4] {
    [server_seed[0], server_seed[1], server_seed[2], server_seed[3]]
}

/// The first three elements of the server seed's digest.
pub open spec fn seed_hash_of(f: Sponge, server_seed: [u64; 8]) -> [u64; 3] {
    let d = f(server_seed@);
    [d[0], d[1], d[2]]
}

/// The user seed that binds a secret to the parameters of a bet.
pub open spec fn user_seed_of(
    f: Sponge,
    game_id: u64,
    bet_full: u64,
    prediction_hash: [u64; 4],
    user_secret: [u64; 4],
) -> [u64; 4] {
    f(seq![game_id, bet_full] + prediction_hash@ + user_secret@)
}

/// The multiset commitment of a slot.
pub open spec fn slot_h_of(
    f: Sponge,
    random: [u64; 4],
    bet_full: u64,
    win_full: u64,
    game_id: u64,
    prediction_hash: [u64; 4],
) -> [u64; 4] {
    f(random@ + seq![bet_full, win_full, game_id] + prediction_hash@)
}

/// Prediction hash of every game but keno.
pub open spec fn prediction_of(f: Sponge, game_id: u64, p0: u64, p1: u64, p2: u64) -> [u64; 4] {
    f(seq![game_id, p0, p1, p2])
}

/// Prediction hash of keno: the first ten picks, padded with zeros.
pub open spec fn keno_prediction_of(
    f: Sponge,
    game_id: u64,
    risk: u64,
    pick_count: u64,
    selected: Seq<u8>,
) -> [u64; 4] {
    f(
        seq![game_id, risk, pick_count] + Seq::new(
            10,
            |i: int|
                if i < selected.len() {
                    selected[i] as u64
                } else {
                    0
                },
        ),
    )
}

/// Hash canonical field elements without padding.
pub fn poseidon2<H: Fn(&[u64]) -> [u64; 4]>(input: &[u64], hash: &H) -> (r: [u64; 4])
    requires
        is_sponge(hash),
        field::canonical(input@),
    ensures
        field::canonical(r@),
        forall|f: Sponge| #[trigger] computes(hash, f) ==> r == f(input@),
{
    hash(input)
}

/// Balance leaf, 8 elements: the two packed balance fields, the seed hash, the
/// two credit limbs and the nonce.
///
/// The provider allowance sits above the balance limbs in the two leading
/// fields, so an account without one hashes its bare limbs.
pub fn balance_leaf<H: Fn(&[u64]) -> [u64; 4]>(
    balance: u64,
    seed_hash: [u64; 3],
    credit: u64,
    nonce: u64,
    allowance: u64,
    hash: &H,
) -> (r: [u64; 4])
    requires
        is_sponge(hash),
        field::canonical(seed_hash@),
        nonce < GOLDILOCKS_P,
        allowance <= PROVIDER_ALLOWANCE_MAX,
    ensures
        field::canonical(r@),
        forall|f: Sponge| #[trigger]
            computes(hash, f) ==> r == balance_leaf_of(
                f,
                balance,
                seed_hash,
                credit,
                nonce,
                allowance,
            ),
{
    let packed = pack_balance_fields(balance, allowance);
    let (c_lo, c_hi) = split_u64(credit);
    let preimage = [
        packed[0],
        packed[1],
        seed_hash[0],
        seed_hash[1],
        seed_hash[2],
        c_lo,
        c_hi,
        nonce,
    ];
    assert(preimage@ =~= balance_preimage(balance, seed_hash, credit, nonce, allowance));
    poseidon2(&preimage, hash)
}

/// Main leaf, 8 elements: the balance hash and the first two elements each of
/// the key hash and the address hash.
///
/// Only the leaf truncates the two hashes. Authentication and the redeposit
/// check use all four elements.
pub fn main_leaf<H: Fn(&[u64]) -> [u64; 4]>(
    balance_hash: [u64; 4],
    pk_hash: [u64; 4],
    address_hash: [u64; 4],
    hash: &H,
) -> (r: [u64; 4])
    requires
        is_sponge(hash),
        field::canonical(balance_hash@),
        field::canonical(pk_hash@.take(2)),
        field::canonical(address_hash@.take(2)),
    ensures
        field::canonical(r@),
        forall|f: Sponge| #[trigger]
            computes(hash, f) ==> r == main_leaf_of(f, balance_hash, pk_hash, address_hash),
{
    let preimage = [
        balance_hash[0],
        balance_hash[1],
        balance_hash[2],
        balance_hash[3],
        pk_hash[0],
        pk_hash[1],
        address_hash[0],
        address_hash[1],
    ];
    assert(pk_hash@[0] == pk_hash@.take(2)[0] && pk_hash@[1] == pk_hash@.take(2)[1]);
    assert(address_hash@[0] == address_hash@.take(2)[0]);
    assert(address_hash@[1] == address_hash@.take(2)[1]);
    assert(preimage@ =~= main_preimage(balance_hash, pk_hash, address_hash));
    poseidon2(&preimage, hash)
}

/// Inner Merkle node, 8 elements: the left digest and the right digest.
pub fn two_to_one<H: Fn(&[u64]) -> [u64; 4]>(left: [u64; 4], right: [u64; 4], hash: &H) -> (r: [u64;
    4])
    requires
        is_sponge(hash),
        field::canonical(left@),
        field::canonical(right@),
    ensures
        field::canonical(r@),
        forall|f: Sponge| #[trigger] computes(hash, f) ==> r == node_of(f, left, right),
{
    let preimage = [
        left[0],
        left[1],
        left[2],
        left[3],
        right[0],
        right[1],
        right[2],
        right[3],
    ];
    assert(preimage@ =~= left@ + right@);
    poseidon2(&preimage, hash)
}

/// Commitment to an encoded Schnorr public key, 5 elements.
pub fn schnorr_pk_hash<H: Fn(&[u64]) -> [u64; 4]>(schnorr_pk_enc: [u64; 5], hash: &H) -> (r: [u64;
    4])
    requires
        is_sponge(hash),
        field::canonical(schnorr_pk_enc@),
    ensures
        field::canonical(r@),
        forall|f: Sponge| #[trigger] computes(hash, f) ==> r == f(schnorr_pk_enc@),
{
    poseidon2(&schnorr_pk_enc, hash)
}

/// Address hash, 20 elements: one per address byte.
pub fn address_hash<H: Fn(&[u64]) -> [u64; 4]>(user_address: [u8; 20], hash: &H) -> (r: [u64; 4])
    requires
        is_sponge(hash),
    ensures
        field::canonical(r@),
        forall|f: Sponge| #[trigger] computes(hash, f) ==> r == address_hash_of(f, user_address),
{
    let mut bytes: Vec<u64> = Vec::new();
    let mut i: usize = 0;
    while i < 20
        invariant
            i <= 20,
            bytes@.len() == i,
            forall|j: int| 0 <= j < i ==> #[trigger] bytes@[j] == user_address[j] as u64,
        decreases 20 - i,
    {
        bytes.push(user_address[i] as u64);
        i += 1;
    }
    assert(bytes@ =~= Seq::new(20, |i: int| user_address[i] as u64));
    poseidon2(bytes.as_slice(), hash)
}

/// Outcome seed of an in-house bet, 12 elements: the server seed and the user
/// seed. Both parties contribute, so neither can bias the result.
pub fn random_ihb<H: Fn(&[u64]) -> [u64; 4]>(
    server_seed: [u64; 8],
    user_seed: [u64; 4],
    hash: &H,
) -> (r: [u64; 4])
    requires
        is_sponge(hash),
        field::canonical(server_seed@),
        field::canonical(user_seed@),
    ensures
        field::canonical(r@),
        forall|f: Sponge| #[trigger]
            computes(hash, f) ==> r == random_ihb_of(f, server_seed, user_seed),
{
    let preimage = [
        server_seed[0],
        server_seed[1],
        server_seed[2],
        server_seed[3],
        server_seed[4],
        server_seed[5],
        server_seed[6],
        server_seed[7],
        user_seed[0],
        user_seed[1],
        user_seed[2],
        user_seed[3],
    ];
    assert(preimage@ =~= server_seed@ + user_seed@);
    poseidon2(&preimage, hash)
}

/// Outcome seed of a crash round: the first four server-seed elements, not
/// hashed. Crash has no per-bet user entropy.
pub fn random_crash(server_seed: [u64; 8]) -> (r: [u64; 4])
    ensures
        r == random_crash_of(server_seed),
{
    let random = [server_seed[0], server_seed[1], server_seed[2], server_seed[3]];
    assert(random =~= random_crash_of(server_seed));
    random
}

/// Seed commitment: the first three of the four digest elements of the server
/// seed.
pub fn seed_hash_truncated<H: Fn(&[u64]) -> [u64; 4]>(server_seed: [u64; 8], hash: &H) -> (r: [u64;
    3])
    requires
        is_sponge(hash),
        field::canonical(server_seed@),
    ensures
        field::canonical(r@),
        forall|f: Sponge| #[trigger] computes(hash, f) ==> r == seed_hash_of(f, server_seed),
{
    let d = poseidon2(&server_seed, hash);
    let commitment = [d[0], d[1], d[2]];
    assert forall|f: Sponge| #[trigger] computes(hash, f) implies commitment == seed_hash_of(
        f,
        server_seed,
    ) by {
        assert(commitment =~= seed_hash_of(f, server_seed));
    }
    commitment
}

/// User-seed binding, 10 elements: game, bet, prediction hash and the user's
/// secret, so that none of them can be swapped once the user has signed.
pub fn user_seed_binding<H: Fn(&[u64]) -> [u64; 4]>(
    game_id: u64,
    bet_full: u64,
    prediction_hash: [u64; 4],
    user_secret: [u64; 4],
    hash: &H,
) -> (r: [u64; 4])
    requires
        is_sponge(hash),
        game_id < GOLDILOCKS_P,
        bet_full < GOLDILOCKS_P,
        field::canonical(prediction_hash@),
        field::canonical(user_secret@),
    ensures
        field::canonical(r@),
        forall|f: Sponge| #[trigger]
            computes(hash, f) ==> r == user_seed_of(
                f,
                game_id,
                bet_full,
                prediction_hash,
                user_secret,
            ),
{
    let preimage = [
        game_id,
        bet_full,
        prediction_hash[0],
        prediction_hash[1],
        prediction_hash[2],
        prediction_hash[3],
        user_secret[0],
        user_secret[1],
        user_secret[2],
        user_secret[3],
    ];
    assert(preimage@ =~= seq![game_id, bet_full] + prediction_hash@ + user_secret@);
    poseidon2(&preimage, hash)
}

/// Slot multiset commitment, 11 elements: outcome seed, bet, win, game and
/// prediction hash. The payout side produces the same value for the same entry.
pub fn slot_h<H: Fn(&[u64]) -> [u64; 4]>(
    random: [u64; 4],
    bet_full: u64,
    win_full: u64,
    game_id: u64,
    prediction_hash: [u64; 4],
    hash: &H,
) -> (r: [u64; 4])
    requires
        is_sponge(hash),
        field::canonical(random@),
        bet_full < GOLDILOCKS_P,
        win_full < GOLDILOCKS_P,
        game_id < GOLDILOCKS_P,
        field::canonical(prediction_hash@),
    ensures
        field::canonical(r@),
        forall|f: Sponge| #[trigger]
            computes(hash, f) ==> r == slot_h_of(
                f,
                random,
                bet_full,
                win_full,
                game_id,
                prediction_hash,
            ),
{
    let preimage = [
        random[0],
        random[1],
        random[2],
        random[3],
        bet_full,
        win_full,
        game_id,
        prediction_hash[0],
        prediction_hash[1],
        prediction_hash[2],
        prediction_hash[3],
    ];
    assert(preimage@ =~= random@ + seq![bet_full, win_full, game_id] + prediction_hash@);
    poseidon2(&preimage, hash)
}

/// Standard prediction hash, 4 elements: the game and its three parameters.
pub fn prediction_hash_standard<H: Fn(&[u64]) -> [u64; 4]>(
    game_id: u64,
    p0: u64,
    p1: u64,
    p2: u64,
    hash: &H,
) -> (r: [u64; 4])
    requires
        is_sponge(hash),
        game_id < GOLDILOCKS_P,
        p0 < GOLDILOCKS_P,
        p1 < GOLDILOCKS_P,
        p2 < GOLDILOCKS_P,
    ensures
        field::canonical(r@),
        forall|f: Sponge| #[trigger]
            computes(hash, f) ==> r == prediction_of(f, game_id, p0, p1, p2),
{
    let preimage = [game_id, p0, p1, p2];
    assert(preimage@ =~= seq![game_id, p0, p1, p2]);
    poseidon2(&preimage, hash)
}

/// Keno prediction hash, 13 elements: game, risk, number of picks and the first
/// ten picks, with zeros in the unused places. Callers pass the picks in
/// ascending order.
pub fn prediction_hash_keno<H: Fn(&[u64]) -> [u64; 4]>(
    game_id: u64,
    risk: u64,
    pick_count: u64,
    selected: &[u8],
    hash: &H,
) -> (r: [u64; 4])
    requires
        is_sponge(hash),
        game_id < GOLDILOCKS_P,
        risk < GOLDILOCKS_P,
        pick_count < GOLDILOCKS_P,
    ensures
        field::canonical(r@),
        forall|f: Sponge| #[trigger]
            computes(hash, f) ==> r == keno_prediction_of(
                f,
                game_id,
                risk,
                pick_count,
                selected@,
            ),
{
    let mut preimage: Vec<u64> = Vec::with_capacity(13);
    preimage.push(game_id);
    preimage.push(risk);
    preimage.push(pick_count);
    let ghost head = seq![game_id, risk, pick_count];
    let ghost picks = Seq::new(
        10,
        |i: int|
            if i < selected@.len() {
                selected@[i] as u64
            } else {
                0
            },
    );
    assert(preimage@ =~= head + picks.take(0));
    let mut i: usize = 0;
    while i < 10
        invariant
            i <= 10,
            picks.len() == 10,
            head.len() == 3,
            forall|j: int|
                0 <= j < 10 ==> #[trigger] picks[j] == if j < selected@.len() {
                    selected@[j] as u64
                } else {
                    0
                },
            preimage@ == head + picks.take(i as int),
        decreases 10 - i,
    {
        if i < selected.len() {
            preimage.push(selected[i] as u64);
        } else {
            preimage.push(0);
        }
        assert(preimage@ =~= head + picks.take(i as int + 1));
        i += 1;
    }
    assert(picks.take(10) =~= picks);
    assert(forall|j: int| 0 <= j < 10 ==> #[trigger] picks[j] < GOLDILOCKS_P);
    poseidon2(preimage.as_slice(), hash)
}

} // verus!
