//! What a root commits to.
//!
//! A digest binds its preimage only as far as nobody finds two preimages with
//! one digest. The laws here say so without an appeal to hardness: from two
//! different accounts, or two different paths, under one root they name a pair
//! of preimages that collide.
use crate::field;
use crate::hash;
use crate::merkle;
use crate::merkle::TREE_DEPTH;
use crate::slot::AccountState;
use crate::validate;
use vstd::prelude::*;

verus! {

/// Two preimages with one digest.
pub open spec fn collides(f: hash::Sponge, pair: (Seq<u64>, Seq<u64>)) -> bool {
    pair.0 != pair.1 && f(pair.0) == f(pair.1)
}

/// The two accounts have one leaf: they agree in everything but the elements of
/// the key and address hashes that the leaf leaves out.
pub open spec fn same_leaf(a: AccountState, b: AccountState) -> bool {
    &&& a.balance == b.balance
    &&& a.seed_hash == b.seed_hash
    &&& a.credit == b.credit
    &&& a.nonce == b.nonce
    &&& a.allowance == b.allowance
    &&& a.pk_hash[0] == b.pk_hash[0] && a.pk_hash[1] == b.pk_hash[1]
    &&& a.address_hash[0] == b.address_hash[0] && a.address_hash[1] == b.address_hash[1]
}

/// The elements hashed into the node above `node`.
pub open spec fn parent_preimage(node: [u64; 4], sibling: [u64; 4], is_right: bool) -> Seq<u64> {
    if is_right {
        sibling@ + node@
    } else {
        node@ + sibling@
    }
}

/// The first level at which two paths hash different elements to one node.
pub open spec fn path_collision(
    f: hash::Sponge,
    a: [u64; 4],
    s: Seq<[u64; 4]>,
    b: [u64; 4],
    t: Seq<[u64; 4]>,
    index: nat,
) -> (Seq<u64>, Seq<u64>)
    decreases s.len(),
{
    if s.len() == 0 {
        (Seq::empty(), Seq::empty())
    } else {
        let x = parent_preimage(a, s[0], index % 2 == 1);
        let y = parent_preimage(b, t[0], index % 2 == 1);
        if collides(f, (x, y)) {
            (x, y)
        } else {
            path_collision(f, f(x), s.drop_first(), f(y), t.drop_first(), index / 2)
        }
    }
}

/// Where two accounts under one root collide: in the balance leaf, in the main
/// leaf or on the path.
pub open spec fn account_collision(
    f: hash::Sponge,
    a: AccountState,
    s: [[u64; 4]; TREE_DEPTH],
    b: AccountState,
    t: [[u64; 4]; TREE_DEPTH],
    user_id: u32,
) -> (Seq<u64>, Seq<u64>) {
    let x = hash::balance_preimage(a.balance, a.seed_hash, a.credit, a.nonce, a.allowance);
    let y = hash::balance_preimage(b.balance, b.seed_hash, b.credit, b.nonce, b.allowance);
    let u = hash::main_preimage(f(x), a.pk_hash, a.address_hash);
    let v = hash::main_preimage(f(y), b.pk_hash, b.address_hash);
    if collides(f, (x, y)) {
        (x, y)
    } else if collides(f, (u, v)) {
        (u, v)
    } else {
        path_collision(f, f(u), s@, f(v), t@, user_id as nat)
    }
}

/// The two leading fields of a balance leaf determine the balance and the
/// allowance: packing loses nothing.
pub proof fn law_unpacking_undoes_packing(balance: u64, allowance: u64)
    requires
        allowance <= field::PROVIDER_ALLOWANCE_MAX,
    ensures
        field::unpacked_balance(field::packed_fields(balance, allowance)) == balance,
        field::unpacked_allowance(field::packed_fields(balance, allowance)) == allowance,
        field::packed_fields(balance, allowance)[0] < 0x8000_0000_0000_0000,
        field::packed_fields(balance, allowance)[1] < 0x8000_0000_0000_0000,
{
    lemma_half_above_limb((allowance % 0x8000_0000) as u64, field::limb_lo(balance));
    lemma_half_above_limb((allowance / 0x8000_0000) as u64, field::limb_hi(balance));
}

/// A half and a limb can be read back from the field that packs them.
proof fn lemma_half_above_limb(half: u64, limb: u64)
    requires
        half < 0x8000_0000,
        limb < 0x1_0000_0000,
    ensures
        half * 0x1_0000_0000 + limb < 0x8000_0000_0000_0000,
        field::limb_lo((half * 0x1_0000_0000 + limb) as u64) == limb,
        field::limb_hi((half * 0x1_0000_0000 + limb) as u64) == half,
{
}

/// Every pair of fields below `2^63` is the packing of the balance and the
/// allowance that it unpacks to.
pub proof fn law_packing_undoes_unpacking(fields: [u64; 2])
    requires
        fields[0] < 0x8000_0000_0000_0000,
        fields[1] < 0x8000_0000_0000_0000,
    ensures
        field::unpacked_allowance(fields) <= field::PROVIDER_ALLOWANCE_MAX,
        field::packed_fields(field::unpacked_balance(fields), field::unpacked_allowance(fields))
            == fields,
{
    let packed = field::packed_fields(
        field::unpacked_balance(fields),
        field::unpacked_allowance(fields),
    );
    assert(packed =~= fields);
}

/// Without an allowance the two leading fields are the bare balance limbs.
pub proof fn law_no_allowance_leaves_bare_limbs(balance: u64)
    ensures
        field::packed_fields(balance, 0) == [field::limb_lo(balance), field::limb_hi(balance)],
{
    assert(field::packed_fields(balance, 0) =~= [
        field::limb_lo(balance),
        field::limb_hi(balance),
    ]);
}

/// Every part of the balance leaf takes part in its preimage: two accounts with
/// one preimage have the same balance, seed hash, credit, nonce and allowance.
pub proof fn law_balance_preimage_is_injective(a: AccountState, b: AccountState)
    requires
        a.allowance <= field::PROVIDER_ALLOWANCE_MAX,
        b.allowance <= field::PROVIDER_ALLOWANCE_MAX,
        hash::balance_preimage(a.balance, a.seed_hash, a.credit, a.nonce, a.allowance)
            == hash::balance_preimage(b.balance, b.seed_hash, b.credit, b.nonce, b.allowance),
    ensures
        a.balance == b.balance,
        a.seed_hash == b.seed_hash,
        a.credit == b.credit,
        a.nonce == b.nonce,
        a.allowance == b.allowance,
{
    let x = hash::balance_preimage(a.balance, a.seed_hash, a.credit, a.nonce, a.allowance);
    let y = hash::balance_preimage(b.balance, b.seed_hash, b.credit, b.nonce, b.allowance);
    let p = field::packed_fields(a.balance, a.allowance);
    let q = field::packed_fields(b.balance, b.allowance);
    assert(x[0] == y[0] && x[1] == y[1] && x[2] == y[2] && x[3] == y[3] && x[4] == y[4]);
    assert(x[5] == y[5] && x[6] == y[6] && x[7] == y[7]);
    assert(p =~= q);
    law_unpacking_undoes_packing(a.balance, a.allowance);
    law_unpacking_undoes_packing(b.balance, b.allowance);
    assert(a.seed_hash =~= b.seed_hash);
}

/// The leaf ignores the last two elements of the key hash and of the address
/// hash, and nothing else: main leaves have one preimage iff the balance hashes
/// and the first two elements of both other hashes agree.
pub proof fn law_main_leaf_truncates(
    balance_a: [u64; 4],
    pk_a: [u64; 4],
    address_a: [u64; 4],
    balance_b: [u64; 4],
    pk_b: [u64; 4],
    address_b: [u64; 4],
)
    ensures
        hash::main_preimage(balance_a, pk_a, address_a) == hash::main_preimage(
            balance_b,
            pk_b,
            address_b,
        ) <==> {
            &&& balance_a == balance_b
            &&& pk_a[0] == pk_b[0] && pk_a[1] == pk_b[1]
            &&& address_a[0] == address_b[0] && address_a[1] == address_b[1]
        },
{
    let u = hash::main_preimage(balance_a, pk_a, address_a);
    let v = hash::main_preimage(balance_b, pk_b, address_b);
    if u == v {
        assert forall|i: int| 0 <= i < 4 implies balance_a[i] == balance_b[i] by {
            assert(u[i] == balance_a[i] && v[i] == balance_b[i]);
        }
        assert(balance_a =~= balance_b);
        assert(u[4] == pk_a[0] && v[4] == pk_b[0] && u[5] == pk_a[1] && v[5] == pk_b[1]);
        assert(u[6] == address_a[0] && v[6] == address_b[0]);
        assert(u[7] == address_a[1] && v[7] == address_b[1]);
    }
    if balance_a == balance_b && pk_a[0] == pk_b[0] && pk_a[1] == pk_b[1] && address_a[0]
        == address_b[0] && address_a[1] == address_b[1] {
        assert(u =~= v);
    }
}

/// Two nodes hash the same elements into their parents only if they and their
/// siblings agree.
proof fn lemma_parent_preimage_is_injective(
    a: [u64; 4],
    s: [u64; 4],
    b: [u64; 4],
    t: [u64; 4],
    is_right: bool,
)
    requires
        parent_preimage(a, s, is_right) == parent_preimage(b, t, is_right),
    ensures
        a == b,
        s == t,
{
    let x = parent_preimage(a, s, is_right);
    let y = parent_preimage(b, t, is_right);
    if is_right {
        assert(x.take(4) =~= s@ && x.skip(4) =~= a@);
        assert(y.take(4) =~= t@ && y.skip(4) =~= b@);
    } else {
        assert(x.take(4) =~= a@ && x.skip(4) =~= s@);
        assert(y.take(4) =~= b@ && y.skip(4) =~= t@);
    }
    assert forall|i: int| 0 <= i < 4 implies a[i] == b[i] && s[i] == t[i] by {
        assert(a@[i] == b@[i] && s@[i] == t@[i]);
    }
    assert(a =~= b);
    assert(s =~= t);
}

/// A path binds: two different paths of one leaf index under one root name a
/// collision.
pub proof fn law_path_binds(
    f: hash::Sponge,
    a: [u64; 4],
    s: Seq<[u64; 4]>,
    b: [u64; 4],
    t: Seq<[u64; 4]>,
    index: nat,
)
    requires
        s.len() == t.len(),
        merkle::root_above(f, a, s, index) == merkle::root_above(f, b, t, index),
        a != b || s != t,
    ensures
        collides(f, path_collision(f, a, s, b, t, index)),
    decreases s.len(),
{
    if s.len() == 0 {
        assert(s =~= t);
    } else {
        let is_right = index % 2 == 1;
        let x = parent_preimage(a, s[0], is_right);
        let y = parent_preimage(b, t[0], is_right);
        if !collides(f, (x, y)) {
            if x == y {
                lemma_parent_preimage_is_injective(a, s[0], b, t[0], is_right);
                if s.drop_first() == t.drop_first() {
                    assert forall|i: int| 0 <= i < s.len() implies s[i] == t[i] by {
                        if i > 0 {
                            assert(s.drop_first()[i - 1] == t.drop_first()[i - 1]);
                        }
                    }
                    assert(s =~= t);
                }
            }
            assert(merkle::parent_of(f, a, s[0], is_right) == f(x));
            assert(merkle::parent_of(f, b, t[0], is_right) == f(y));
            law_path_binds(f, f(x), s.drop_first(), f(y), t.drop_first(), index / 2);
        }
    }
}

/// A root binds the account under it: two accounts with different leaves, or two
/// different paths, at one user id under one root name a collision.
pub proof fn law_root_binds_account(
    f: hash::Sponge,
    a: AccountState,
    s: [[u64; 4]; TREE_DEPTH],
    b: AccountState,
    t: [[u64; 4]; TREE_DEPTH],
    user_id: u32,
)
    requires
        a.allowance <= field::PROVIDER_ALLOWANCE_MAX,
        b.allowance <= field::PROVIDER_ALLOWANCE_MAX,
        validate::state_root(f, a, s, user_id) == validate::state_root(f, b, t, user_id),
        !same_leaf(a, b) || s != t,
    ensures
        collides(f, account_collision(f, a, s, b, t, user_id)),
{
    let x = hash::balance_preimage(a.balance, a.seed_hash, a.credit, a.nonce, a.allowance);
    let y = hash::balance_preimage(b.balance, b.seed_hash, b.credit, b.nonce, b.allowance);
    let u = hash::main_preimage(f(x), a.pk_hash, a.address_hash);
    let v = hash::main_preimage(f(y), b.pk_hash, b.address_hash);
    if !collides(f, (x, y)) && !collides(f, (u, v)) {
        if f(u) == f(v) {
            law_main_leaf_truncates(
                f(x),
                a.pk_hash,
                a.address_hash,
                f(y),
                b.pk_hash,
                b.address_hash,
            );
            law_balance_preimage_is_injective(a, b);
            assert(same_leaf(a, b));
        }
        if s@ == t@ {
            assert forall|i: int| 0 <= i < TREE_DEPTH implies s[i] == t[i] by {
                assert(s@[i] == t@[i]);
            }
            assert(s =~= t);
        }
        law_path_binds(f, f(u), s@, f(v), t@, user_id as nat);
    }
}

/// A leaf with nonce zero and no provider allowance is the leaf of seven elements
/// without nonce: the digest over the bare balance limbs, the seed hash and the
/// credit limbs. This holds of every sponge to which an eighth element of zero
/// after seven makes no difference, as with one that absorbs eight elements at a
/// time into a state that starts as zero.
pub proof fn law_zero_nonce_leaves_seven_elements(
    f: hash::Sponge,
    balance: u64,
    seed_hash: [u64; 3],
    credit: u64,
)
    requires
        forall|s: Seq<u64>| s.len() == 7 ==> #[trigger] f(s.push(0)) == f(s),
    ensures
        hash::balance_leaf_of(f, balance, seed_hash, credit, 0, 0) == f(
            seq![
                field::limb_lo(balance),
                field::limb_hi(balance),
                seed_hash[0],
                seed_hash[1],
                seed_hash[2],
                field::limb_lo(credit),
                field::limb_hi(credit),
            ],
        ),
{
    let seven = seq![
        field::limb_lo(balance),
        field::limb_hi(balance),
        seed_hash[0],
        seed_hash[1],
        seed_hash[2],
        field::limb_lo(credit),
        field::limb_hi(credit),
    ];
    law_no_allowance_leaves_bare_limbs(balance);
    assert(hash::balance_preimage(balance, seed_hash, credit, 0, 0) =~= seven.push(0));
}

} // verus!
