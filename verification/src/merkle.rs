//! Root recomputation of the sparse Merkle account tree.
use crate::field;
use crate::hash;
use crate::hash::{main_leaf, two_to_one};
use vstd::prelude::*;

verus! {

/// Depth of the sparse Merkle tree. A user id indexes one of `2^28` leaves.
pub const TREE_DEPTH: usize = 28;

/// Every node of an authentication path is canonical.
pub open spec fn canonical_path(siblings: Seq<[u64; 4]>) -> bool {
    forall|l: int| 0 <= l < siblings.len() ==> field::canonical(#[trigger] siblings[l]@)
}

/// The node above `node`, which is a right child iff `is_right`.
pub open spec fn parent_of(
    f: hash::Sponge,
    node: [u64; 4],
    sibling: [u64; 4],
    is_right: bool,
) -> [u64; 4] {
    if is_right {
        hash::node_of(f, sibling, node)
    } else {
        hash::node_of(f, node, sibling)
    }
}

/// The root above `node`: the siblings are consumed from the leaf upwards, and
/// the path turns right at a level whose bit of `index` is set, lowest bit first.
pub open spec fn root_above(
    f: hash::Sponge,
    node: [u64; 4],
    siblings: Seq<[u64; 4]>,
    index: nat,
) -> [u64; 4]
    decreases siblings.len(),
{
    if siblings.len() == 0 {
        node
    } else {
        root_above(
            f,
            parent_of(f, node, siblings[0], index % 2 == 1),
            siblings.drop_first(),
            index / 2,
        )
    }
}

/// The root of a tree in which leaf `user_id` holds this account.
pub open spec fn account_root(
    f: hash::Sponge,
    balance_hash: [u64; 4],
    pk_hash: [u64; 4],
    address_hash: [u64; 4],
    siblings: [[u64; 4]; TREE_DEPTH],
    user_id: u32,
) -> [u64; 4] {
    root_above(
        f,
        hash::main_leaf_of(f, balance_hash, pk_hash, address_hash),
        siblings@,
        user_id as nat,
    )
}

/// Lift a main leaf to the root along `user_id`'s authentication path.
pub fn root_from_leaf<H: Fn(&[u64]) -> [u64; 4]>(
    leaf: [u64; 4],
    siblings: &[[u64; 4]; TREE_DEPTH],
    user_id: u32,
    hash: &H,
) -> (r: [u64; 4])
    requires
        hash::is_sponge(hash),
        field::canonical(leaf@),
        canonical_path(siblings@),
    ensures
        field::canonical(r@),
        forall|f: hash::Sponge| #[trigger]
            hash::computes(hash, f) ==> r == root_above(f, leaf, siblings@, user_id as nat),
{
    let mut current = leaf;
    let mut index: u32 = user_id;
    let mut level: usize = 0;
    assert(siblings@.skip(0) =~= siblings@);
    while level < TREE_DEPTH
        invariant
            level <= TREE_DEPTH,
            hash::is_sponge(hash),
            field::canonical(current@),
            canonical_path(siblings@),
            forall|f: hash::Sponge| #[trigger]
                hash::computes(hash, f) ==> root_above(f, leaf, siblings@, user_id as nat)
                    == root_above(f, current, siblings@.skip(level as int), index as nat),
        decreases TREE_DEPTH - level,
    {
        let ghost before = current;
        let ghost rest = siblings@.skip(level as int);
        let sibling = siblings[level];
        assert(field::canonical(siblings@[level as int]@));
        let bit = index & 1 == 1;
        let (left, right) = if bit {
            (sibling, current)
        } else {
            (current, sibling)
        };
        current = two_to_one(left, right, hash);
        proof {
            assert(index & 1 == index % 2) by (bit_vector);
            assert(rest[0] == sibling);
            assert(rest.drop_first() =~= siblings@.skip(level as int + 1));
            assert forall|f: hash::Sponge| #[trigger]
                hash::computes(hash, f) implies root_above(f, leaf, siblings@, user_id as nat)
                == root_above(f, current, siblings@.skip(level as int + 1), (index / 2) as nat) by {
                assert(current == parent_of(f, before, sibling, index % 2 == 1));
            }
            assert(index >> 1 == index / 2) by (bit_vector);
        }
        index = index >> 1;
        level += 1;
    }
    assert(siblings@.skip(TREE_DEPTH as int).len() == 0);
    current
}

/// Recompute the root for an account from its balance hash, key hash and
/// address hash. It authenticates the old leaf and derives the new root alike.
pub fn compute_root<H: Fn(&[u64]) -> [u64; 4]>(
    balance_hash: [u64; 4],
    pk_hash: [u64; 4],
    address_hash: [u64; 4],
    siblings: &[[u64; 4]; TREE_DEPTH],
    user_id: u32,
    hash: &H,
) -> (r: [u64; 4])
    requires
        hash::is_sponge(hash),
        field::canonical(balance_hash@),
        field::canonical(pk_hash@.take(2)),
        field::canonical(address_hash@.take(2)),
        canonical_path(siblings@),
    ensures
        field::canonical(r@),
        forall|f: hash::Sponge| #[trigger]
            hash::computes(hash, f) ==> r == account_root(
                f,
                balance_hash,
                pk_hash,
                address_hash,
                *siblings,
                user_id,
            ),
{
    let leaf = main_leaf(balance_hash, pk_hash, address_hash, hash);
    root_from_leaf(leaf, siblings, user_id, hash)
}

} // verus!
