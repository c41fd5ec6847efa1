//! Key and address of an account.
//!
//! A key registration that carries a key installs it; every other slot keeps the
//! old one. The address is stamped once, by the first deposit or the first key
//! registration, and never changes afterwards: a redeposit has to name the same
//! address, so funds cannot be routed to another one.
//!
//! A withdrawal pays `user_address`, and the user signs a truncated hash of the
//! address to be paid. The two have to agree; on a slot that pays no one the
//! signed hash is zero.
use crate::field;
use crate::field::{all_zero, same_limbs};
use crate::flags::TxFlags;
use crate::hash;
use crate::hash::address_hash;
use crate::slot::{SlotInput, SlotRejection, TX_WITHDRAWAL};
use vstd::prelude::*;

verus! {

/// Key and address after the slot.
#[derive(Clone, Copy, Debug)]
pub struct AddressEffects {
    pub new_pk_hash: [u64; 4],
    pub new_address_hash: [u64; 4],
    /// The slot installs or rotates a key.
    pub is_key_setter: bool,
}

/// The slot is a key registration that supplies a key.
pub open spec fn sets_key(input: SlotInput, flags: TxFlags) -> bool {
    flags.is_key_register_only && !field::zeros(input.new_pk_hash@)
}

/// The slot stamps the address: a deposit or a key install on an account that
/// has none.
pub open spec fn sets_address(input: SlotInput, flags: TxFlags) -> bool {
    (flags.is_deposit || sets_key(input, flags)) && field::zeros(input.old_address_hash@)
}

/// Key and address after the slot, or the rejection of a misrouted redeposit.
pub open spec fn identity_after(f: hash::Sponge, input: SlotInput, flags: TxFlags) -> Result<
    AddressEffects,
    SlotRejection,
> {
    if flags.is_deposit && !field::zeros(input.old_address_hash@) && hash::address_hash_of(
        f,
        input.user_address,
    ) != input.old_address_hash {
        Err(SlotRejection::AddressHashMismatch)
    } else {
        Ok(
            AddressEffects {
                new_pk_hash: if sets_key(input, flags) {
                    input.new_pk_hash
                } else {
                    input.old_pk_hash
                },
                new_address_hash: if sets_address(input, flags) {
                    hash::address_hash_of(f, input.user_address)
                } else {
                    input.old_address_hash
                },
                is_key_setter: sets_key(input, flags),
            },
        )
    }
}

/// The payout counterparty that a slot signs: the truncated hash of the address
/// a withdrawal pays, zero for a slot that pays no one.
pub open spec fn recipient_of(f: hash::Sponge, pays: bool, user_address: [u8; 20]) -> [u64; 2] {
    if pays {
        let d = hash::address_hash_of(f, user_address);
        [d[0], d[1]]
    } else {
        [0, 0]
    }
}

/// Resolve key and address after the slot and check a redeposit's address.
///
/// All four hash elements are kept; only the leaf truncates them.
pub fn build_address<H: Fn(&[u64]) -> [u64; 4]>(
    input: &SlotInput,
    flags: &TxFlags,
    hash: &H,
) -> (r: Result<AddressEffects, SlotRejection>)
    requires
        hash::is_sponge(hash),
    ensures
        forall|f: hash::Sponge| #[trigger]
            hash::computes(hash, f) ==> r == identity_after(f, *input, *flags),
        r matches Ok(e) ==> (field::canonical(input.old_pk_hash@) && field::canonical(
            input.new_pk_hash@,
        ) ==> field::canonical(e.new_pk_hash@)),
        r matches Ok(e) ==> (field::canonical(input.old_address_hash@) ==> field::canonical(
            e.new_address_hash@,
        )),
        r matches Ok(e) ==> e.is_key_setter == sets_key(*input, *flags),
        r matches Ok(e) ==> e.new_pk_hash == if sets_key(*input, *flags) {
            input.new_pk_hash
        } else {
            input.old_pk_hash
        },
        r matches Err(e) ==> e == SlotRejection::AddressHashMismatch,
{
    let is_new_pk_provided = !all_zero(&input.new_pk_hash);
    let is_key_setter = flags.is_key_register_only && is_new_pk_provided;
    let new_pk_hash = if is_key_setter {
        input.new_pk_hash
    } else {
        input.old_pk_hash
    };

    let is_addr_all_zero = all_zero(&input.old_address_hash);
    let is_address_setter = (flags.is_deposit || is_key_setter) && is_addr_all_zero;
    let is_dep_redeposit = flags.is_deposit && !is_addr_all_zero;

    let new_address_hash = if is_address_setter {
        address_hash(input.user_address, hash)
    } else if is_dep_redeposit {
        let computed = address_hash(input.user_address, hash);
        if !same_limbs(&computed, &input.old_address_hash) {
            return Err(SlotRejection::AddressHashMismatch);
        }
        input.old_address_hash
    } else {
        input.old_address_hash
    };

    Ok(AddressEffects { new_pk_hash, new_address_hash, is_key_setter })
}

/// The signed payout counterparty that a slot of `tx_type` paying `user_address`
/// has to carry.
pub fn recipient_addr_hash_for<H: Fn(&[u64]) -> [u64; 4]>(
    tx_type: u8,
    user_address: [u8; 20],
    hash: &H,
) -> (r: [u64; 2])
    requires
        hash::is_sponge(hash),
    ensures
        field::canonical(r@),
        forall|f: hash::Sponge| #[trigger]
            hash::computes(hash, f) ==> r == recipient_of(
                f,
                tx_type == TX_WITHDRAWAL,
                user_address,
            ),
{
    recipient_hash(tx_type == TX_WITHDRAWAL, user_address, hash)
}

/// The counterparty of a slot, by whether it pays `user_address`.
fn recipient_hash<H: Fn(&[u64]) -> [u64; 4]>(
    pays: bool,
    user_address: [u8; 20],
    hash: &H,
) -> (r: [u64; 2])
    requires
        hash::is_sponge(hash),
    ensures
        field::canonical(r@),
        forall|f: hash::Sponge| #[trigger]
            hash::computes(hash, f) ==> r == recipient_of(f, pays, user_address),
{
    let recipient = if pays {
        let d = address_hash(user_address, hash);
        [d[0], d[1]]
    } else {
        [0, 0]
    };
    assert forall|f: hash::Sponge| #[trigger]
        hash::computes(hash, f) implies recipient == recipient_of(f, pays, user_address) by {
        assert(recipient =~= recipient_of(f, pays, user_address));
    }
    recipient
}

/// Check that the signed payout counterparty is the address the slot pays, and
/// zero on a slot that pays no one.
pub fn check_recipient_binding<H: Fn(&[u64]) -> [u64; 4]>(
    input: &SlotInput,
    flags: &TxFlags,
    hash: &H,
) -> (r: Result<(), SlotRejection>)
    requires
        hash::is_sponge(hash),
    ensures
        r is Ok || r == Err::<(), SlotRejection>(SlotRejection::RecipientAddrHashMismatch),
        forall|f: hash::Sponge| #[trigger]
            hash::computes(hash, f) ==> (r is Ok <==> input.recipient_addr_hash == recipient_of(
                f,
                flags.is_withdrawal,
                input.user_address,
            )),
{
    let expected = recipient_hash(flags.is_withdrawal, input.user_address, hash);
    if same_limbs(&expected, &input.recipient_addr_hash) {
        Ok(())
    } else {
        Err(SlotRejection::RecipientAddrHashMismatch)
    }
}

} // verus!
