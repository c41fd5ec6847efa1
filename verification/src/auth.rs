//! Which slots a user signs, and under which nonce lane.
//!
//! Signatures are verified elsewhere. What can be checked here is that every
//! signed operation references an account with a registered key. Provider bets
//! are authorized by the operator, key registrations by a separate registration
//! chain; neither is signed by the account's key.
use crate::field;
use crate::field::all_zero;
use crate::flags::TxFlags;
use crate::slot::{SlotInput, SlotRejection};
use vstd::prelude::*;

verus! {

/// Authentication of one slot. At most one lane is set for a decoded type, none
/// for an unsigned one.
#[derive(Clone, Copy, Debug, PartialEq, Eq, Structural)]
pub struct AuthDecode {
    /// The slot is signed by the account's key.
    pub is_authenticated: bool,
    /// Signed under, and bumps, the account lane.
    pub is_account_lane: bool,
    /// Signed under, and bumps, the game lane.
    pub is_game_lane: bool,
}

impl Default for AuthDecode {
    /// An unsigned slot.
    fn default() -> (r: Self)
        ensures
            !r.is_authenticated,
            !r.is_account_lane,
            !r.is_game_lane,
    {
        AuthDecode { is_authenticated: false, is_account_lane: false, is_game_lane: false }
    }
}

/// The authentication of the slot, or its rejection for want of a key.
pub open spec fn auth_of(input: SlotInput, flags: TxFlags) -> Result<AuthDecode, SlotRejection> {
    let signed = flags.signs_game_lane() || flags.signs_account_lane();
    if signed && field::zeros(input.old_pk_hash@) {
        Err(SlotRejection::SignedWithoutPk)
    } else {
        Ok(
            AuthDecode {
                is_authenticated: signed,
                is_account_lane: flags.signs_account_lane(),
                is_game_lane: flags.signs_game_lane(),
            },
        )
    }
}

/// Decode whether the slot is signed and under which lane, and reject a signed
/// slot on an account without a registered key.
pub fn check_auth(input: &SlotInput, flags: &TxFlags) -> (r: Result<AuthDecode, SlotRejection>)
    ensures
        r == auth_of(*input, *flags),
{
    let is_game_lane = flags.is_game_lane();
    let is_account_lane = flags.is_withdrawal || flags.is_transfer;
    let is_authenticated = is_game_lane || is_account_lane;
    if is_authenticated && all_zero(&input.old_pk_hash) {
        return Err(SlotRejection::SignedWithoutPk);
    }
    Ok(AuthDecode { is_authenticated, is_account_lane, is_game_lane })
}

} // verus!
