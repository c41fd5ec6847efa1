//! The two-lane anti-replay nonce.
//!
//! `nonce = account_lane * 2^40 + game_lane`. Bets, crash settlements and
//! allowance changes sign and bump the game lane; withdrawals, transfers and key
//! registrations the account lane. A bet that lands while a withdrawal awaits
//! approval therefore cannot stale the withdrawal's signature. The account lane
//! has 23 bits, so a packed nonce stays below `2^63 < p`.
use crate::flags::TxFlags;
use crate::slot::SlotRejection;
use vstd::prelude::*;

verus! {

/// Width of the game lane, bits `0..40`.
pub const GAME_LANE_BITS: u32 = 40;

/// Width of the account lane, bits `40..63`.
pub const ACCOUNT_LANE_BITS: u32 = 23;

/// Highest storable game-lane value, `2^40 - 1`.
pub const GAME_LANE_MAX: u64 = 0xFF_FFFF_FFFF;

/// Highest storable account-lane value, `2^23 - 1`.
pub const ACCOUNT_LANE_MAX: u64 = 0x7F_FFFF;

/// Weight of one account-lane step in the packed nonce, `2^40`.
pub const ACCOUNT_LANE_UNIT: u64 = 0x100_0000_0000;

/// First value that no two lanes pack to, `2^63`.
pub const NONCE_LIMIT: u64 = 0x8000_0000_0000_0000;

/// Account lane of a packed nonce.
pub open spec fn account_lane(nonce: u64) -> u64 {
    (nonce / ACCOUNT_LANE_UNIT) as u64
}

/// Game lane of a packed nonce.
pub open spec fn game_lane(nonce: u64) -> u64 {
    (nonce % ACCOUNT_LANE_UNIT) as u64
}

/// The nonce after a slot that bumps these lanes. A bump never carries: a lane
/// at its ceiling refuses it.
pub open spec fn advanced(nonce: u64, bumps_game: bool, bumps_account: bool) -> Result<
    u64,
    SlotRejection,
> {
    if nonce >= NONCE_LIMIT || (bumps_game && game_lane(nonce) == GAME_LANE_MAX) || (bumps_account
        && account_lane(nonce) == ACCOUNT_LANE_MAX) {
        Err(SlotRejection::NonceLaneOverflow)
    } else {
        Ok(
            (nonce + if bumps_game {
                1int
            } else {
                0
            } + if bumps_account {
                ACCOUNT_LANE_UNIT as int
            } else {
                0
            }) as u64,
        )
    }
}

/// Decompose a packed nonce into `(account_lane, game_lane)`.
pub fn split_nonce(nonce: u64) -> (r: (u64, u64))
    ensures
        r.0 == account_lane(nonce),
        r.1 == game_lane(nonce),
{
    assert(nonce >> 40 == nonce / 0x100_0000_0000) by (bit_vector);
    assert(nonce & 0xFF_FFFF_FFFF == nonce % 0x100_0000_0000) by (bit_vector);
    (nonce >> GAME_LANE_BITS, nonce & GAME_LANE_MAX)
}

/// Pack two lanes, each within its width.
pub fn join_nonce(account_lane: u64, game_lane: u64) -> (r: u64)
    requires
        account_lane <= ACCOUNT_LANE_MAX,
        game_lane <= GAME_LANE_MAX,
    ensures
        r == account_lane * ACCOUNT_LANE_UNIT + game_lane,
        r < NONCE_LIMIT,
{
    assert((account_lane << 40) | game_lane == account_lane * 0x100_0000_0000 + game_lane)
        by (bit_vector)
        requires
            account_lane <= 0x7F_FFFFu64,
            game_lane <= 0xFF_FFFF_FFFFu64,
    ;
    (account_lane << GAME_LANE_BITS) | game_lane
}

/// Advance the nonce by the lanes that a slot bumps. A lane at its ceiling, or a
/// nonce outside the 63-bit two-lane range, is rejected.
pub fn compute_new_nonce(old_nonce: u64, is_game_bump: bool, is_account_bump: bool) -> (r: Result<
    u64,
    SlotRejection,
>)
    ensures
        r == advanced(old_nonce, is_game_bump, is_account_bump),
{
    if old_nonce >= NONCE_LIMIT {
        return Err(SlotRejection::NonceLaneOverflow);
    }
    let (account, game) = split_nonce(old_nonce);
    if is_game_bump && game == GAME_LANE_MAX {
        return Err(SlotRejection::NonceLaneOverflow);
    }
    if is_account_bump && account == ACCOUNT_LANE_MAX {
        return Err(SlotRejection::NonceLaneOverflow);
    }
    let mut nonce: u64 = old_nonce;
    if is_game_bump {
        nonce = nonce + 1;
    }
    if is_account_bump {
        nonce = nonce + ACCOUNT_LANE_UNIT;
    }
    Ok(nonce)
}

/// Advance the nonce for a slot of `tx_type`. `is_key_setter` tells that a key
/// registration supplies a key. Whether a signed type has a registered key is
/// not checked here.
pub fn advance_nonce(old_nonce: u64, tx_type: u8, is_key_setter: bool) -> (r: Result<
    u64,
    SlotRejection,
>)
    ensures
        r == advanced(
            old_nonce,
            TxFlags::of(tx_type).signs_game_lane(),
            TxFlags::of(tx_type).signs_account_lane() || is_key_setter,
        ),
{
    let flags = TxFlags::from_tx_type(tx_type);
    let is_game_bump = flags.is_game_lane();
    let is_account_bump = flags.is_withdrawal || flags.is_transfer || is_key_setter;
    compute_new_nonce(old_nonce, is_game_bump, is_account_bump)
}

} // verus!
