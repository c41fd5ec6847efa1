//! The provider allowance: an owner-signed cap on provider bets.
//!
//! A provider bet carries no owner signature. What the owner signs is the
//! allowance that caps it:
//!
//! ```text
//! set_provider_allowance    allowance := amount
//! bet                       amount <= allowance; allowance -= amount
//! everything else           allowance unchanged
//! ```
//!
//! A win does not restore the allowance: it is the total the owner lets
//! providers debit, not a rolling exposure.
use crate::field::PROVIDER_ALLOWANCE_MAX;
use crate::flags::TxFlags;
use crate::slot::{SlotInput, SlotRejection};
use vstd::prelude::*;

verus! {

/// The provider allowance after the slot, or the reason why there is none.
pub open spec fn allowance_after(input: SlotInput, flags: TxFlags) -> Result<u64, SlotRejection> {
    let old = input.old_provider_allowance;
    if old > PROVIDER_ALLOWANCE_MAX {
        Err(SlotRejection::ProviderAllowanceOverflow)
    } else if flags.is_set_provider_allowance {
        if input.amount > PROVIDER_ALLOWANCE_MAX {
            Err(SlotRejection::ProviderAllowanceOverflow)
        } else {
            Ok(input.amount)
        }
    } else if flags.is_bet {
        if input.amount > old {
            Err(SlotRejection::ProviderAllowanceExceeded)
        } else {
            Ok((old - input.amount) as u64)
        }
    } else {
        Ok(old)
    }
}

/// Compute the provider allowance after a slot of any type. A stored or new
/// allowance of `2^62` or more has no leaf representation and is rejected.
pub fn compute_new_allowance(input: &SlotInput, flags: &TxFlags) -> (r: Result<u64, SlotRejection>)
    ensures
        r == allowance_after(*input, *flags),
{
    let old: u64 = input.old_provider_allowance;
    if old > PROVIDER_ALLOWANCE_MAX {
        return Err(SlotRejection::ProviderAllowanceOverflow);
    }
    if flags.is_set_provider_allowance {
        if input.amount > PROVIDER_ALLOWANCE_MAX {
            return Err(SlotRejection::ProviderAllowanceOverflow);
        }
        return Ok(input.amount);
    }
    if flags.is_bet {
        return match old.checked_sub(input.amount) {
            Some(rest) => Ok(rest),
            None => Err(SlotRejection::ProviderAllowanceExceeded),
        };
    }
    Ok(old)
}

} // verus!
