//! Balance and deposit-credit transition.
//!
//! Deposits, wins, referrals and bonuses add `amount`; the two game types add
//! `win_amount`. Bets of any kind, withdrawals, risk rejects and transfers
//! subtract `amount`. The addition comes first, so a game's win counts towards
//! its own bet. A deposit grows the credit by `amount`; the types by which a
//! user loses balance cap it to the new balance.
use crate::flags::TxFlags;
use crate::slot::{SlotInput, SlotRejection};
use vstd::prelude::*;

verus! {

/// Balance and credit after the slot, and the deltas that the total liability
/// moves by.
#[derive(Clone, Copy, Debug)]
pub struct BalanceEffects {
    pub new_balance: u64,
    pub new_credit: u64,
    /// Balance credited by this slot.
    pub add_full: u64,
    /// Balance debited by this slot.
    pub sub_full: u64,
}

/// What the slot adds to the balance.
pub open spec fn credited(input: SlotInput, flags: TxFlags) -> int {
    (if flags.is_deposit || flags.is_win || flags.is_referral || flags.is_bonus {
        input.amount as int
    } else {
        0
    }) + (if flags.plays() {
        input.win_amount as int
    } else {
        0
    })
}

/// What the slot takes from the balance.
pub open spec fn debited(input: SlotInput, flags: TxFlags) -> int {
    if flags.is_bet || flags.plays() || flags.is_withdrawal || flags.is_risk_reject
        || flags.is_transfer {
        input.amount as int
    } else {
        0
    }
}

/// What the slot adds to the deposit credit.
pub open spec fn credit_granted(input: SlotInput, flags: TxFlags) -> int {
    if flags.is_deposit {
        input.amount as int
    } else {
        0
    }
}

/// The types that cap the credit to the balance they leave.
pub open spec fn caps_credit(flags: TxFlags) -> bool {
    flags.is_bet || flags.plays() || flags.is_withdrawal || flags.is_transfer
}

/// The balance transition of the slot, or the reason why there is none.
pub open spec fn balance_changes(input: SlotInput, flags: TxFlags) -> Result<
    BalanceEffects,
    SlotRejection,
> {
    let add = credited(input, flags);
    let sub = debited(input, flags);
    let credit = input.old_deposit_credit + credit_granted(input, flags);
    let balance = input.old_balance + add - sub;
    if input.old_balance + add > u64::MAX {
        Err(SlotRejection::TlOverflow)
    } else if balance < 0 {
        Err(SlotRejection::InsufficientBalance)
    } else if credit > u64::MAX {
        Err(SlotRejection::TlOverflow)
    } else {
        Ok(
            BalanceEffects {
                new_balance: balance as u64,
                new_credit: (if caps_credit(flags) && balance < credit {
                    balance
                } else {
                    credit
                }) as u64,
                add_full: add as u64,
                sub_full: sub as u64,
            },
        )
    }
}

/// Compute the balance transition for any transaction type. A debit that the
/// balance does not cover is `InsufficientBalance`; a sum that leaves the `u64`
/// range is `TlOverflow`.
pub fn build_balance_changes(input: &SlotInput, flags: &TxFlags) -> (r: Result<
    BalanceEffects,
    SlotRejection,
>)
    ensures
        r == balance_changes(*input, *flags),
{
    let is_user_add = flags.is_deposit || flags.is_win || flags.is_referral || flags.is_bonus;
    let is_ihb_or_crash = flags.is_ihb_or_crash();
    let user_add: u64 = if is_user_add {
        input.amount
    } else {
        0
    };
    let ihb_add: u64 = if is_ihb_or_crash {
        input.win_amount
    } else {
        0
    };
    let total_add: u64 = match user_add.checked_add(ihb_add) {
        Some(sum) => sum,
        None => return Err(SlotRejection::TlOverflow),
    };

    let is_user_sub = flags.is_bet || is_ihb_or_crash || flags.is_withdrawal || flags.is_risk_reject
        || flags.is_transfer;
    let user_sub: u64 = if is_user_sub {
        input.amount
    } else {
        0
    };

    let after_add: u64 = match input.old_balance.checked_add(total_add) {
        Some(sum) => sum,
        None => return Err(SlotRejection::TlOverflow),
    };
    let new_balance: u64 = match after_add.checked_sub(user_sub) {
        Some(rest) => rest,
        None => return Err(SlotRejection::InsufficientBalance),
    };

    let deposit_credit_add: u64 = if flags.is_deposit {
        input.amount
    } else {
        0
    };
    let credit_post_deposit: u64 = match input.old_deposit_credit.checked_add(deposit_credit_add) {
        Some(sum) => sum,
        None => return Err(SlotRejection::TlOverflow),
    };

    let is_balance_loss = flags.is_bet || is_ihb_or_crash || flags.is_withdrawal
        || flags.is_transfer;
    let new_credit: u64 = if is_balance_loss && new_balance < credit_post_deposit {
        new_balance
    } else {
        credit_post_deposit
    };

    Ok(BalanceEffects { new_balance, new_credit, add_full: total_add, sub_full: user_sub })
}

/// The total liability after a slot: `old_tl + add_full - sub_full`, or a
/// rejection where the sum or the difference leaves the `u64` range.
pub fn compute_new_tl(old_tl: u64, add_full: u64, sub_full: u64) -> (r: Result<u64, SlotRejection>)
    ensures
        r == new_liability(old_tl, add_full, sub_full),
{
    match old_tl.checked_add(add_full) {
        Some(after_add) => match after_add.checked_sub(sub_full) {
            Some(tl) => Ok(tl),
            None => Err(SlotRejection::TlOverflow),
        },
        None => Err(SlotRejection::TlOverflow),
    }
}

/// The total liability after crediting `add` and debiting `sub`.
pub open spec fn new_liability(old_tl: u64, add: u64, sub: u64) -> Result<u64, SlotRejection> {
    if old_tl + add > u64::MAX || old_tl + add < sub {
        Err(SlotRejection::TlOverflow)
    } else {
        Ok((old_tl + add - sub) as u64)
    }
}

} // verus!
