//! The jar record and its three transitions: create, tip, withdraw.
//!
//! Each transition works on a context that holds what the host ledger hands
//! the program: the jar record, the balances of the accounts involved and,
//! for a withdrawal, the reserve that the jar must keep. A transition either
//! returns `Ok` with the whole context updated, or an error with the context
//! left exactly as it was.

use vstd::prelude::*;
use anchor_lang::prelude::Pubkey;
use crate::key::same_key;

verus! {

/// The persistent jar record.
#[derive(Clone, Copy, Debug, PartialEq, Eq)]
pub struct Tipjar {
    /// The only identity that may withdraw; set once, at creation.
    pub owner: Pubkey,
    /// Every lamport ever tipped, in total.
    pub total_tips: u64,
    /// The number of tips received.
    pub tip_count: u64,
}

/// Why a transition was refused.
#[derive(Clone, Copy, Debug, PartialEq, Eq, Structural)]
pub enum TipjarError {
    /// A tip or a withdrawal of zero lamports.
    InvalidAmount,
    /// The payer cannot cover the amount: the tipper's balance, or what the
    /// jar holds above its reserve.
    InsufficientFunds,
    /// A jar record already stands at the jar's location.
    AlreadyInitialized,
    /// A counter or a balance would leave the range of `u64`.
    Overflow,
    /// The withdrawal was requested by someone other than the owner.
    Unauthorized,
}

/// An account of the host ledger as a transition sees it.
#[derive(Clone, Copy, Debug, PartialEq, Eq)]
pub struct Party {
    pub key: Pubkey,
    pub lamports: u64,
}

/// What creating the jar works on: the jar's location, empty or not, and
/// the identity that asks for it.
#[derive(Clone, Copy, Debug, PartialEq, Eq)]
pub struct Initialize {
    pub tipjar: Option<Tipjar>,
    pub owner: Pubkey,
}

/// What a tip works on: the jar record and balance, and the tipper.
#[derive(Clone, Copy, Debug, PartialEq, Eq)]
pub struct SendTip {
    pub tipjar: Tipjar,
    pub tipjar_lamports: u64,
    pub tipper: Party,
}

/// What a withdrawal works on: the jar record and balance, the reserve the
/// jar must keep (as the custody system states it at the time of the
/// request), and the party that asks to withdraw.
#[derive(Clone, Copy, Debug, PartialEq, Eq)]
pub struct Withdraw {
    pub tipjar: Tipjar,
    pub tipjar_lamports: u64,
    pub reserve: u64,
    pub owner: Party,
}

/// The lamports of a jar above its reserve, or zero where it holds less.
pub open spec fn available(lamports: u64, reserve: u64) -> int {
    if lamports < reserve {
        0
    } else {
        lamports - reserve
    }
}

/// The record that creation writes, or why it refuses.
pub open spec fn initialize_result(ctx: Initialize) -> Result<Tipjar, TipjarError> {
    match ctx.tipjar {
        Some(_) => Err(TipjarError::AlreadyInitialized),
        None => Ok(Tipjar { owner: ctx.owner, total_tips: 0, tip_count: 0 }),
    }
}

/// The context after a tip of `amount`, or why it is refused.
pub open spec fn send_tip_result(ctx: SendTip, amount: u64) -> Result<SendTip, TipjarError> {
    if amount == 0 {
        Err(TipjarError::InvalidAmount)
    } else if ctx.tipper.lamports < amount {
        Err(TipjarError::InsufficientFunds)
    } else if ctx.tipjar_lamports + amount > u64::MAX || ctx.tipjar.total_tips + amount > u64::MAX
        || ctx.tipjar.tip_count + 1 > u64::MAX {
        Err(TipjarError::Overflow)
    } else {
        Ok(
            SendTip {
                tipjar: Tipjar {
                    owner: ctx.tipjar.owner,
                    total_tips: (ctx.tipjar.total_tips + amount) as u64,
                    tip_count: (ctx.tipjar.tip_count + 1) as u64,
                },
                tipjar_lamports: (ctx.tipjar_lamports + amount) as u64,
                tipper: Party { key: ctx.tipper.key, lamports: (ctx.tipper.lamports - amount) as u64 },
            },
        )
    }
}

/// The context after a withdrawal of `amount`, with what then stays
/// available above the reserve, or why it is refused.
pub open spec fn withdraw_result(ctx: Withdraw, amount: u64) -> Result<(Withdraw, u64), TipjarError> {
    if ctx.owner.key != ctx.tipjar.owner {
        Err(TipjarError::Unauthorized)
    } else if amount == 0 {
        Err(TipjarError::InvalidAmount)
    } else if amount > available(ctx.tipjar_lamports, ctx.reserve) {
        Err(TipjarError::InsufficientFunds)
    } else if ctx.owner.lamports + amount > u64::MAX {
        Err(TipjarError::Overflow)
    } else {
        Ok(
            (
                Withdraw {
                    tipjar: ctx.tipjar,
                    tipjar_lamports: (ctx.tipjar_lamports - amount) as u64,
                    reserve: ctx.reserve,
                    owner: Party { key: ctx.owner.key, lamports: (ctx.owner.lamports + amount) as u64 },
                },
                (available(ctx.tipjar_lamports, ctx.reserve) - amount) as u64,
            ),
        )
    }
}

/// Creates the jar with `ctx.owner` as its owner and both counters at zero.
/// Refused where a record already stands at the jar's location.
pub fn initialize(ctx: &mut Initialize) -> (r: Result<(), TipjarError>)
    ensures
        match initialize_result(*old(ctx)) {
            Ok(jar) => r is Ok && final(ctx).tipjar == Some(jar) && final(ctx).owner == old(ctx).owner,
            Err(e) => r == Err::<(), TipjarError>(e) && *final(ctx) == *old(ctx),
        },
{
    if ctx.tipjar.is_some() {
        return Err(TipjarError::AlreadyInitialized);
    }
    ctx.tipjar = Some(Tipjar { owner: ctx.owner, total_tips: 0, tip_count: 0 });
    Ok(())
}

/// Moves `amount` lamports from the tipper to the jar and records the tip:
/// `total_tips` grows by `amount` and `tip_count` by one. Anyone may tip.
/// Refused with `InvalidAmount` for zero, with `InsufficientFunds` where the
/// tipper holds less than `amount`, and with `Overflow` where the jar's
/// balance or a counter would leave the range of `u64`.
pub fn send_tip(ctx: &mut SendTip, amount: u64) -> (r: Result<(), TipjarError>)
    ensures
        match send_tip_result(*old(ctx), amount) {
            Ok(next) => r is Ok && *final(ctx) == next,
            Err(e) => r == Err::<(), TipjarError>(e) && *final(ctx) == *old(ctx),
        },
{
    if amount == 0 {
        return Err(TipjarError::InvalidAmount);
    }
    if ctx.tipper.lamports < amount {
        return Err(TipjarError::InsufficientFunds);
    }
    let jar_lamports = match ctx.tipjar_lamports.checked_add(amount) {
        Some(v) => v,
        None => return Err(TipjarError::Overflow),
    };
    let total_tips = match ctx.tipjar.total_tips.checked_add(amount) {
        Some(v) => v,
        None => return Err(TipjarError::Overflow),
    };
    let tip_count = match ctx.tipjar.tip_count.checked_add(1) {
        Some(v) => v,
        None => return Err(TipjarError::Overflow),
    };
    ctx.tipper.lamports = ctx.tipper.lamports - amount;
    ctx.tipjar_lamports = jar_lamports;
    ctx.tipjar.total_tips = total_tips;
    ctx.tipjar.tip_count = tip_count;
    Ok(())
}

/// Moves `amount` lamports from the jar to its owner and returns what stays
/// available above the reserve. The jar's counters do not change.
/// Refused with `Unauthorized` where the requester is not the owner, whatever
/// the amount; then with `InvalidAmount` for zero, with `InsufficientFunds`
/// where `amount` exceeds what the jar holds above its reserve, and with
/// `Overflow` where the owner's balance would leave the range of `u64`.
pub fn withdraw(ctx: &mut Withdraw, amount: u64) -> (r: Result<u64, TipjarError>)
    ensures
        match withdraw_result(*old(ctx), amount) {
            Ok((next, left)) => r == Ok::<u64, TipjarError>(left) && *final(ctx) == next,
            Err(e) => r == Err::<u64, TipjarError>(e) && *final(ctx) == *old(ctx),
        },
{
    if !same_key(&ctx.owner.key, &ctx.tipjar.owner) {
        return Err(TipjarError::Unauthorized);
    }
    if amount == 0 {
        return Err(TipjarError::InvalidAmount);
    }
    let available: u64 = if ctx.tipjar_lamports < ctx.reserve {
        0
    } else {
        ctx.tipjar_lamports - ctx.reserve
    };
    if amount > available {
        return Err(TipjarError::InsufficientFunds);
    }
    let owner_lamports = match ctx.owner.lamports.checked_add(amount) {
        Some(v) => v,
        None => return Err(TipjarError::Overflow),
    };
    ctx.tipjar_lamports = ctx.tipjar_lamports - amount;
    ctx.owner.lamports = owner_lamports;
    Ok(available - amount)
}

} // verus!
