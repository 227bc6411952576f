//! What holds of the jar across its transitions, stated over the results
//! that the transitions' contracts give.

use vstd::prelude::*;
use anchor_lang::prelude::Pubkey;
use crate::tipjar::{
    available, initialize_result, send_tip_result, withdraw_result, Initialize, Party, SendTip,
    Tipjar, TipjarError, Withdraw,
};

verus! {

/// One request against the jar: a tip or a withdrawal, with the account
/// that makes it.
pub enum Request {
    Tip { tipper: Party, amount: u64 },
    Draw { requester: Party, amount: u64 },
}

/// The jar record and balance after `req`; a refused request leaves both.
pub open spec fn apply(jar: Tipjar, lamports: u64, reserve: u64, req: Request) -> (Tipjar, u64) {
    match req {
        Request::Tip { tipper, amount } => {
            let ctx = SendTip { tipjar: jar, tipjar_lamports: lamports, tipper };
            match send_tip_result(ctx, amount) {
                Ok(next) => (next.tipjar, next.tipjar_lamports),
                Err(_) => (jar, lamports),
            }
        },
        Request::Draw { requester, amount } => {
            let ctx = Withdraw { tipjar: jar, tipjar_lamports: lamports, reserve, owner: requester };
            match withdraw_result(ctx, amount) {
                Ok((next, _)) => (next.tipjar, next.tipjar_lamports),
                Err(_) => (jar, lamports),
            }
        },
    }
}

/// The jar record and balance after each request of `reqs` in turn.
pub open spec fn run(jar: Tipjar, lamports: u64, reserve: u64, reqs: Seq<Request>) -> (Tipjar, u64)
    decreases reqs.len(),
{
    if reqs.len() == 0 {
        (jar, lamports)
    } else {
        let (j, l) = apply(jar, lamports, reserve, reqs[0]);
        run(j, l, reserve, reqs.subrange(1, reqs.len() as int))
    }
}

/// A successful tip adds exactly `amount` to `total_tips` and to the jar's
/// balance, one to `tip_count`, and takes exactly `amount` from the tipper:
/// no lamport is made or lost. A tip succeeds whenever the amount is
/// positive, the tipper can pay it and no counter or balance overflows.
pub proof fn tip_moves_exactly_the_amount(ctx: SendTip, amount: u64)
    ensures
        (amount > 0 && ctx.tipper.lamports >= amount && ctx.tipjar_lamports + amount <= u64::MAX
            && ctx.tipjar.total_tips + amount <= u64::MAX && ctx.tipjar.tip_count + 1 <= u64::MAX)
            <==> send_tip_result(ctx, amount) is Ok,
        send_tip_result(ctx, amount) matches Ok(next) ==> {
            &&& next.tipjar.owner == ctx.tipjar.owner
            &&& next.tipjar.total_tips == ctx.tipjar.total_tips + amount
            &&& next.tipjar.tip_count == ctx.tipjar.tip_count + 1
            &&& next.tipjar_lamports == ctx.tipjar_lamports + amount
            &&& next.tipper.key == ctx.tipper.key
            &&& next.tipper.lamports == ctx.tipper.lamports - amount
            &&& next.tipjar_lamports + next.tipper.lamports == ctx.tipjar_lamports
                + ctx.tipper.lamports
        },
{
}

/// A withdrawal never takes the jar below its reserve: where it succeeds,
/// the jar keeps at least the reserve, whatever it held before.
pub proof fn withdraw_keeps_reserve(ctx: Withdraw, amount: u64)
    ensures
        withdraw_result(ctx, amount) matches Ok((next, left)) ==> {
            &&& next.tipjar_lamports >= ctx.reserve
            &&& next.tipjar_lamports == ctx.tipjar_lamports - amount
            &&& next.owner.lamports == ctx.owner.lamports + amount
            &&& next.tipjar == ctx.tipjar
            &&& left == available(next.tipjar_lamports, ctx.reserve)
        },
{
}

/// Over any sequence of tips and withdrawals, a jar that starts at or above
/// its reserve is at or above it after every request; its owner never
/// changes and its counters never go down.
pub proof fn requests_keep_reserve(jar: Tipjar, lamports: u64, reserve: u64, reqs: Seq<Request>)
    requires
        lamports >= reserve,
    ensures
        run(jar, lamports, reserve, reqs).1 >= reserve,
        run(jar, lamports, reserve, reqs).0.owner == jar.owner,
        run(jar, lamports, reserve, reqs).0.total_tips >= jar.total_tips,
        run(jar, lamports, reserve, reqs).0.tip_count >= jar.tip_count,
    decreases reqs.len(),
{
    if reqs.len() > 0 {
        let (j, l) = apply(jar, lamports, reserve, reqs[0]);
        requests_keep_reserve(j, l, reserve, reqs.subrange(1, reqs.len() as int));
    }
}

/// A withdrawal asked for by anyone but the owner is refused with
/// `Unauthorized`, whatever the amount; a refused withdrawal leaves the
/// context as it was (see `withdraw`).
pub proof fn stranger_cannot_withdraw(ctx: Withdraw, amount: u64)
    requires
        ctx.owner.key != ctx.tipjar.owner,
    ensures
        withdraw_result(ctx, amount) == Err::<(Withdraw, u64), TipjarError>(TipjarError::Unauthorized),
        apply(ctx.tipjar, ctx.tipjar_lamports, ctx.reserve, Request::Draw { requester: ctx.owner, amount })
            == (ctx.tipjar, ctx.tipjar_lamports),
{
}

/// Once the jar is created, a second creation at the same location is
/// refused with `AlreadyInitialized`, whoever asks; since `initialize`
/// leaves its context unchanged on a refusal, the record stands as the
/// first creation wrote it.
pub proof fn create_only_once(ctx: Initialize, second: Pubkey)
    requires
        initialize_result(ctx) is Ok,
    ensures
        ({
            let again = Initialize { tipjar: Some(initialize_result(ctx)->Ok_0), owner: second };
            initialize_result(again) == Err::<Tipjar, TipjarError>(TipjarError::AlreadyInitialized)
        }),
{
}

/// A tip of zero is refused with `InvalidAmount`, and so is a withdrawal of
/// zero asked for by the owner; refused requests change nothing.
pub proof fn zero_amount_refused(tip: SendTip, draw: Withdraw)
    requires
        draw.owner.key == draw.tipjar.owner,
    ensures
        send_tip_result(tip, 0) == Err::<SendTip, TipjarError>(TipjarError::InvalidAmount),
        withdraw_result(draw, 0) == Err::<(Withdraw, u64), TipjarError>(TipjarError::InvalidAmount),
        apply(tip.tipjar, tip.tipjar_lamports, 0, Request::Tip { tipper: tip.tipper, amount: 0 })
            == (tip.tipjar, tip.tipjar_lamports),
        apply(draw.tipjar, draw.tipjar_lamports, draw.reserve, Request::Draw { requester: draw.owner, amount: 0 })
            == (draw.tipjar, draw.tipjar_lamports),
{
}

} // verus!
