//! Market records and their lifecycle operations.
//!
//! A market is created once, accumulates stake through bets, and ends in
//! exactly one of two terminal states: resolved (an outcome was fixed) or
//! cancelled (closed before any value was at risk). Identities and
//! addresses are opaque `u64` keys handed in by the surrounding runtime;
//! the current time is queried there and passed as `now`.

use vstd::prelude::*;
use vstd::string::StrSliceExecFns;

use crate::errors::ErrorCode;
use crate::events::{AuthorizedResolverSet, EscrowClosed, MarketCancelled, MarketCreated,
    MarketResolved};

verus! {

/// One prediction market: a yes/no question, its timing, its escrow
/// binding, and the running stake totals of both sides.
pub struct Market {
    /// Address of this record; bets link back to it.
    pub address: u64,
    /// Identity that created the market; fee beneficiary and sole canceller.
    pub creator: u64,
    /// The question being predicted, 1 to 256 characters.
    pub question: String,
    /// Betting cutoff (exclusive).
    pub end_time: i64,
    /// `end_time` plus the grace period; resolution is forbidden before it.
    pub resolution_deadline: i64,
    /// Whether an outcome has been fixed.
    pub resolved: bool,
    /// The fixed outcome; present exactly when `resolved`.
    pub outcome: Option<bool>,
    /// Address of the escrow sub-account holding the pool.
    pub escrow: u64,
    /// Derivation proof of the escrow address, fixed at creation.
    pub escrow_bump: u8,
    /// Sum of all active stake on the yes side.
    pub total_yes: u64,
    /// Sum of all active stake on the no side.
    pub total_no: u64,
    /// Creator-chosen informational fee (0-1000 bps). Settlement applies a
    /// fixed 100 bps split instead; see [`crate::settlement`].
    pub fee_bps: u16,
    /// Whether the market was cancelled before any bet.
    pub cancelled: bool,
    /// Optional secondary identity permitted to resolve.
    pub authorized_resolver: Option<u64>,
    /// Grace period after `end_time`, 0-60 minutes, fixed at creation.
    pub grace_period_minutes: u8,
}

impl Market {
    /// Well-formedness: the shape every market created and maintained by
    /// the engine has. Terminal states are mutually exclusive, the outcome
    /// is present exactly on resolved markets, and a cancelled market
    /// carries no stake.
    pub open spec fn wf(self) -> bool {
        &&& 1 <= self.question@.len() <= 256
        &&& self.fee_bps <= 1000
        &&& self.grace_period_minutes <= 60
        &&& self.resolution_deadline == self.end_time + self.grace_period_minutes * 60
        &&& !(self.resolved && self.cancelled)
        &&& (self.resolved <==> self.outcome is Some)
        &&& (self.cancelled ==> self.total_yes == 0 && self.total_no == 0)
    }

    /// Who may resolve: the creator, or the currently set authorized
    /// resolver. An unset resolver authorizes nobody extra.
    pub open spec fn is_authorized_resolver(self, caller: u64) -> bool {
        caller == self.creator || self.authorized_resolver == Some(caller)
    }

    /// A copy of the record with the side totals replaced.
    pub fn with_totals(&self, total_yes: u64, total_no: u64) -> (m: Market)
        ensures
            m == (Market { total_yes, total_no, ..*self }),
    {
        Market {
            address: self.address,
            creator: self.creator,
            question: self.question.clone(),
            end_time: self.end_time,
            resolution_deadline: self.resolution_deadline,
            resolved: self.resolved,
            outcome: self.outcome,
            escrow: self.escrow,
            escrow_bump: self.escrow_bump,
            total_yes,
            total_no,
            fee_bps: self.fee_bps,
            cancelled: self.cancelled,
            authorized_resolver: self.authorized_resolver,
            grace_period_minutes: self.grace_period_minutes,
        }
    }

    /// A copy of the record marked cancelled.
    pub fn with_cancelled(&self) -> (m: Market)
        ensures
            m == (Market { cancelled: true, ..*self }),
    {
        Market {
            address: self.address,
            creator: self.creator,
            question: self.question.clone(),
            end_time: self.end_time,
            resolution_deadline: self.resolution_deadline,
            resolved: self.resolved,
            outcome: self.outcome,
            escrow: self.escrow,
            escrow_bump: self.escrow_bump,
            total_yes: self.total_yes,
            total_no: self.total_no,
            fee_bps: self.fee_bps,
            cancelled: true,
            authorized_resolver: self.authorized_resolver,
            grace_period_minutes: self.grace_period_minutes,
        }
    }

    /// A copy of the record resolved to `outcome`.
    pub fn with_outcome(&self, outcome: bool) -> (m: Market)
        ensures
            m == (Market { resolved: true, outcome: Some(outcome), ..*self }),
    {
        Market {
            address: self.address,
            creator: self.creator,
            question: self.question.clone(),
            end_time: self.end_time,
            resolution_deadline: self.resolution_deadline,
            resolved: true,
            outcome: Some(outcome),
            escrow: self.escrow,
            escrow_bump: self.escrow_bump,
            total_yes: self.total_yes,
            total_no: self.total_no,
            fee_bps: self.fee_bps,
            cancelled: self.cancelled,
            authorized_resolver: self.authorized_resolver,
            grace_period_minutes: self.grace_period_minutes,
        }
    }

    /// A copy of the record with the authorized resolver replaced.
    pub fn with_resolver(&self, resolver: Option<u64>) -> (m: Market)
        ensures
            m == (Market { authorized_resolver: resolver, ..*self }),
    {
        Market {
            address: self.address,
            creator: self.creator,
            question: self.question.clone(),
            end_time: self.end_time,
            resolution_deadline: self.resolution_deadline,
            resolved: self.resolved,
            outcome: self.outcome,
            escrow: self.escrow,
            escrow_bump: self.escrow_bump,
            total_yes: self.total_yes,
            total_no: self.total_no,
            fee_bps: self.fee_bps,
            cancelled: self.cancelled,
            authorized_resolver: resolver,
            grace_period_minutes: self.grace_period_minutes,
        }
    }
}

/// Validation of the creation inputs, in the order the checks are made.
pub open spec fn create_check(
    question: Seq<char>,
    end_time: i64,
    fee_bps: u16,
    grace_period_minutes: u8,
    now: i64,
) -> Option<ErrorCode> {
    if question.len() > 256 {
        Some(ErrorCode::QuestionTooLong)
    } else if question.len() == 0 {
        Some(ErrorCode::QuestionEmpty)
    } else if end_time <= now {
        Some(ErrorCode::InvalidEndTime)
    } else if fee_bps > 1000 {
        Some(ErrorCode::FeeTooHigh)
    } else if grace_period_minutes > 60 {
        Some(ErrorCode::GracePeriodTooLong)
    } else {
        None
    }
}

/// The exact result of [`create_market`] on the given inputs.
pub open spec fn create_market_result(
    question: String,
    end_time: i64,
    escrow_bump: u8,
    fee_bps: u16,
    grace_period_minutes: u8,
    now: i64,
    creator: u64,
    address: u64,
    escrow: u64,
) -> Result<(Market, MarketCreated), ErrorCode> {
    match create_check(question@, end_time, fee_bps, grace_period_minutes, now) {
        Some(e) => Err(e),
        None => Ok(
            (
                (Market {
                    address,
                    creator,
                    question,
                    end_time,
                    resolution_deadline: (end_time + grace_period_minutes * 60) as i64,
                    resolved: false,
                    outcome: None,
                    escrow,
                    escrow_bump,
                    total_yes: 0,
                    total_no: 0,
                    fee_bps,
                    cancelled: false,
                    authorized_resolver: None,
                    grace_period_minutes,
                }),
                (MarketCreated {
                    market: address,
                    creator,
                    question,
                    end_time,
                    resolution_deadline: (end_time + grace_period_minutes * 60) as i64,
                    fee_bps,
                    grace_period_minutes,
                }),
            ),
        ),
    }
}

/// Creates a market: validates every input bound, derives the resolution
/// deadline, zeroes the counters and binds the escrow address.
///
/// The bound on `end_time` keeps the derived deadline within `i64`.
pub fn create_market(
    question: String,
    end_time: i64,
    escrow_bump: u8,
    fee_bps: u16,
    grace_period_minutes: u8,
    now: i64,
    creator: u64,
    address: u64,
    escrow: u64,
) -> (r: Result<(Market, MarketCreated), ErrorCode>)
    requires
        end_time <= i64::MAX - 3600,
    ensures
        r == create_market_result(
            question,
            end_time,
            escrow_bump,
            fee_bps,
            grace_period_minutes,
            now,
            creator,
            address,
            escrow,
        ),
        (r matches Ok(p) ==> p.0.wf()),
{
    let len: usize = question.as_str().unicode_len();
    if len > 256 {
        return Err(ErrorCode::QuestionTooLong);
    }
    if len == 0 {
        return Err(ErrorCode::QuestionEmpty);
    }
    if end_time <= now {
        return Err(ErrorCode::InvalidEndTime);
    }
    if fee_bps > 1000 {
        return Err(ErrorCode::FeeTooHigh);
    }
    if grace_period_minutes > 60 {
        return Err(ErrorCode::GracePeriodTooLong);
    }
    let resolution_deadline: i64 = end_time + (grace_period_minutes as i64) * 60;
    let market = Market {
        address,
        creator,
        question: question.clone(),
        end_time,
        resolution_deadline,
        resolved: false,
        outcome: None,
        escrow,
        escrow_bump,
        total_yes: 0,
        total_no: 0,
        fee_bps,
        cancelled: false,
        authorized_resolver: None,
        grace_period_minutes,
    };
    let event = MarketCreated {
        market: address,
        creator,
        question,
        end_time,
        resolution_deadline,
        fee_bps,
        grace_period_minutes,
    };
    Ok((market, event))
}

/// Validation of a cancellation request, in the order the checks are made.
pub open spec fn cancel_check(m: Market, caller: u64, now: i64) -> Option<ErrorCode> {
    if m.resolved {
        Some(ErrorCode::MarketAlreadyResolved)
    } else if m.cancelled {
        Some(ErrorCode::MarketAlreadyCancelled)
    } else if now >= m.end_time {
        Some(ErrorCode::MarketClosed)
    } else if caller != m.creator {
        Some(ErrorCode::UnauthorizedCancellation)
    } else if m.total_yes != 0 || m.total_no != 0 {
        Some(ErrorCode::CannotCancelWithBets)
    } else {
        None
    }
}

/// Runs the cancellation checks of [`cancel_check`].
pub fn cancel_check_exec(m: &Market, caller: u64, now: i64) -> (r: Option<ErrorCode>)
    ensures
        r == cancel_check(*m, caller, now),
{
    if m.resolved {
        Some(ErrorCode::MarketAlreadyResolved)
    } else if m.cancelled {
        Some(ErrorCode::MarketAlreadyCancelled)
    } else if now >= m.end_time {
        Some(ErrorCode::MarketClosed)
    } else if caller != m.creator {
        Some(ErrorCode::UnauthorizedCancellation)
    } else if m.total_yes != 0 || m.total_no != 0 {
        Some(ErrorCode::CannotCancelWithBets)
    } else {
        None
    }
}

/// Cancels a market. Legal only for the creator, before the betting
/// cutoff, and only while no stake is at risk; irreversible.
pub fn cancel_market(market: &mut Market, caller: u64, now: i64) -> (r: Result<
    MarketCancelled,
    ErrorCode,
>)
    ensures
        match cancel_check(*old(market), caller, now) {
            Some(e) => r == Err::<MarketCancelled, ErrorCode>(e) && *final(market) == *old(
                market,
            ),
            None => r == Ok::<MarketCancelled, ErrorCode>(
                (MarketCancelled {
                    market: old(market).address,
                    cancelled_by: caller,
                    timestamp: now,
                }),
            ) && *final(market) == (Market { cancelled: true, ..*old(market) }),
        },
{
    match cancel_check_exec(market, caller, now) {
        Some(e) => Err(e),
        None => {
            market.cancelled = true;
            Ok(MarketCancelled { market: market.address, cancelled_by: caller, timestamp: now })
        },
    }
}

/// Validation of a resolution request, in the order the checks are made.
pub open spec fn resolve_check(m: Market, caller: u64, now: i64) -> Option<ErrorCode> {
    if m.resolved {
        Some(ErrorCode::MarketAlreadyResolved)
    } else if m.cancelled {
        Some(ErrorCode::MarketCancelled)
    } else if now < m.resolution_deadline {
        Some(ErrorCode::MarketStillInGracePeriod)
    } else if !m.is_authorized_resolver(caller) {
        Some(ErrorCode::UnauthorizedResolver)
    } else {
        None
    }
}

/// Runs the resolution checks of [`resolve_check`].
pub fn resolve_check_exec(m: &Market, caller: u64, now: i64) -> (r: Option<ErrorCode>)
    ensures
        r == resolve_check(*m, caller, now),
{
    if m.resolved {
        return Some(ErrorCode::MarketAlreadyResolved);
    }
    if m.cancelled {
        return Some(ErrorCode::MarketCancelled);
    }
    if now < m.resolution_deadline {
        return Some(ErrorCode::MarketStillInGracePeriod);
    }
    let authorized = caller == m.creator || (match m.authorized_resolver {
        Some(resolver) => caller == resolver,
        None => false,
    });
    if !authorized {
        return Some(ErrorCode::UnauthorizedResolver);
    }
    None
}

/// Fixes the outcome of a market. Legal only once the grace period has
/// elapsed, for the creator or the authorized resolver; one-shot.
pub fn resolve_market(market: &mut Market, caller: u64, outcome: bool, now: i64) -> (r: Result<
    MarketResolved,
    ErrorCode,
>)
    ensures
        match resolve_check(*old(market), caller, now) {
            Some(e) => r == Err::<MarketResolved, ErrorCode>(e) && *final(market) == *old(
                market,
            ),
            None => r == Ok::<MarketResolved, ErrorCode>(
                (MarketResolved {
                    market: old(market).address,
                    outcome,
                    resolver: caller,
                    resolved_at: now,
                }),
            ) && *final(market) == (Market {
                resolved: true,
                outcome: Some(outcome),
                ..*old(market)
            }),
        },
{
    match resolve_check_exec(market, caller, now) {
        Some(e) => Err(e),
        None => {
            market.resolved = true;
            market.outcome = Some(outcome);
            Ok(
                MarketResolved {
                    market: market.address,
                    outcome,
                    resolver: caller,
                    resolved_at: now,
                },
            )
        },
    }
}

/// Validation of a resolver replacement, in the order the checks are made.
pub open spec fn set_resolver_check(m: Market, caller: u64) -> Option<ErrorCode> {
    if caller != m.creator {
        Some(ErrorCode::UnauthorizedResolver)
    } else if m.resolved {
        Some(ErrorCode::MarketAlreadyResolved)
    } else {
        None
    }
}

/// Runs the resolver-replacement checks of [`set_resolver_check`].
pub fn set_resolver_check_exec(m: &Market, caller: u64) -> (r: Option<ErrorCode>)
    ensures
        r == set_resolver_check(*m, caller),
{
    if caller != m.creator {
        Some(ErrorCode::UnauthorizedResolver)
    } else if m.resolved {
        Some(ErrorCode::MarketAlreadyResolved)
    } else {
        None
    }
}

/// Replaces the optional authorized resolver. Legal only for the creator
/// while the market is unresolved; the old value is recorded in the event.
pub fn set_authorized_resolver(
    market: &mut Market,
    caller: u64,
    new_resolver: Option<u64>,
    now: i64,
) -> (r: Result<AuthorizedResolverSet, ErrorCode>)
    ensures
        match set_resolver_check(*old(market), caller) {
            Some(e) => r == Err::<AuthorizedResolverSet, ErrorCode>(e) && *final(market) == *old(
                market,
            ),
            None => r == Ok::<AuthorizedResolverSet, ErrorCode>(
                (AuthorizedResolverSet {
                    market: old(market).address,
                    old_resolver: old(market).authorized_resolver,
                    new_resolver,
                    set_by: caller,
                    timestamp: now,
                }),
            ) && *final(market) == (Market {
                authorized_resolver: new_resolver,
                ..*old(market)
            }),
        },
{
    match set_resolver_check_exec(market, caller) {
        Some(e) => Err(e),
        None => {
            let old_resolver = market.authorized_resolver;
            market.authorized_resolver = new_resolver;
            Ok(
                AuthorizedResolverSet {
                    market: market.address,
                    old_resolver,
                    new_resolver,
                    set_by: caller,
                    timestamp: now,
                },
            )
        },
    }
}

/// Validation of an escrow closure, in the order the checks are made.
pub open spec fn close_escrow_check(m: Market, caller: u64, escrow_balance: u64) -> Option<
    ErrorCode,
> {
    if !m.resolved {
        Some(ErrorCode::MarketStillOpen)
    } else if escrow_balance != 0 {
        Some(ErrorCode::EscrowNotEmpty)
    } else if caller != m.creator {
        Some(ErrorCode::UnauthorizedClosure)
    } else {
        None
    }
}

/// Approves reclaiming the escrow sub-account's storage deposit once the
/// market is resolved and the escrow is fully drained. The deposit size
/// `rent_reclaimed` is reported by the external storage substrate and is
/// passed through into the event.
pub fn close_escrow(
    market: &Market,
    caller: u64,
    escrow_balance: u64,
    rent_reclaimed: u64,
    now: i64,
) -> (r: Result<EscrowClosed, ErrorCode>)
    ensures
        match close_escrow_check(*market, caller, escrow_balance) {
            Some(e) => r == Err::<EscrowClosed, ErrorCode>(e),
            None => r == Ok::<EscrowClosed, ErrorCode>(
                (EscrowClosed {
                    market: market.address,
                    closed_by: caller,
                    rent_reclaimed,
                    timestamp: now,
                }),
            ),
        },
{
    if !market.resolved {
        return Err(ErrorCode::MarketStillOpen);
    }
    if escrow_balance != 0 {
        return Err(ErrorCode::EscrowNotEmpty);
    }
    if caller != market.creator {
        return Err(ErrorCode::UnauthorizedClosure);
    }
    Ok(EscrowClosed { market: market.address, closed_by: caller, rent_reclaimed, timestamp: now })
}

} // verus!
