use vstd::prelude::*;

use crate::errors::BotError;
use crate::ident::Identity;

verus! {

/// The persistent per-owner record: who controls it, how aggressively it
/// sizes trades, and what it has done so far.
///
/// `strategy_type` is an opaque code: it is stored but nothing dispatches on
/// it. `successful_trades` and `total_profit` are declared by the record
/// layout but no operation mutates them; they stay at their creation value.
#[derive(Clone, Copy, PartialEq, Eq, Structural, Debug)]
pub struct Bot {
    /// Identity of the controlling principal; immutable after creation.
    pub owner: Identity,
    /// Bounds trade sizing; creation rejects values above 100.
    pub risk_percentage: u8,
    /// Opaque strategy code; stored, never interpreted.
    pub strategy_type: u8,
    /// Gates whether trades may execute. Starts `false`.
    pub is_active: bool,
    /// Count of executed trade operations; only ever incremented.
    pub total_trades: u64,
    /// Declared by the layout; never mutated by any operation.
    pub successful_trades: u64,
    /// Declared by the layout; never mutated by any operation.
    pub total_profit: i64,
}

impl Bot {
    /// A record is well formed when its risk percentage is a percentage.
    /// Creation establishes this and every operation preserves it.
    pub open spec fn wf(self) -> bool {
        self.risk_percentage <= 100
    }

    /// The record that creation hands back for this owner and these
    /// parameters: inactive, with every counter at zero.
    pub open spec fn fresh(owner: Identity, risk_percentage: u8, strategy_type: u8) -> Bot {
        Bot {
            owner,
            risk_percentage,
            strategy_type,
            is_active: false,
            total_trades: 0,
            successful_trades: 0,
            total_profit: 0,
        }
    }

    /// Builds a fresh, inactive record for `owner`. Rejects a risk
    /// percentage above 100 rather than storing an unusable bound.
    pub fn new(owner: Identity, risk_percentage: u8, strategy_type: u8) -> (r: Result<
        Bot,
        BotError,
    >)
        ensures
            risk_percentage <= 100 ==> r == Ok::<Bot, BotError>(
                Bot::fresh(owner, risk_percentage, strategy_type),
            ),
            risk_percentage > 100 ==> r == Err::<Bot, BotError>(BotError::InvalidRiskPercentage),
            r is Ok ==> r->Ok_0.wf(),
    {
        if risk_percentage > 100 {
            Err(BotError::InvalidRiskPercentage)
        } else {
            Ok(Bot {
                owner,
                risk_percentage,
                strategy_type,
                is_active: false,
                total_trades: 0,
                successful_trades: 0,
                total_profit: 0,
            })
        }
    }

    /// Switches an inactive record on. Only the owner may do so, and doing
    /// it twice is an error, not a no-op; a rejected call changes nothing.
    pub fn activate(&mut self, caller: Identity) -> (r: Result<(), BotError>)
        ensures
            caller != old(self).owner ==> r == Err::<(), BotError>(BotError::Unauthorized)
                && *final(self) == *old(self),
            caller == old(self).owner && old(self).is_active ==> r == Err::<(), BotError>(
                BotError::AlreadyActive,
            ) && *final(self) == *old(self),
            caller == old(self).owner && !old(self).is_active ==> r == Ok::<(), BotError>(())
                && *final(self) == (Bot { is_active: true, ..*old(self) }),
    {
        if caller != self.owner {
            Err(BotError::Unauthorized)
        } else if self.is_active {
            Err(BotError::AlreadyActive)
        } else {
            self.is_active = true;
            Ok(())
        }
    }

    /// Switches an active record off. Only the owner may do so, and doing
    /// it twice is an error, not a no-op; a rejected call changes nothing.
    pub fn deactivate(&mut self, caller: Identity) -> (r: Result<(), BotError>)
        ensures
            caller != old(self).owner ==> r == Err::<(), BotError>(BotError::Unauthorized)
                && *final(self) == *old(self),
            caller == old(self).owner && !old(self).is_active ==> r == Err::<(), BotError>(
                BotError::NotActive,
            ) && *final(self) == *old(self),
            caller == old(self).owner && old(self).is_active ==> r == Ok::<(), BotError>(())
                && *final(self) == (Bot { is_active: false, ..*old(self) }),
    {
        if caller != self.owner {
            Err(BotError::Unauthorized)
        } else if !self.is_active {
            Err(BotError::NotActive)
        } else {
            self.is_active = false;
            Ok(())
        }
    }

    /// The trade decision: validates the caller and the active flag, and
    /// sizes the trade from the record's risk percentage. Reads only; the
    /// caller settles the transfer and then records the trade.
    pub fn plan_trade(&self, caller: Identity, amount: u64) -> (r: Result<u64, BotError>)
        requires
            self.wf(),
        ensures
            caller != self.owner ==> r == Err::<u64, BotError>(BotError::Unauthorized),
            caller == self.owner && !self.is_active ==> r == Err::<u64, BotError>(
                BotError::NotActive,
            ),
            caller == self.owner && self.is_active ==> r == Ok::<u64, BotError>(
                trade_size(amount, self.risk_percentage) as u64,
            ),
    {
        if caller != self.owner {
            Err(BotError::Unauthorized)
        } else if !self.is_active {
            Err(BotError::NotActive)
        } else {
            Ok(trade_amount(amount, self.risk_percentage))
        }
    }

    /// Counts one executed trade operation. Nothing else of the record
    /// moves: `successful_trades` and `total_profit` stay as they were.
    pub fn record_trade(&mut self)
        requires
            old(self).total_trades < u64::MAX,
        ensures
            *final(self) == (Bot {
                total_trades: (old(self).total_trades + 1) as u64,
                ..*old(self)
            }),
    {
        self.total_trades = self.total_trades + 1;
    }
}

/// How much of `amount` a record with this risk percentage trades:
/// `amount * risk_percentage / 100`, rounded down.
pub open spec fn trade_size(amount: u64, risk_percentage: u8) -> int {
    (amount * risk_percentage) / 100
}

/// Sizes a trade exactly, with integer arithmetic: the product is formed in
/// 128 bits, so no intermediate overflows, and the quotient fits in `u64`
/// because the risk percentage is at most 100.
pub fn trade_amount(amount: u64, risk_percentage: u8) -> (t: u64)
    requires
        risk_percentage <= 100,
    ensures
        t == trade_size(amount, risk_percentage),
        t <= amount,
{
    proof {
        assert((amount * risk_percentage) / 100 <= amount && amount * risk_percentage
            <= u64::MAX * 100) by (nonlinear_arith)
            requires
                risk_percentage <= 100,
                amount <= u64::MAX,
        ;
    }
    let wide: u128 = (amount as u128) * (risk_percentage as u128) / 100;
    wide as u64
}

} // verus!
