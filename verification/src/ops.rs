use vstd::prelude::*;

use crate::bot::Bot;
use crate::bot::trade_size;
use crate::errors::BotError;
use crate::ident::Identity;
use crate::ledger::Ledger;
use crate::store::BotStore;

verus! {

/// The creation instruction: allocates a fresh, inactive record for `owner`
/// in the store. Fails with `AllocationExists` where this owner already has
/// one, and with `InvalidRiskPercentage` where the risk parameter is above
/// 100; a failed call changes nothing.
pub fn initialize_bot(
    store: &mut BotStore,
    owner: Identity,
    risk_percentage: u8,
    strategy_type: u8,
) -> (r: Result<(), BotError>)
    requires
        old(store).wf(),
    ensures
        final(store).wf(),
        old(store).contains(owner) ==> r == Err::<(), BotError>(BotError::AllocationExists),
        !old(store).contains(owner) && risk_percentage > 100 ==> r == Err::<(), BotError>(
            BotError::InvalidRiskPercentage,
        ),
        !old(store).contains(owner) && risk_percentage <= 100 ==> r == Ok::<(), BotError>(()),
        r is Err ==> *final(store) == *old(store),
        r is Ok ==> final(store).bot_of(owner) == Some(
            Bot::fresh(owner, risk_percentage, strategy_type),
        ),
        forall|x: Identity| x != owner ==> final(store).bot_of(x) == old(store).bot_of(x),
{
    store.create(owner, risk_percentage, strategy_type)
}

/// The activation instruction: fetches the record stored under `bot_owner`
/// and switches it on, exactly when `caller` is its owner and it was
/// inactive. Any failure leaves the store as it was.
pub fn activate_bot(store: &mut BotStore, bot_owner: Identity, caller: Identity) -> (r: Result<
    (),
    BotError,
>)
    requires
        old(store).wf(),
        old(store).contains(bot_owner),
    ensures
        final(store).wf(),
        ({
            let b = old(store).bot_of(bot_owner)->Some_0;
            &&& (caller != b.owner ==> r == Err::<(), BotError>(BotError::Unauthorized))
            &&& (caller == b.owner && b.is_active ==> r == Err::<(), BotError>(
                BotError::AlreadyActive,
            ))
            &&& (caller == b.owner && !b.is_active ==> r == Ok::<(), BotError>(()))
            &&& (r is Ok ==> final(store).bot_of(bot_owner) == Some(
                (Bot { is_active: true, ..b }),
            ))
        }),
        r is Err ==> *final(store) == *old(store),
        forall|x: Identity| x != bot_owner ==> final(store).bot_of(x) == old(store).bot_of(x),
{
    let mut b = match store.bot(bot_owner) {
        Some(b) => b,
        None => vstd::pervasive::unreached(),
    };
    match b.activate(caller) {
        Ok(()) => {
            store.put(bot_owner, b);
            Ok(())
        },
        Err(e) => Err(e),
    }
}

/// The deactivation instruction: fetches the record stored under
/// `bot_owner` and switches it off, exactly when `caller` is its owner and
/// it was active. Any failure leaves the store as it was.
pub fn deactivate_bot(store: &mut BotStore, bot_owner: Identity, caller: Identity) -> (r: Result<
    (),
    BotError,
>)
    requires
        old(store).wf(),
        old(store).contains(bot_owner),
    ensures
        final(store).wf(),
        ({
            let b = old(store).bot_of(bot_owner)->Some_0;
            &&& (caller != b.owner ==> r == Err::<(), BotError>(BotError::Unauthorized))
            &&& (caller == b.owner && !b.is_active ==> r == Err::<(), BotError>(
                BotError::NotActive,
            ))
            &&& (caller == b.owner && b.is_active ==> r == Ok::<(), BotError>(()))
            &&& (r is Ok ==> final(store).bot_of(bot_owner) == Some(
                (Bot { is_active: false, ..b }),
            ))
        }),
        r is Err ==> *final(store) == *old(store),
        forall|x: Identity| x != bot_owner ==> final(store).bot_of(x) == old(store).bot_of(x),
{
    let mut b = match store.bot(bot_owner) {
        Some(b) => b,
        None => vstd::pervasive::unreached(),
    };
    match b.deactivate(caller) {
        Ok(()) => {
            store.put(bot_owner, b);
            Ok(())
        },
        Err(e) => Err(e),
    }
}

/// The trade instruction. Against the record stored under `bot_owner` it
/// checks that `caller` is the owner and the record is active, sizes the
/// trade as `amount * risk_percentage / 100`, and, for a buy, moves that
/// much native value from `caller` to `market` on the ledger. The trade
/// counter rises by one exactly when everything before it succeeded: a
/// failed transfer, like any other failure, commits nothing at all. A sell
/// moves no value — the sell path is deliberately absent — but still counts
/// as an executed trade.
pub fn execute_trade(
    store: &mut BotStore,
    ledger: &mut Ledger,
    bot_owner: Identity,
    caller: Identity,
    market: Identity,
    amount: u64,
    is_buy: bool,
) -> (r: Result<(), BotError>)
    requires
        old(store).wf(),
        old(ledger).wf(),
        old(store).contains(bot_owner),
        old(store).bot_of(bot_owner)->Some_0.wf(),
        old(store).bot_of(bot_owner)->Some_0.total_trades < u64::MAX,
    ensures
        final(store).wf(),
        final(ledger).wf(),
        r is Err ==> *final(store) == *old(store) && *final(ledger) == *old(ledger),
        ({
            let b = old(store).bot_of(bot_owner)->Some_0;
            let amt = trade_size(amount, b.risk_percentage) as u64;
            &&& (caller != b.owner ==> r == Err::<(), BotError>(BotError::Unauthorized))
            &&& (caller == b.owner && !b.is_active ==> r == Err::<(), BotError>(
                BotError::NotActive,
            ))
            &&& (caller == b.owner && b.is_active && is_buy
                ==> (match old(ledger).transfer_outcome(caller, market, amt) {
                Ok(u) => r == Ok::<(), BotError>(()),
                Err(te) => r == Err::<(), BotError>(BotError::TransferFailed(te)),
            }))
            &&& (caller == b.owner && b.is_active && !is_buy ==> r == Ok::<(), BotError>(())
                && *final(ledger) == *old(ledger))
            &&& (r is Ok ==> final(store).bot_of(bot_owner) == Some(
                (Bot { total_trades: (b.total_trades + 1) as u64, ..b }),
            ))
            &&& (r is Ok && is_buy && caller != market ==> final(ledger).balance_of(caller)
                == Some((old(ledger).balance_of(caller)->Some_0 - amt) as u64)
                && final(ledger).balance_of(market)
                == Some((old(ledger).balance_of(market)->Some_0 + amt) as u64))
            &&& (r is Ok && is_buy && caller == market ==> *final(ledger) == *old(ledger))
        }),
        forall|x: Identity| x != bot_owner ==> final(store).bot_of(x) == old(store).bot_of(x),
        forall|x: Identity| final(ledger).has_account(x) == old(ledger).has_account(x),
        forall|x: Identity|
            x != caller && x != market ==> final(ledger).balance_of(x) == old(ledger).balance_of(
                x,
            ),
{
    let mut b = match store.bot(bot_owner) {
        Some(b) => b,
        None => vstd::pervasive::unreached(),
    };
    let amt = match b.plan_trade(caller, amount) {
        Ok(a) => a,
        Err(e) => {
            return Err(e);
        },
    };
    if is_buy {
        match ledger.transfer(caller, market, amt) {
            Ok(()) => (),
            Err(te) => {
                return Err(BotError::TransferFailed(te));
            },
        }
    }
    b.record_trade();
    store.put(bot_owner, b);
    Ok(())
}

} // verus!
