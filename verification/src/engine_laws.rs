//! What holds of every run of a purchase engine, whatever the remote side
//! answers.

use crate::engine::{
    payable, AttemptStatus, EngineModel, Event, Phase, PricedItem, PurchaseAttempt,
};
use vstd::prelude::*;

verus! {

/// The state after a whole sequence of events, taken in order.
pub open spec fn run(m: EngineModel, events: Seq<Event>) -> EngineModel
    decreases events.len(),
{
    if events.len() == 0 {
        m
    } else {
        run(m.after(events[0]), events.skip(1))
    }
}

/// The records that a sequence of events gives rise to, in order.
pub open spec fn reports(m: EngineModel, events: Seq<Event>) -> Seq<PurchaseAttempt>
    decreases events.len(),
{
    if events.len() == 0 {
        Seq::empty()
    } else {
        let rest = reports(m.after(events[0]), events.skip(1));
        match m.report(events[0]) {
            Some(r) => seq![r] + rest,
            None => rest,
        }
    }
}

/// How many attempts a sequence of events records on the item at position
/// `position` of the engine's list.
pub open spec fn attempts_on(m: EngineModel, events: Seq<Event>, position: int) -> nat
    decreases events.len(),
{
    if events.len() == 0 {
        0
    } else {
        let rest = attempts_on(m.after(events[0]), events.skip(1), position);
        if m.report(events[0]) is Some && m.item == position {
            1 + rest
        } else {
            rest
        }
    }
}

/// What a sequence of events makes the account pay: the price of the item
/// in progress for every successful confirmation.
pub open spec fn paid(m: EngineModel, events: Seq<Event>) -> int
    decreases events.len(),
{
    if events.len() == 0 {
        0
    } else {
        let rest = paid(m.after(events[0]), events.skip(1));
        match m.report(events[0]) {
            Some(r) => if r.status == AttemptStatus::Success {
                m.items[m.item].price + rest
            } else {
                rest
            },
            None => rest,
        }
    }
}

/// Settling keeps balance, items and limit, never goes back in the list,
/// keeps the attempt count while it stays on the same item, and ends either
/// ready for an attempt or finished.
pub proof fn lemma_settle(m: EngineModel)
    requires
        m.bounded(),
    ensures
        m.settle().wf(),
        m.settle().balance == m.balance,
        m.settle().items == m.items,
        m.settle().limit == m.limit,
        m.settle().item >= m.item,
        m.settle().item == m.item ==> m.settle().made == m.made,
        m.settle().phase is AwaitingForm || m.settle().phase is Finished,
    decreases m.items.len() - m.item,
{
    if m.item < m.items.len() && !m.can_attempt() {
        lemma_settle(EngineModel { item: m.item + 1, made: 0, ..m });
    }
}

/// Every event leaves a well-formed engine well-formed, with the same items
/// and limit, and never moves it back in its list.
pub proof fn lemma_after_wf(m: EngineModel, event: Event)
    requires
        m.wf(),
    ensures
        m.after(event).wf(),
        m.after(event).items == m.items,
        m.after(event).limit == m.limit,
        m.after(event).item >= m.item,
        m.after(event).item == m.item ==> m.after(event).made >= m.made,
        m.report(event) is Some && m.after(event).item == m.item ==> m.after(event).made == m.made
            + 1,
{
    match (m.phase, event) {
        (Phase::AwaitingBalance, Event::BalanceFetched(b)) => {
            lemma_settle(EngineModel { balance: b as int, ..m });
        },
        (Phase::AwaitingForm, Event::FormFailed) | (Phase::AwaitingConfirmation, Event::ConfirmFailed) => {
            lemma_settle(EngineModel { balance: m.balance - 0, made: m.made + 1, ..m });
        },
        (Phase::AwaitingConfirmation, Event::Confirmed) => {
            lemma_settle(
                EngineModel {
                    balance: m.balance - m.items[m.item].price,
                    made: m.made + 1,
                    ..m
                },
            );
        },
        _ => {},
    }
}

/// Once the balance is known, an event never raises it: a successful
/// confirmation lowers it by exactly the item's price, and every other event
/// leaves it as it was. The record carries the balance after the attempt.
pub proof fn lemma_balance_step(m: EngineModel, event: Event)
    requires
        m.wf(),
        !(m.phase is AwaitingBalance),
    ensures
        m.after(event).balance <= m.balance,
        match m.report(event) {
            Some(r) => r.status == AttemptStatus::Success ==> m.after(event).balance == m.balance
                - m.items[m.item].price,
            None => true,
        },
        !(m.report(event) matches Some(r) && r.status == AttemptStatus::Success) ==> m.after(
            event,
        ).balance == m.balance,
        i64::MIN <= m.balance <= i64::MAX ==> (m.report(event) matches Some(r) ==> r.balance_after
            == m.after(event).balance),
{
    match (m.phase, event) {
        (Phase::AwaitingForm, Event::FormFailed) | (Phase::AwaitingConfirmation, Event::ConfirmFailed) => {
            lemma_settle(EngineModel { balance: m.balance - 0, made: m.made + 1, ..m });
        },
        (Phase::AwaitingConfirmation, Event::Confirmed) => {
            lemma_settle(
                EngineModel {
                    balance: m.balance - m.items[m.item].price,
                    made: m.made + 1,
                    ..m
                },
            );
        },
        _ => {},
    }
}

/// Every record names the item in progress and an attempt number between 1
/// and the limit.
pub proof fn lemma_attempt_within_limit(m: EngineModel, event: Event)
    requires
        m.wf(),
        m.limit <= u64::MAX,
    ensures
        m.report(event) matches Some(r) ==> 1 <= r.attempt <= m.limit && r.attempt == m.made + 1
            && r.item_id == m.items[m.item].id,
{
}

/// Every record of a whole run carries an attempt number between 1 and the
/// limit.
pub proof fn lemma_reports_within_limit(m: EngineModel, events: Seq<Event>)
    requires
        m.wf(),
        m.limit <= u64::MAX,
    ensures
        forall|k: int|
            0 <= k < reports(m, events).len() ==> 1 <= (#[trigger] reports(m, events)[k]).attempt
                <= m.limit,
    decreases events.len(),
{
    if events.len() > 0 {
        lemma_after_wf(m, events[0]);
        lemma_attempt_within_limit(m, events[0]);
        lemma_reports_within_limit(m.after(events[0]), events.skip(1));
    }
}

/// Over a whole run that starts with a known balance, the balance never
/// rises.
pub proof fn lemma_balance_non_increasing(m: EngineModel, events: Seq<Event>)
    requires
        m.wf(),
        !(m.phase is AwaitingBalance),
    ensures
        run(m, events).balance <= m.balance,
        run(m, events).wf(),
        !(run(m, events).phase is AwaitingBalance),
    decreases events.len(),
{
    if events.len() > 0 {
        lemma_after_wf(m, events[0]);
        lemma_balance_step(m, events[0]);
        lemma_phase_leaves_balance(m, events[0]);
        lemma_balance_non_increasing(m.after(events[0]), events.skip(1));
    }
}

/// Over a whole run that starts with a known balance, the balance drops by
/// the prices of the successful attempts and by nothing else.
pub proof fn lemma_balance_accounts_for_successes(m: EngineModel, events: Seq<Event>)
    requires
        m.wf(),
        !(m.phase is AwaitingBalance),
    ensures
        run(m, events).balance == m.balance - paid(m, events),
        paid(m, events) >= 0,
    decreases events.len(),
{
    if events.len() > 0 {
        lemma_after_wf(m, events[0]);
        lemma_balance_step(m, events[0]);
        lemma_phase_leaves_balance(m, events[0]);
        lemma_balance_accounts_for_successes(m.after(events[0]), events.skip(1));
    }
}

/// An engine that knows its balance never waits for it again.
pub proof fn lemma_phase_leaves_balance(m: EngineModel, event: Event)
    requires
        m.wf(),
        !(m.phase is AwaitingBalance),
    ensures
        !(m.after(event).phase is AwaitingBalance),
{
    match (m.phase, event) {
        (Phase::AwaitingForm, Event::FormFailed) | (Phase::AwaitingConfirmation, Event::ConfirmFailed) => {
            lemma_settle(EngineModel { balance: m.balance - 0, made: m.made + 1, ..m });
        },
        (Phase::AwaitingConfirmation, Event::Confirmed) => {
            lemma_settle(
                EngineModel {
                    balance: m.balance - m.items[m.item].price,
                    made: m.made + 1,
                    ..m
                },
            );
        },
        _ => {},
    }
}

/// The attempts still to come on one position are bounded by what is left of
/// the limit there: nothing for a position already passed, the limit less the
/// attempts made for the current one, the whole limit for a later one.
pub proof fn lemma_attempts_bounded(m: EngineModel, events: Seq<Event>, position: int)
    requires
        m.wf(),
    ensures
        position < m.item ==> attempts_on(m, events, position) == 0,
        position == m.item ==> attempts_on(m, events, position) <= m.limit - m.made,
        position > m.item ==> attempts_on(m, events, position) <= m.limit,
    decreases events.len(),
{
    if events.len() > 0 {
        lemma_after_wf(m, events[0]);
        lemma_attempts_bounded(m.after(events[0]), events.skip(1), position);
    }
}

/// From a fresh engine, whatever the events, no position of the list gets
/// more attempts recorded than the limit allows.
pub proof fn lemma_limit_respected(
    items: Seq<PricedItem>,
    limit: int,
    events: Seq<Event>,
    position: int,
)
    requires
        limit >= 0,
        payable(items),
    ensures
        attempts_on(EngineModel::initial(items, limit), events, position) <= limit,
{
    let m = EngineModel::initial(items, limit);
    lemma_attempts_bounded(m, events, position);
}

} // verus!
