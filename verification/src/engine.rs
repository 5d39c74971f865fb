//! The purchase engine of one account.
//!
//! The engine never talks to the network. It names the next remote call as a
//! [`Command`], the caller performs it and hands the outcome back as an
//! [`Event`]. All accounting (balance, attempt numbers, which item is next)
//! happens here.

use vstd::prelude::*;

verus! {

/// The attempt limit per item that applies when none is configured.
pub const DEFAULT_ATTEMPT_LIMIT: u64 = 100;

/// How one purchase attempt ended.
#[derive(Clone, Copy, Debug, PartialEq, Eq, Structural)]
pub enum AttemptStatus {
    /// No payment form could be obtained; nothing was charged.
    FormError,
    /// The form was obtained but its confirmation failed; nothing was deducted.
    ConfirmationError,
    /// The item was bought and its price deducted.
    Success,
}

/// An item identifier together with the price to pay for it.
#[derive(Clone, Copy, Debug, PartialEq, Eq, Structural)]
pub struct PricedItem {
    pub id: i64,
    pub price: i64,
}

/// The record of one attempt, as it is reported to the operators.
#[derive(Clone, Copy, Debug, PartialEq, Eq, Structural)]
pub struct PurchaseAttempt {
    pub item_id: i64,
    /// Sequence number of the attempt on this item, starting at 1.
    pub attempt: u64,
    /// The account's balance once the attempt was over.
    pub balance_after: i64,
    pub status: AttemptStatus,
}

/// Why an engine gave up.
#[derive(Clone, Copy, Debug, PartialEq, Eq, Structural)]
pub enum EngineFailure {
    /// The balance could not be fetched, so nothing was attempted.
    BalanceUnavailable,
    /// An attempt's record could not be delivered.
    ReportUndeliverable,
}

/// Where an engine stands.
#[derive(Clone, Copy, Debug, PartialEq, Eq, Structural)]
pub enum Phase {
    AwaitingBalance,
    AwaitingForm,
    AwaitingConfirmation,
    Finished,
    Failed(EngineFailure),
}

/// What the caller observed when it carried out a command.
#[derive(Clone, Copy, Debug, PartialEq, Eq, Structural)]
pub enum Event {
    BalanceFetched(i64),
    BalanceUnavailable,
    FormGranted,
    FormFailed,
    Confirmed,
    ConfirmFailed,
    ReportUndeliverable,
}

/// The remote call the engine wants next.
#[derive(Clone, Copy, Debug, PartialEq, Eq, Structural)]
pub enum Command {
    FetchBalance,
    RequestForm { item_id: i64, attempt: u64 },
    SubmitForm { item_id: i64, attempt: u64 },
    Finish,
    Abort(EngineFailure),
}

/// The mathematical state of an engine.
pub struct EngineModel {
    pub items: Seq<PricedItem>,
    pub limit: int,
    pub balance: int,
    /// Position of the item being worked on.
    pub item: int,
    /// Attempts already made on that item.
    pub made: int,
    pub phase: Phase,
}

/// The first `min(ids.len(), prices.len())` identifiers, each with its price.
pub open spec fn paired(ids: Seq<i64>, prices: Seq<i64>) -> Seq<PricedItem> {
    Seq::new(
        if ids.len() <= prices.len() { ids.len() } else { prices.len() },
        |i: int| PricedItem { id: ids[i], price: prices[i] },
    )
}

/// The limit that applies: the configured one, else the default.
pub open spec fn effective_limit(limit: Option<u64>) -> int {
    match limit {
        Some(l) => l as int,
        None => DEFAULT_ATTEMPT_LIMIT as int,
    }
}

/// No price is negative.
pub open spec fn prices_valid(prices: Seq<i64>) -> bool {
    forall|i: int| 0 <= i < prices.len() ==> prices[i] >= 0
}

/// No item has a negative price.
pub open spec fn payable(items: Seq<PricedItem>) -> bool {
    forall|i: int| 0 <= i < items.len() ==> (#[trigger] items[i]).price >= 0
}

impl EngineModel {
    /// The state of an engine that has not fetched its balance yet.
    pub open spec fn initial(items: Seq<PricedItem>, limit: int) -> EngineModel {
        EngineModel { items, limit, balance: 0, item: 0, made: 0, phase: Phase::AwaitingBalance }
    }

    /// What holds in every phase.
    pub open spec fn bounded(self) -> bool {
        &&& payable(self.items)
        &&& 0 <= self.item <= self.items.len()
        &&& 0 <= self.made <= self.limit
    }

    /// Whether the current item can take one more attempt.
    pub open spec fn can_attempt(self) -> bool {
        &&& 0 <= self.item < self.items.len()
        &&& self.made < self.limit
        &&& self.balance >= self.items[self.item].price
    }

    pub open spec fn wf(self) -> bool {
        &&& self.bounded()
        &&& match self.phase {
            Phase::AwaitingBalance => self.item == 0 && self.made == 0,
            Phase::AwaitingForm | Phase::AwaitingConfirmation => self.can_attempt(),
            Phase::Finished => self.item == self.items.len(),
            Phase::Failed(_) => true,
        }
    }

    /// Moves past every item that is out of attempts or out of reach of the
    /// balance, and stops at the first one that can be attempted.
    pub open spec fn settle(self) -> EngineModel
        decreases self.items.len() - self.item,
    {
        if self.item < 0 || self.item >= self.items.len() {
            EngineModel { phase: Phase::Finished, ..self }
        } else if self.can_attempt() {
            EngineModel { phase: Phase::AwaitingForm, ..self }
        } else {
            EngineModel { item: self.item + 1, made: 0, ..self }.settle()
        }
    }

    /// The state once the current attempt is over and `spent` was paid for it.
    pub open spec fn attempt_done(self, spent: int) -> EngineModel {
        EngineModel { balance: self.balance - spent, made: self.made + 1, ..self }.settle()
    }

    /// The state that follows `event`. An event that the current phase does
    /// not wait for changes nothing.
    pub open spec fn after(self, event: Event) -> EngineModel {
        match (self.phase, event) {
            (Phase::AwaitingBalance, Event::BalanceFetched(b)) => EngineModel {
                balance: b as int,
                ..self
            }.settle(),
            (Phase::AwaitingBalance, Event::BalanceUnavailable) => EngineModel {
                phase: Phase::Failed(EngineFailure::BalanceUnavailable),
                ..self
            },
            (Phase::AwaitingForm, Event::FormGranted) => EngineModel {
                phase: Phase::AwaitingConfirmation,
                ..self
            },
            (Phase::AwaitingForm, Event::FormFailed) => self.attempt_done(0),
            (Phase::AwaitingConfirmation, Event::Confirmed) => self.attempt_done(
                self.items[self.item].price as int,
            ),
            (Phase::AwaitingConfirmation, Event::ConfirmFailed) => self.attempt_done(0),
            (Phase::AwaitingForm, Event::ReportUndeliverable)
            | (Phase::AwaitingConfirmation, Event::ReportUndeliverable)
            | (Phase::Finished, Event::ReportUndeliverable) => EngineModel {
                phase: Phase::Failed(EngineFailure::ReportUndeliverable),
                ..self
            },
            _ => self,
        }
    }

    /// The record that `event` gives rise to, if it ends an attempt.
    pub open spec fn report(self, event: Event) -> Option<PurchaseAttempt> {
        match (self.phase, event) {
            (Phase::AwaitingForm, Event::FormFailed) => Some(
                self.record(self.balance, AttemptStatus::FormError),
            ),
            (Phase::AwaitingConfirmation, Event::Confirmed) => Some(
                self.record(self.balance - self.items[self.item].price, AttemptStatus::Success),
            ),
            (Phase::AwaitingConfirmation, Event::ConfirmFailed) => Some(
                self.record(self.balance, AttemptStatus::ConfirmationError),
            ),
            _ => None,
        }
    }

    /// The record of the attempt in progress.
    pub open spec fn record(self, balance_after: int, status: AttemptStatus) -> PurchaseAttempt {
        PurchaseAttempt {
            item_id: self.items[self.item].id,
            attempt: (self.made + 1) as u64,
            balance_after: balance_after as i64,
            status,
        }
    }

    /// The call that the engine is waiting for.
    pub open spec fn command(self) -> Command {
        match self.phase {
            Phase::AwaitingBalance => Command::FetchBalance,
            Phase::AwaitingForm => Command::RequestForm {
                item_id: self.items[self.item].id,
                attempt: (self.made + 1) as u64,
            },
            Phase::AwaitingConfirmation => Command::SubmitForm {
                item_id: self.items[self.item].id,
                attempt: (self.made + 1) as u64,
            },
            Phase::Finished => Command::Finish,
            Phase::Failed(f) => Command::Abort(f),
        }
    }
}

/// One account's purchase loop, driven from outside one event at a time.
#[derive(Clone, Debug)]
pub struct PurchaseEngine {
    items: Vec<PricedItem>,
    limit: u64,
    balance: i64,
    item: usize,
    made: u64,
    phase: Phase,
}

impl View for PurchaseEngine {
    type V = EngineModel;

    closed spec fn view(&self) -> EngineModel {
        EngineModel {
            items: self.items@,
            limit: self.limit as int,
            balance: self.balance as int,
            item: self.item as int,
            made: self.made as int,
            phase: self.phase,
        }
    }
}

impl PurchaseEngine {
    /// The invariant of an engine: that of its model.
    pub open spec fn wf(&self) -> bool {
        self@.wf()
    }

    /// An engine for the given items, in the given order. Identifiers and
    /// prices are paired by position. Without a limit each item gets up to
    /// [`DEFAULT_ATTEMPT_LIMIT`] attempts. A negative price is refused.
    pub fn new(gift_ids: &Vec<i64>, gift_prices: &Vec<i64>, limit: Option<u64>) -> (engine: Option<
        PurchaseEngine,
    >)
        ensures
            engine is Some <==> payable(paired(gift_ids@, gift_prices@)),
            engine matches Some(e) ==> e.wf() && e@ == EngineModel::initial(
                paired(gift_ids@, gift_prices@),
                effective_limit(limit),
            ),
    {
        let n: usize = if gift_ids.len() <= gift_prices.len() {
            gift_ids.len()
        } else {
            gift_prices.len()
        };
        let ghost target = paired(gift_ids@, gift_prices@);
        let mut items: Vec<PricedItem> = Vec::new();
        let mut i: usize = 0;
        while i < n
            invariant
                i <= n,
                n == target.len(),
                n <= gift_ids.len(),
                n <= gift_prices.len(),
                target == paired(gift_ids@, gift_prices@),
                items@ == target.take(i as int),
                forall|k: int| 0 <= k < i ==> (#[trigger] target[k]).price >= 0,
            decreases n - i,
        {
            let price: i64 = gift_prices[i];
            if price < 0 {
                proof {
                    assert(target[i as int].price < 0);
                }
                return None;
            }
            items.push(PricedItem { id: gift_ids[i], price });
            proof {
                assert(items@ =~= target.take(i as int + 1));
            }
            i = i + 1;
        }
        proof {
            assert(items@ =~= target);
        }
        let limit: u64 = match limit {
            Some(l) => l,
            None => DEFAULT_ATTEMPT_LIMIT,
        };
        Some(
            PurchaseEngine { items, limit, balance: 0, item: 0, made: 0, phase: Phase::AwaitingBalance },
        )
    }

    /// The balance as the engine tracks it.
    pub fn balance(&self) -> (b: i64)
        ensures
            b == self@.balance,
    {
        self.balance
    }

    /// The phase the engine is in.
    pub fn phase(&self) -> (p: Phase)
        ensures
            p == self@.phase,
    {
        self.phase
    }

    /// The call the engine is waiting for.
    pub fn command(&self) -> (c: Command)
        requires
            self.wf(),
        ensures
            c == self@.command(),
    {
        match self.phase {
            Phase::AwaitingBalance => Command::FetchBalance,
            Phase::AwaitingForm => Command::RequestForm {
                item_id: self.items[self.item].id,
                attempt: self.made + 1,
            },
            Phase::AwaitingConfirmation => Command::SubmitForm {
                item_id: self.items[self.item].id,
                attempt: self.made + 1,
            },
            Phase::Finished => Command::Finish,
            Phase::Failed(f) => Command::Abort(f),
        }
    }

    /// Takes in the outcome of the last command. Returns the record to
    /// report when the event ended an attempt.
    pub fn handle(&mut self, event: Event) -> (report: Option<PurchaseAttempt>)
        requires
            old(self).wf(),
        ensures
            final(self).wf(),
            final(self)@ == old(self)@.after(event),
            report == old(self)@.report(event),
    {
        match (self.phase, event) {
            (Phase::AwaitingBalance, Event::BalanceFetched(b)) => {
                self.balance = b;
                self.settle();
                None
            },
            (Phase::AwaitingBalance, Event::BalanceUnavailable) => {
                self.phase = Phase::Failed(EngineFailure::BalanceUnavailable);
                None
            },
            (Phase::AwaitingForm, Event::FormGranted) => {
                self.phase = Phase::AwaitingConfirmation;
                None
            },
            (Phase::AwaitingForm, Event::FormFailed) => Some(
                self.finish_attempt(0, AttemptStatus::FormError),
            ),
            (Phase::AwaitingConfirmation, Event::Confirmed) => {
                let price: i64 = self.items[self.item].price;
                Some(self.finish_attempt(price, AttemptStatus::Success))
            },
            (Phase::AwaitingConfirmation, Event::ConfirmFailed) => Some(
                self.finish_attempt(0, AttemptStatus::ConfirmationError),
            ),
            (Phase::AwaitingForm, Event::ReportUndeliverable)
            | (Phase::AwaitingConfirmation, Event::ReportUndeliverable)
            | (Phase::Finished, Event::ReportUndeliverable) => {
                self.phase = Phase::Failed(EngineFailure::ReportUndeliverable);
                None
            },
            _ => None,
        }
    }

    /// Closes the attempt in progress: pays `spent`, counts the attempt and
    /// moves on to whatever can be attempted next.
    fn finish_attempt(&mut self, spent: i64, status: AttemptStatus) -> (record: PurchaseAttempt)
        requires
            old(self)@.bounded(),
            old(self)@.can_attempt(),
            0 <= spent <= old(self)@.items[old(self)@.item].price,
        ensures
            final(self).wf(),
            final(self)@ == old(self)@.attempt_done(spent as int),
            record == old(self)@.record(old(self)@.balance - spent, status),
    {
        let record = PurchaseAttempt {
            item_id: self.items[self.item].id,
            attempt: self.made + 1,
            balance_after: self.balance - spent,
            status,
        };
        self.balance = self.balance - spent;
        self.made = self.made + 1;
        self.settle();
        record
    }

    /// Moves on to the first item that can be attempted.
    fn settle(&mut self)
        requires
            old(self)@.bounded(),
        ensures
            final(self).wf(),
            final(self)@ == old(self)@.settle(),
    {
        loop
            invariant
                self@.bounded(),
                self@.settle() == old(self)@.settle(),
            decreases self.items.len() - self.item,
        {
            if self.item >= self.items.len() {
                self.phase = Phase::Finished;
                return ;
            }
            let current: PricedItem = self.items[self.item];
            if self.made < self.limit && self.balance >= current.price {
                self.phase = Phase::AwaitingForm;
                return ;
            }
            self.item = self.item + 1;
            self.made = 0;
        }
    }
}

} // verus!
