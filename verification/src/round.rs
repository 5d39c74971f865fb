//! A purchase round: one engine per account over the same priced list, and
//! the round's outcome once every engine has ended.

use crate::channel::{BuyGiftsDestination, DestinationPeer, FoundChat};
use crate::engine::{
    effective_limit, paired, payable, prices_valid, EngineModel, Phase, PurchaseEngine,
};
use crate::error::Error;
use crate::prices::{resolve_prices_from, resolved_from, PriceSource};
use vstd::prelude::*;

verus! {

/// How a round stands.
#[derive(Clone, Debug, PartialEq, Eq)]
pub enum RoundOutcome {
    /// Some account's engine has not ended yet.
    Running,
    /// Every engine finished.
    Succeeded,
    /// Every engine has ended and at least one gave up.
    Failed(Error),
}

/// An engine has ended when it finished or gave up.
pub open spec fn ended(phase: Phase) -> bool {
    phase is Finished || phase is Failed
}

/// All engines have ended.
pub open spec fn all_ended(engines: Seq<PurchaseEngine>) -> bool {
    forall|i: int| 0 <= i < engines.len() ==> ended((#[trigger] engines[i])@.phase)
}

/// No engine before position `upto` gave up.
pub open spec fn none_failed(engines: Seq<PurchaseEngine>, upto: int) -> bool {
    forall|i: int| 0 <= i < upto && i < engines.len() ==> !((#[trigger] engines[i])@.phase is Failed)
}

/// The outcome of a round. While an engine is still at work the round has
/// none: one account's failure never cuts another account short. Once all
/// have ended, the failure of the first account that gave up (in the order
/// of the accounts) is the round's failure.
pub open spec fn outcome_of(engines: Seq<PurchaseEngine>, outcome: RoundOutcome) -> bool {
    match outcome {
        RoundOutcome::Running => !all_ended(engines),
        RoundOutcome::Succeeded => all_ended(engines) && none_failed(engines, engines.len() as int),
        RoundOutcome::Failed(e) => all_ended(engines) && exists|i: int|
            {
                &&& 0 <= i < engines.len()
                &&& none_failed(engines, i)
                &&& (#[trigger] engines[i])@.phase matches Phase::Failed(f)
                &&& e == Error::Engine(f)
            },
    }
}

/// Sets up a purchase round: one engine per account, each over the same
/// gifts in the same priority order, each still to fetch its own balance.
/// A negative price is refused and no engine is made.
pub fn buy_gifts(
    accounts: usize,
    gift_ids: &Vec<i64>,
    gift_prices: &Vec<i64>,
    limit: Option<u64>,
) -> (engines: Option<Vec<PurchaseEngine>>)
    requires
        accounts >= 1,
    ensures
        engines is Some <==> payable(paired(gift_ids@, gift_prices@)),
        engines matches Some(es) ==> {
            &&& es@.len() == accounts
            &&& forall|i: int|
                0 <= i < accounts ==> (#[trigger] es@[i]).wf() && es@[i]@ == EngineModel::initial(
                    paired(gift_ids@, gift_prices@),
                    effective_limit(limit),
                )
        },
{
    let mut engines: Vec<PurchaseEngine> = Vec::new();
    let mut i: usize = 0;
    while i < accounts
        invariant
            i <= accounts,
            engines@.len() == i,
            i > 0 ==> payable(paired(gift_ids@, gift_prices@)),
            forall|k: int|
                0 <= k < i ==> (#[trigger] engines@[k]).wf() && engines@[k]@ == EngineModel::initial(
                    paired(gift_ids@, gift_prices@),
                    effective_limit(limit),
                ),
        decreases accounts - i,
    {
        match PurchaseEngine::new(gift_ids, gift_prices, limit) {
            Some(engine) => {
                engines.push(engine);
            },
            None => {
                return None;
            },
        }
        i = i + 1;
    }
    Some(engines)
}

/// A round that is ready to run.
#[derive(Debug)]
pub struct Round {
    /// Where the gifts go.
    pub destination: DestinationPeer,
    /// The price of each gift, in the order of the gifts.
    pub gift_prices: Vec<i64>,
    /// One engine per account, in the order of the accounts.
    pub engines: Vec<PurchaseEngine>,
}

/// Whether `outcome` is what the preparation of a round leads to: the
/// destination's failure if it has one, else the price lookup's, else a
/// refusal if a gift's price is negative, else one fresh engine per account.
pub open spec fn prepared(
    accounts: usize,
    gift_ids: Seq<i64>,
    source: PriceSource<'_>,
    limit: Option<u64>,
    dest: BuyGiftsDestination,
    found: Option<FoundChat>,
    outcome: Result<Round, Error>,
) -> bool {
    match dest.resolution(found) {
        Err(e) => outcome == Err::<Round, Error>(e),
        Ok(peer) => match outcome {
            Err(e) => resolved_from(gift_ids, source, Err(e)) || (e == Error::NegativeGiftPrice
                && exists|prices: Vec<i64>|
                resolved_from(gift_ids, source, Ok(prices)) && !prices_valid(prices@)),
            Ok(round) => {
                &&& round.destination == peer
                &&& resolved_from(gift_ids, source, Ok(round.gift_prices))
                &&& prices_valid(round.gift_prices@)
                &&& round.engines@.len() == accounts
                &&& forall|i: int|
                    0 <= i < accounts ==> (#[trigger] round.engines@[i]).wf() && round.engines@[i]@
                        == EngineModel::initial(
                        paired(gift_ids, round.gift_prices@),
                        effective_limit(limit),
                    )
            },
        },
    }
}

/// Prepares a purchase round. The destination is resolved first and once:
/// `found` is what the lookup of its username returned, where it needs one.
/// Then the prices are resolved, once for all accounts. Only then are the
/// engines made. A failure on the way means that nothing is bought.
pub fn start_round(
    accounts: usize,
    gift_ids: &Vec<i64>,
    source: PriceSource<'_>,
    limit: Option<u64>,
    dest: &BuyGiftsDestination,
    found: Option<FoundChat>,
) -> (outcome: Result<Round, Error>)
    requires
        accounts >= 1,
    ensures
        prepared(accounts, gift_ids@, source, limit, *dest, found, outcome),
{
    let destination = match dest.resolve(found) {
        Ok(peer) => peer,
        Err(e) => {
            return Err(e);
        },
    };
    let gift_prices = match resolve_prices_from(gift_ids, source) {
        Ok(prices) => prices,
        Err(e) => {
            return Err(e);
        },
    };
    proof {
        lemma_paired_prices(gift_ids@, gift_prices@, source);
    }
    match buy_gifts(accounts, gift_ids, &gift_prices, limit) {
        Some(engines) => Ok(Round { destination, gift_prices, engines }),
        None => Err(Error::NegativeGiftPrice),
    }
}

/// Resolved prices are as many as the gifts, so pairing drops none of them.
proof fn lemma_paired_prices(gift_ids: Seq<i64>, prices: Seq<i64>, source: PriceSource<'_>)
    requires
        exists|v: Vec<i64>| v@ == prices && resolved_from(gift_ids, source, Ok(v)),
    ensures
        prices.len() == gift_ids.len(),
        payable(paired(gift_ids, prices)) <==> prices_valid(prices),
{
    let items = paired(gift_ids, prices);
    if payable(items) {
        assert forall|i: int| 0 <= i < prices.len() implies prices[i] >= 0 by {
            assert(items[i].price >= 0);
        }
    }
}

/// One account's failure does not end the round for the others: as long as
/// some engine has not ended, the round's outcome is neither success nor
/// failure, whichever engines have failed by then.
pub proof fn lemma_failure_waits_for_all(engines: Seq<PurchaseEngine>, outcome: RoundOutcome, busy: int)
    requires
        outcome_of(engines, outcome),
        0 <= busy < engines.len(),
        !ended(engines[busy]@.phase),
    ensures
        outcome == RoundOutcome::Running,
{
}

/// Joins the accounts of a round.
pub fn round_outcome(engines: &Vec<PurchaseEngine>) -> (outcome: RoundOutcome)
    ensures
        outcome_of(engines@, outcome),
{
    let mut first_failure: Option<Error> = None;
    let ghost mut failed_at: int = 0;
    let mut i: usize = 0;
    while i < engines.len()
        invariant
            i <= engines.len(),
            all_ended(engines@.take(i as int)),
            first_failure is None ==> none_failed(engines@, i as int),
            first_failure matches Some(e) ==> {
                &&& 0 <= failed_at < i
                &&& none_failed(engines@, failed_at)
                &&& engines@[failed_at]@.phase matches Phase::Failed(f)
                &&& e == Error::Engine(f)
            },
        decreases engines.len() - i,
    {
        match engines[i].phase() {
            Phase::Finished => {},
            Phase::Failed(f) => {
                if first_failure.is_none() {
                    first_failure = Some(Error::Engine(f));
                    proof {
                        failed_at = i as int;
                    }
                }
            },
            _ => {
                proof {
                    assert(!ended(engines@[i as int]@.phase));
                }
                return RoundOutcome::Running;
            },
        }
        proof {
            assert forall|k: int| 0 <= k < i + 1 implies ended(
                (#[trigger] engines@.take(i as int + 1)[k])@.phase,
            ) by {
                if k < i {
                    assert(engines@.take(i as int)[k] == engines@[k]);
                }
            }
        }
        i = i + 1;
    }
    proof {
        assert(engines@.take(i as int) =~= engines@);
    }
    match first_failure {
        Some(e) => RoundOutcome::Failed(e),
        None => RoundOutcome::Succeeded,
    }
}

} // verus!
