//! One aggregation pass over an invoice: running totals per meter, and the
//! same sums over the items that ended within the freshness window.
use vstd::prelude::*;
use crate::invoice::{Data, LineItem, key_of, logical_key};
use crate::ledger::{Ledger, SummaryView, add_item};
use crate::time::{Timestamp, parsed_instant, within_window, parse_rfc3339, is_recent, utc_now};

verus! {

/// Summaries of all `items`, folded in document order.
pub open spec fn totals_of(items: Seq<LineItem>) -> Map<Seq<char>, SummaryView>
    decreases items.len(),
{
    if items.len() == 0 {
        Map::empty()
    } else {
        add_item(totals_of(items.drop_last()), items.last())
    }
}

/// `item` ended, as parsed from its text, less than 30 hours before `now`.
pub open spec fn is_fresh(item: LineItem, now: Timestamp) -> bool {
    match parsed_instant(item.end_date@) {
        Some(end) => within_window(now, end),
        None => false,
    }
}

/// Summaries of the items among `items` that are fresh at `now`, folded in document order.
pub open spec fn rates_of(items: Seq<LineItem>, now: Timestamp) -> Map<Seq<char>, SummaryView>
    decreases items.len(),
{
    if items.len() == 0 {
        Map::empty()
    } else if is_fresh(items.last(), now) {
        add_item(rates_of(items.drop_last(), now), items.last())
    } else {
        rates_of(items.drop_last(), now)
    }
}

/// Every summary in `m` has amounts between 0 and `n` times the largest `u64`.
pub open spec fn bounded(m: Map<Seq<char>, SummaryView>, n: int) -> bool {
    forall|k: Seq<char>|
        #[trigger] m.contains_key(k) ==> 0 <= m[k].quantity <= n * u64::MAX && 0
            <= m[k].total_price_cents <= n * u64::MAX
}

proof fn lemma_add_item_bounded(m: Map<Seq<char>, SummaryView>, item: LineItem, n: int)
    requires
        n >= 0,
        bounded(m, n),
    ensures
        bounded(add_item(m, item), n + 1),
{
    assert(n * u64::MAX + u64::MAX == (n + 1) * u64::MAX) by (nonlinear_arith);
    assert(0 <= n * u64::MAX) by (nonlinear_arith)
        requires
            n >= 0,
    ;
}

proof fn lemma_sums_bounded(items: Seq<LineItem>, now: Timestamp)
    ensures
        bounded(totals_of(items), items.len() as int),
        bounded(rates_of(items, now), items.len() as int),
    decreases items.len(),
{
    if items.len() > 0 {
        let rest = items.drop_last();
        lemma_sums_bounded(rest, now);
        lemma_add_item_bounded(totals_of(rest), items.last(), rest.len() as int);
        lemma_add_item_bounded(rates_of(rest, now), items.last(), rest.len() as int);
        let m = rates_of(rest, now);
        assert(rest.len() * u64::MAX <= items.len() * u64::MAX) by (nonlinear_arith)
            requires
                rest.len() <= items.len(),
        ;
        assert forall|k: Seq<char>| #[trigger] m.contains_key(k) implies 0 <= m[k].quantity
            <= items.len() * u64::MAX && 0 <= m[k].total_price_cents <= items.len()
            * u64::MAX by {}
    }
}

/// Runs one aggregation pass over `data` as seen at `now`: the summaries of
/// all line items, and those of the items that are fresh at `now`.
pub fn aggregate(data: &Data, now: Timestamp) -> (r: (Ledger, Ledger))
    ensures
        r.0.wf(),
        r.1.wf(),
        r.0@ == totals_of(data.line_items@),
        r.1@ == rates_of(data.line_items@, now),
{
    let items = &data.line_items;
    let mut totals = Ledger::new();
    let mut rates = Ledger::new();
    let mut i: usize = 0;
    assert(items@.take(0) =~= Seq::<LineItem>::empty());
    while i < items.len()
        invariant
            i <= items@.len(),
            totals.wf(),
            rates.wf(),
            totals@ == totals_of(items@.take(i as int)),
            rates@ == rates_of(items@.take(i as int), now),
        decreases items@.len() - i,
    {
        let item = &items[i];
        let key = logical_key(item);
        proof {
            let done = items@.take(i as int);
            lemma_sums_bounded(done, now);
            assert(done.len() * u64::MAX + u64::MAX <= u128::MAX) by (nonlinear_arith)
                requires
                    done.len() <= usize::MAX,
            ;
            if totals@.contains_key(key@) {
                assert(totals@[key@].quantity <= done.len() * u64::MAX);
            }
            if rates@.contains_key(key@) {
                assert(rates@[key@].quantity <= done.len() * u64::MAX);
            }
        }
        totals.add(key.clone(), item);
        match parse_rfc3339(item.end_date.as_str()) {
            Some(end) => {
                if is_recent(now, end) {
                    rates.add(key, item);
                }
            },
            None => {},
        }
        proof {
            assert(items@.take(i + 1).drop_last() =~= items@.take(i as int));
            assert(items@.take(i + 1).last() == *item);
        }
        i = i + 1;
    }
    assert(items@.take(i as int) =~= items@);
    (totals, rates)
}

/// Runs one aggregation pass over `data` at the current time, and returns
/// that time with the totals and the rates.
pub fn aggregate_now(data: &Data) -> (r: (Timestamp, Ledger, Ledger))
    ensures
        r.1.wf(),
        r.2.wf(),
        r.1@ == totals_of(data.line_items@),
        r.2@ == rates_of(data.line_items@, r.0),
{
    let now = utc_now();
    let (totals, rates) = aggregate(data, now);
    (now, totals, rates)
}

} // verus!
