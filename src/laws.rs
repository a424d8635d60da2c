//! What holds of every aggregation pass.
use vstd::prelude::*;
use crate::aggregate::{totals_of, rates_of, is_fresh};
use crate::invoice::{LineItem, key_of};
use crate::ledger::add_item;
use crate::order::{text_after, lemma_bytes_after_irreflexive, lemma_bytes_after_transitive};
use crate::time::{Timestamp, parsed_instant, within_window, WINDOW_NANOS};

verus! {

/// Sum of the quantities of the items among `items` whose meter is `k`.
pub open spec fn quantity_sum(items: Seq<LineItem>, k: Seq<char>) -> int
    decreases items.len(),
{
    if items.len() == 0 {
        0
    } else {
        quantity_sum(items.drop_last(), k) + if key_of(items.last()) == k {
            items.last().quantity as int
        } else {
            0
        }
    }
}

/// Sum of the prices of the items among `items` whose meter is `k`.
pub open spec fn price_sum(items: Seq<LineItem>, k: Seq<char>) -> int
    decreases items.len(),
{
    if items.len() == 0 {
        0
    } else {
        price_sum(items.drop_last(), k) + if key_of(items.last()) == k {
            items.last().total_price_cents as int
        } else {
            0
        }
    }
}

/// The predicate `is_fresh(_, now)`.
pub open spec fn fresh_at(now: Timestamp) -> spec_fn(LineItem) -> bool {
    |x: LineItem| is_fresh(x, now)
}

/// The rates are the totals of the items that are fresh at `now`, taken in
/// document order.
pub proof fn lemma_rates_are_totals_of_fresh_items(items: Seq<LineItem>, now: Timestamp)
    ensures
        rates_of(items, now) == totals_of(items.filter(fresh_at(now))),
    decreases items.len(),
{
    reveal(Seq::filter);
    if items.len() > 0 {
        let pred = fresh_at(now);
        let rest = items.drop_last();
        lemma_rates_are_totals_of_fresh_items(rest, now);
        let sub = rest.filter(pred);
        assert(sub.push(items.last()).drop_last() =~= sub);
        assert(pred(items.last()) == is_fresh(items.last(), now));
    }
}

/// A meter has a total exactly when some item belongs to it.
pub proof fn lemma_total_keys(items: Seq<LineItem>, k: Seq<char>)
    ensures
        totals_of(items).contains_key(k) <==> exists|i: int|
            0 <= i < items.len() && key_of(#[trigger] items[i]) == k,
    decreases items.len(),
{
    if items.len() > 0 {
        let rest = items.drop_last();
        lemma_total_keys(rest, k);
        if totals_of(rest).contains_key(k) {
            let i = choose|i: int| 0 <= i < rest.len() && key_of(#[trigger] rest[i]) == k;
            assert(items[i] == rest[i]);
        }
        if exists|i: int| 0 <= i < items.len() && key_of(#[trigger] items[i]) == k {
            let i = choose|i: int| 0 <= i < items.len() && key_of(#[trigger] items[i]) == k;
            if i < rest.len() {
                assert(rest[i] == items[i]);
            }
        }
    }
}

/// Rates are a subset of totals: every meter with a rate also has a total.
pub proof fn lemma_rate_keys_have_totals(items: Seq<LineItem>, now: Timestamp)
    ensures
        forall|k: Seq<char>| #[trigger]
            rates_of(items, now).contains_key(k) ==> totals_of(items).contains_key(k),
    decreases items.len(),
{
    if items.len() > 0 {
        let rest = items.drop_last();
        lemma_rate_keys_have_totals(rest, now);
        assert forall|k: Seq<char>| #[trigger]
            rates_of(items, now).contains_key(k) implies totals_of(items).contains_key(k) by {
            if k != key_of(items.last()) {
                assert(rates_of(rest, now).contains_key(k));
                assert(totals_of(rest).contains_key(k));
            }
        }
    }
}

/// The total of a meter sums the quantities and prices of exactly the items
/// that belong to it.
pub proof fn lemma_totals_are_sums(items: Seq<LineItem>, k: Seq<char>)
    requires
        totals_of(items).contains_key(k),
    ensures
        totals_of(items)[k].quantity == quantity_sum(items, k),
        totals_of(items)[k].total_price_cents == price_sum(items, k),
    decreases items.len(),
{
    let rest = items.drop_last();
    if totals_of(rest).contains_key(k) {
        lemma_totals_are_sums(rest, k);
    } else {
        assert(key_of(items.last()) == k);
        lemma_zero_sums_without_key(rest, k);
    }
}

proof fn lemma_zero_sums_without_key(items: Seq<LineItem>, k: Seq<char>)
    requires
        !totals_of(items).contains_key(k),
    ensures
        quantity_sum(items, k) == 0,
        price_sum(items, k) == 0,
    decreases items.len(),
{
    if items.len() > 0 {
        lemma_zero_sums_without_key(items.drop_last(), k);
    }
}

/// The end date of a meter's total is the latest end date, in `String` order,
/// among the items that belong to it.
pub proof fn lemma_total_end_date_is_latest(items: Seq<LineItem>, k: Seq<char>)
    requires
        totals_of(items).contains_key(k),
    ensures
        exists|i: int|
            0 <= i < items.len() && key_of(#[trigger] items[i]) == k && items[i].end_date@
                == totals_of(items)[k].end_date,
        forall|i: int|
            0 <= i < items.len() && key_of(#[trigger] items[i]) == k ==> !text_after(
                items[i].end_date@,
                totals_of(items)[k].end_date,
            ),
    decreases items.len(),
{
    let rest = items.drop_last();
    let x = items.last();
    let n = items.len() - 1;
    let e = totals_of(items)[k].end_date;
    assert(items[n] == x);
    lemma_bytes_after_irreflexive(vstd::utf8::encode_utf8(x.end_date@));
    if totals_of(rest).contains_key(k) {
        lemma_total_end_date_is_latest(rest, k);
        let old_e = totals_of(rest)[k].end_date;
        let w = choose|i: int|
            0 <= i < rest.len() && key_of(#[trigger] rest[i]) == k && rest[i].end_date@ == old_e;
        assert(items[w] == rest[w]);
        assert forall|i: int|
            0 <= i < items.len() && key_of(#[trigger] items[i]) == k implies !text_after(
            items[i].end_date@,
            e,
        ) by {
            if i < n {
                assert(items[i] == rest[i]);
                if key_of(x) == k && text_after(x.end_date@, old_e) && text_after(
                    items[i].end_date@,
                    e,
                ) {
                    lemma_bytes_after_transitive(
                        vstd::utf8::encode_utf8(items[i].end_date@),
                        vstd::utf8::encode_utf8(x.end_date@),
                        vstd::utf8::encode_utf8(old_e),
                    );
                }
            }
        }
    } else {
        assert forall|i: int|
            0 <= i < items.len() && key_of(#[trigger] items[i]) == k implies !text_after(
            items[i].end_date@,
            e,
        ) by {
            if i < n {
                assert(items[i] == rest[i]);
                lemma_total_keys(rest, k);
            }
        }
    }
}

/// An item whose end date is not valid RFC 3339 is summed into its meter's
/// total and leaves the rates as they were.
pub proof fn lemma_unparsable_item_only_totals(
    items: Seq<LineItem>,
    item: LineItem,
    now: Timestamp,
)
    requires
        parsed_instant(item.end_date@) is None,
    ensures
        totals_of(items.push(item)) == add_item(totals_of(items), item),
        rates_of(items.push(item), now) == rates_of(items, now),
{
    assert(items.push(item).drop_last() =~= items);
}

/// An item that ended 30 hours or more before `now`, exactly 30 included, is
/// summed into its meter's total and leaves the rates as they were.
pub proof fn lemma_stale_item_only_totals(
    items: Seq<LineItem>,
    item: LineItem,
    now: Timestamp,
    end: Timestamp,
)
    requires
        parsed_instant(item.end_date@) == Some(end),
        now.nanos_since_epoch() - end.nanos_since_epoch() >= WINDOW_NANOS,
    ensures
        !is_fresh(item, now),
        totals_of(items.push(item)) == add_item(totals_of(items), item),
        rates_of(items.push(item), now) == rates_of(items, now),
{
    assert(items.push(item).drop_last() =~= items);
}

/// An item that ended less than 30 hours before `now` is summed into both
/// its meter's total and its meter's rate.
pub proof fn lemma_fresh_item_in_both(
    items: Seq<LineItem>,
    item: LineItem,
    now: Timestamp,
    end: Timestamp,
)
    requires
        parsed_instant(item.end_date@) == Some(end),
        within_window(now, end),
    ensures
        totals_of(items.push(item)) == add_item(totals_of(items), item),
        rates_of(items.push(item), now) == add_item(rates_of(items, now), item),
{
    assert(items.push(item).drop_last() =~= items);
}

} // verus!
