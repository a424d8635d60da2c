//! From summaries to gauge values: label sets, billed totals and hourly rates.
use vstd::prelude::*;
use crate::ledger::{Compressed, Ledger, SummaryView};

verus! {

/// The labels of a gauge; an absent cluster or group is the empty string.
#[derive(Debug, Clone)]
pub struct Labels {
    pub cluster_name: String,
    pub group_name: String,
    pub sku: String,
}

impl View for Labels {
    type V = (Seq<char>, Seq<char>, Seq<char>);

    open spec fn view(&self) -> (Seq<char>, Seq<char>, Seq<char>) {
        (self.cluster_name@, self.group_name@, self.sku@)
    }
}

/// The text of an optional label, empty where absent.
pub open spec fn label_text(o: Option<Seq<char>>) -> Seq<char> {
    match o {
        Some(s) => s,
        None => Seq::empty(),
    }
}

/// The labels of the gauges of a summary: cluster, group and SKU.
pub open spec fn labels_of(s: SummaryView) -> (Seq<char>, Seq<char>, Seq<char>) {
    (label_text(s.cluster_name), label_text(s.group_name), s.sku)
}

/// An hourly rate in currency units, as exact integers: the rate is
/// `cents * crate::invoice::QUANTITY_SCALE / (quantity * 100 * hours_per_unit)`.
#[derive(Debug, Clone, Copy, PartialEq, Eq, Structural)]
pub struct Rate {
    /// Billed amount, in cents.
    pub cents: u128,
    /// Billed quantity, in millionths of a unit.
    pub quantity: u128,
    /// Hours in one unit: 1 for hour-denominated units, 24 for the others.
    pub hours_per_unit: u128,
}

/// Units that are already denominated in hours.
pub open spec fn is_hourly_unit(unit: Seq<char>) -> bool {
    unit == "GB hours"@ || unit == "server hours"@
}

/// The hourly rate of a summary; none where its quantity is zero, for the
/// rate is then undefined and no rate is published for that meter.
pub open spec fn rate_of(s: SummaryView) -> Option<Rate> {
    if s.quantity == 0 {
        None
    } else {
        Some(
            Rate {
                cents: s.total_price_cents as u128,
                quantity: s.quantity as u128,
                hours_per_unit: if is_hourly_unit(s.unit) {
                    1
                } else {
                    24
                },
            },
        )
    }
}

/// Decides whether `unit` is denominated in hours.
pub fn hourly_unit(unit: &String) -> (r: bool)
    ensures
        r == is_hourly_unit(unit@),
{
    proof {
        reveal_strlit("GB hours");
        reveal_strlit("server hours");
    }
    *unit == "GB hours".to_owned() || *unit == "server hours".to_owned()
}

/// Computes `rate_of(s@)`.
pub fn hourly_rate(s: &Compressed) -> (r: Option<Rate>)
    ensures
        r == rate_of(s@),
{
    if s.quantity == 0 {
        None
    } else {
        let hours_per_unit: u128 = if hourly_unit(&s.unit) {
            1
        } else {
            24
        };
        Some(Rate { cents: s.total_price_cents, quantity: s.quantity, hours_per_unit })
    }
}

fn label(o: &Option<String>) -> (r: String)
    ensures
        r@ == label_text(crate::invoice::opt_text(*o)),
{
    match o {
        Some(s) => s.clone(),
        None => String::new(),
    }
}

/// The labels of the gauges of `s`.
pub fn labels(s: &Compressed) -> (r: Labels)
    ensures
        r@ == labels_of(s@),
{
    Labels { cluster_name: label(&s.cluster_name), group_name: label(&s.group_name), sku: s.sku.clone() }
}

/// The billed-total gauge of one meter.
#[derive(Debug, Clone)]
pub struct TotalGauge {
    pub labels: Labels,
    pub cents: u128,
}

/// The billed-rate gauge of one meter; no rate where it is undefined.
#[derive(Debug, Clone)]
pub struct RateGauge {
    pub labels: Labels,
    pub rate: Option<Rate>,
}

/// One billed-total gauge per meter of `totals`, in the ledger's order,
/// valued at the meter's total in cents.
pub fn total_gauges(totals: &Ledger) -> (r: Vec<TotalGauge>)
    requires
        totals.wf(),
    ensures
        r@.len() == totals.spec_entries().len(),
        forall|i: int|
            0 <= i < r@.len() ==> (#[trigger] r@[i]).labels@ == labels_of(
                totals.spec_entries()[i].summary@,
            ) && r@[i].cents == totals.spec_entries()[i].summary.total_price_cents,
{
    let entries = totals.entries();
    let mut r: Vec<TotalGauge> = Vec::new();
    let mut i: usize = 0;
    while i < entries.len()
        invariant
            entries@ == totals.spec_entries(),
            i <= entries@.len(),
            r@.len() == i,
            forall|j: int|
                0 <= j < i ==> (#[trigger] r@[j]).labels@ == labels_of(entries@[j].summary@)
                    && r@[j].cents == entries@[j].summary.total_price_cents,
        decreases entries@.len() - i,
    {
        let s = &entries[i].summary;
        r.push(TotalGauge { labels: labels(s), cents: s.total_price_cents });
        i = i + 1;
    }
    r
}

/// One billed-rate gauge per meter of `rates`, in the ledger's order,
/// valued at the meter's hourly rate.
pub fn rate_gauges(rates: &Ledger) -> (r: Vec<RateGauge>)
    requires
        rates.wf(),
    ensures
        r@.len() == rates.spec_entries().len(),
        forall|i: int|
            0 <= i < r@.len() ==> (#[trigger] r@[i]).labels@ == labels_of(
                rates.spec_entries()[i].summary@,
            ) && r@[i].rate == rate_of(rates.spec_entries()[i].summary@),
{
    let entries = rates.entries();
    let mut r: Vec<RateGauge> = Vec::new();
    let mut i: usize = 0;
    while i < entries.len()
        invariant
            entries@ == rates.spec_entries(),
            i <= entries@.len(),
            r@.len() == i,
            forall|j: int|
                0 <= j < i ==> (#[trigger] r@[j]).labels@ == labels_of(entries@[j].summary@)
                    && r@[j].rate == rate_of(entries@[j].summary@),
        decreases entries@.len() - i,
    {
        let s = &entries[i].summary;
        r.push(RateGauge { labels: labels(s), rate: hourly_rate(s) });
        i = i + 1;
    }
    r
}

} // verus!
