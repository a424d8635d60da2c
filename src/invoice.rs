//! The pending-invoice document and the billing meter each line item belongs to.
use vstd::prelude::*;

verus! {

/// Fixed-point scale of quantities: a quantity of one unit is stored as this.
pub const QUANTITY_SCALE: u64 = 1_000_000;

/// One line of an invoice: one SKU, for one cluster and region, over one slice of time.
#[derive(Debug, Clone)]
pub struct LineItem {
    pub cluster_name: Option<String>,
    pub created: String,
    /// End of the billed slice, as RFC 3339 text.
    pub end_date: String,
    /// Billed quantity, in millionths of `unit`.
    pub quantity: u64,
    pub group_name: Option<String>,
    pub sku: String,
    pub start_date: String,
    pub total_price_cents: u64,
    pub unit: String,
    /// Price of one unit, in millionths of a dollar.
    pub unit_price_micros: u64,
}

/// The pending invoice of an organisation.
#[derive(Debug, Clone)]
pub struct Data {
    pub amount_billed_cents: u64,
    pub amount_paid_cents: u64,
    pub created: String,
    pub credits_cents: u64,
    pub end_date: String,
    pub id: String,
    pub line_items: Vec<LineItem>,
}

/// The text of an optional string.
pub open spec fn opt_text(o: Option<String>) -> Option<Seq<char>> {
    match o {
        Some(s) => Some(s@),
        None => None,
    }
}

/// The billing meter of an item: `cluster_sku` where the item names a
/// cluster, the SKU alone where it does not.
pub open spec fn key_of(item: LineItem) -> Seq<char> {
    match item.cluster_name {
        Some(c) => c@ + seq!['_'] + item.sku@,
        None => item.sku@,
    }
}

/// Relies on `String::push_str`: appends `t` to `s`.
#[verifier::external_body]
fn append(s: &mut String, t: &str)
    ensures
        final(s)@ == old(s)@ + t@,
{
    s.push_str(t)
}

/// Copies an optional string.
pub fn clone_text(o: &Option<String>) -> (r: Option<String>)
    ensures
        opt_text(r) == opt_text(*o),
{
    match o {
        Some(s) => Some(s.clone()),
        None => None,
    }
}

/// The billing meter that `item` is summed under.
pub fn logical_key(item: &LineItem) -> (r: String)
    ensures
        r@ == key_of(*item),
{
    match &item.cluster_name {
        Some(c) => {
            let mut k = c.clone();
            append(&mut k, "_");
            append(&mut k, item.sku.as_str());
            proof {
                reveal_strlit("_");
            }
            k
        },
        None => item.sku.clone(),
    }
}

} // verus!
