//! Summaries of billing meters, keyed by meter, in order of first appearance.
use vstd::prelude::*;
use crate::invoice::{LineItem, key_of, opt_text, clone_text};
use crate::order::{text_after, text_later};

verus! {

/// The summary of every line item seen so far for one billing meter.
#[derive(Debug, Clone)]
pub struct Compressed {
    pub cluster_name: Option<String>,
    /// Sum of the items' quantities, in millionths of `unit`.
    pub quantity: u128,
    pub group_name: Option<String>,
    pub sku: String,
    /// Sum of the items' prices, in cents.
    pub total_price_cents: u128,
    pub unit: String,
    pub unit_price_micros: u64,
    /// The latest end date among the items.
    pub end_date: String,
}

/// What a `Compressed` holds, as mathematical values.
pub struct SummaryView {
    pub cluster_name: Option<Seq<char>>,
    pub group_name: Option<Seq<char>>,
    pub sku: Seq<char>,
    pub unit: Seq<char>,
    pub quantity: int,
    pub total_price_cents: int,
    pub unit_price_micros: int,
    pub end_date: Seq<char>,
}

impl View for Compressed {
    type V = SummaryView;

    open spec fn view(&self) -> SummaryView {
        SummaryView {
            cluster_name: opt_text(self.cluster_name),
            group_name: opt_text(self.group_name),
            sku: self.sku@,
            unit: self.unit@,
            quantity: self.quantity as int,
            total_price_cents: self.total_price_cents as int,
            unit_price_micros: self.unit_price_micros as int,
            end_date: self.end_date@,
        }
    }
}

/// The summary of a meter whose first item is `item`.
pub open spec fn seed(item: LineItem) -> SummaryView {
    SummaryView {
        cluster_name: opt_text(item.cluster_name),
        group_name: opt_text(item.group_name),
        sku: item.sku@,
        unit: item.unit@,
        quantity: item.quantity as int,
        total_price_cents: item.total_price_cents as int,
        unit_price_micros: item.unit_price_micros as int,
        end_date: item.end_date@,
    }
}

/// `s` with one more item: the amounts add up, the end date becomes the
/// item's where that sorts strictly later, and the descriptive fields stay.
pub open spec fn absorb(s: SummaryView, item: LineItem) -> SummaryView {
    SummaryView {
        cluster_name: s.cluster_name,
        group_name: s.group_name,
        sku: s.sku,
        unit: s.unit,
        quantity: s.quantity + item.quantity,
        total_price_cents: s.total_price_cents + item.total_price_cents,
        unit_price_micros: s.unit_price_micros,
        end_date: if text_after(item.end_date@, s.end_date) {
            item.end_date@
        } else {
            s.end_date
        },
    }
}

/// Summaries `m` after one more item: merged into its meter's summary, or
/// starting a new one.
pub open spec fn add_item(
    m: Map<Seq<char>, SummaryView>,
    item: LineItem,
) -> Map<Seq<char>, SummaryView> {
    let k = key_of(item);
    if m.contains_key(k) {
        m.insert(k, absorb(m[k], item))
    } else {
        m.insert(k, seed(item))
    }
}

/// A meter and its summary.
#[derive(Debug, Clone)]
pub struct Entry {
    pub key: String,
    pub summary: Compressed,
}

/// Summaries keyed by meter: each key at most once, in order of first insertion.
pub struct Ledger {
    entries: Vec<Entry>,
    model: Ghost<Map<Seq<char>, SummaryView>>,
}

impl View for Ledger {
    type V = Map<Seq<char>, SummaryView>;

    closed spec fn view(&self) -> Map<Seq<char>, SummaryView> {
        self.model@
    }
}

impl Ledger {
    /// The entries, in order of first insertion.
    pub closed spec fn spec_entries(&self) -> Seq<Entry> {
        self.entries@
    }

    /// Keys are unique, and the entries hold exactly the summaries of the view.
    pub open spec fn wf(&self) -> bool {
        let e = self.spec_entries();
        &&& forall|i: int, j: int|
            0 <= i < j < e.len() ==> (#[trigger] e[i]).key@ != (#[trigger] e[j]).key@
        &&& forall|i: int|
            0 <= i < e.len() ==> self@.contains_key((#[trigger] e[i]).key@) && self@[e[i].key@]
                == e[i].summary@
        &&& forall|k: Seq<char>|
            self@.contains_key(k) ==> exists|i: int| 0 <= i < e.len() && (#[trigger] e[i]).key@ == k
    }

    /// A ledger with no meter.
    pub fn new() -> (r: Ledger)
        ensures
            r.wf(),
            r@ == Map::<Seq<char>, SummaryView>::empty(),
            r.spec_entries().len() == 0,
    {
        Ledger { entries: Vec::new(), model: Ghost(Map::empty()) }
    }

    /// Number of meters.
    pub fn len(&self) -> (r: usize)
        requires
            self.wf(),
        ensures
            r == self.spec_entries().len(),
            r == self@.len(),
    {
        proof {
            self.lemma_len();
        }
        self.entries.len()
    }

    /// The entries, in order of first insertion.
    pub fn entries(&self) -> (r: &Vec<Entry>)
        ensures
            r@ == self.spec_entries(),
    {
        &self.entries
    }

    /// The view has one key per entry.
    pub proof fn lemma_len(&self)
        requires
            self.wf(),
        ensures
            self@.len() == self.spec_entries().len(),
    {
        let e = self.spec_entries();
        let keys = Seq::new(e.len(), |i: int| e[i].key@);
        assert(keys.no_duplicates());
        keys.unique_seq_to_set();
        assert(keys.to_set() =~= self@.dom()) by {
            assert forall|k: Seq<char>| self@.dom().contains(k) implies keys.to_set().contains(k) by {
                let i = choose|i: int| 0 <= i < e.len() && (#[trigger] e[i]).key@ == k;
                assert(keys[i] == k);
            }
            assert forall|k: Seq<char>| keys.to_set().contains(k) implies self@.dom().contains(k) by {
                let i = choose|i: int| 0 <= i < keys.len() && keys[i] == k;
                assert(e[i].key@ == k);
            }
        }
    }

    /// Position of `key`, if present.
    fn find(&self, key: &String) -> (r: Option<usize>)
        requires
            self.wf(),
        ensures
            match r {
                Some(i) => i < self.spec_entries().len() && self.spec_entries()[i as int].key@
                    == key@,
                None => !self@.contains_key(key@),
            },
    {
        let mut i: usize = 0;
        while i < self.entries.len()
            invariant
                self.wf(),
                i <= self.entries@.len(),
                forall|j: int| 0 <= j < i ==> (#[trigger] self.entries@[j]).key@ != key@,
            decreases self.entries@.len() - i,
        {
            if self.entries[i].key == *key {
                return Some(i);
            }
            i = i + 1;
        }
        None
    }

    /// The summary of meter `key`, if present.
    pub fn get(&self, key: &String) -> (r: Option<&Compressed>)
        requires
            self.wf(),
        ensures
            r is Some <==> self@.contains_key(key@),
            r is Some ==> r->0@ == self@[key@],
    {
        match self.find(key) {
            Some(i) => Some(&self.entries[i].summary),
            None => None,
        }
    }

    /// Adds `item`, whose meter is `key`, to its meter's summary.
    pub fn add(&mut self, key: String, item: &LineItem)
        requires
            old(self).wf(),
            key@ == key_of(*item),
            old(self)@.contains_key(key@) ==> old(self)@[key@].quantity + item.quantity
                <= u128::MAX && old(self)@[key@].total_price_cents + item.total_price_cents
                <= u128::MAX,
        ensures
            final(self).wf(),
            final(self)@ == add_item(old(self)@, *item),
    {
        match self.find(&key) {
            Some(i) => {
                let old_summary = &self.entries[i].summary;
                let end_date = if text_later(item.end_date.as_str(), old_summary.end_date.as_str()) {
                    item.end_date.clone()
                } else {
                    old_summary.end_date.clone()
                };
                let summary = Compressed {
                    cluster_name: clone_text(&old_summary.cluster_name),
                    quantity: old_summary.quantity + item.quantity as u128,
                    group_name: clone_text(&old_summary.group_name),
                    sku: old_summary.sku.clone(),
                    total_price_cents: old_summary.total_price_cents + item.total_price_cents as u128,
                    unit: old_summary.unit.clone(),
                    unit_price_micros: old_summary.unit_price_micros,
                    end_date,
                };
                let ghost m = self.model@.insert(key@, summary@);
                let ghost e0 = self.entries@;
                self.entries.set(i, Entry { key, summary });
                self.model = Ghost(m);
                proof {
                    let e = self.entries@;
                    assert(e[i as int].key@ == e0[i as int].key@);
                    assert forall|j: int| 0 <= j < e.len() && j != i implies e[j] == e0[j] by {}
                    assert forall|k: Seq<char>| self@.contains_key(k) implies exists|j: int|
                        0 <= j < e.len() && (#[trigger] e[j]).key@ == k by {
                        let j = choose|j: int| 0 <= j < e0.len() && (#[trigger] e0[j]).key@ == k;
                        assert(e[j].key@ == k);
                    }
                }
            },
            None => {
                let summary = Compressed {
                    cluster_name: clone_text(&item.cluster_name),
                    quantity: item.quantity as u128,
                    group_name: clone_text(&item.group_name),
                    sku: item.sku.clone(),
                    total_price_cents: item.total_price_cents as u128,
                    unit: item.unit.clone(),
                    unit_price_micros: item.unit_price_micros,
                    end_date: item.end_date.clone(),
                };
                let ghost m = self.model@.insert(key@, summary@);
                let ghost n = self.entries@.len();
                let ghost e0 = self.entries@;
                self.entries.push(Entry { key, summary });
                self.model = Ghost(m);
                proof {
                    let e = self.entries@;
                    assert(e[n as int].key@ == key@);
                    assert forall|j: int| 0 <= j < n implies e[j] == e0[j] by {}
                    assert forall|k: Seq<char>| self@.contains_key(k) implies exists|j: int|
                        0 <= j < e.len() && (#[trigger] e[j]).key@ == k by {
                        if k != key@ {
                            let j = choose|j: int| 0 <= j < e0.len() && (#[trigger] e0[j]).key@ == k;
                            assert(e[j].key@ == k);
                        }
                    }
                }
            },
        }
        assert(self@ =~= add_item(old(self)@, *item));
    }
}

} // verus!
