use atlas_billing::aggregate::{aggregate, aggregate_now};
use atlas_billing::fetch::{check_status, FetchError};
use atlas_billing::invoice::{logical_key, Data, LineItem, QUANTITY_SCALE};
use atlas_billing::order::text_later;
use atlas_billing::publish::{hourly_rate, rate_gauges, total_gauges, Rate};
use atlas_billing::time::{is_recent, parse_rfc3339, Timestamp};

fn item(cluster: Option<&str>, sku: &str, quantity: u64, cents: u64, unit: &str, end: &str) -> LineItem {
    LineItem {
        cluster_name: cluster.map(|c| c.to_string()),
        created: "2024-03-01T00:00:00Z".to_string(),
        end_date: end.to_string(),
        quantity: quantity * QUANTITY_SCALE,
        group_name: Some("group-1".to_string()),
        sku: sku.to_string(),
        start_date: "2024-03-01T00:00:00Z".to_string(),
        total_price_cents: cents,
        unit: unit.to_string(),
        unit_price_micros: 1_000_000,
    }
}

fn invoice(items: Vec<LineItem>) -> Data {
    Data {
        amount_billed_cents: 0,
        amount_paid_cents: 0,
        created: "2024-03-01T00:00:00Z".to_string(),
        credits_cents: 0,
        end_date: "2024-04-01T00:00:00Z".to_string(),
        id: "inv-1".to_string(),
        line_items: items,
    }
}

fn at(text: &str) -> Timestamp {
    parse_rfc3339(text).unwrap()
}

fn rate_value(r: &Rate) -> f64 {
    r.cents as f64 * QUANTITY_SCALE as f64 / (r.quantity as f64 * 100.0 * r.hours_per_unit as f64)
}

#[test]
fn key_without_cluster_is_sku() {
    let i = item(None, "SUPPORT", 1, 100, "days", "2024-03-02T00:00:00Z");
    assert_eq!(logical_key(&i), "SUPPORT");
    let (totals, _) = aggregate(&invoice(vec![i]), at("2024-03-02T01:00:00Z"));
    assert!(totals.get(&"SUPPORT".to_string()).is_some());
    assert_eq!(totals.len(), 1);
}

#[test]
fn key_with_cluster_is_prefixed() {
    let i = item(Some("prod"), "ATLAS_INSTANCE", 1, 100, "server hours", "2024-03-02T00:00:00Z");
    assert_eq!(logical_key(&i), "prod_ATLAS_INSTANCE");
}

#[test]
fn two_fresh_items_of_one_meter_are_summed() {
    let now = at("2024-03-02T12:00:00Z");
    let data = invoice(vec![
        item(Some("prod"), "ATLAS_INSTANCE", 5, 500, "server hours", "2024-03-02T11:30:00Z"),
        item(Some("prod"), "ATLAS_INSTANCE", 3, 300, "server hours", "2024-03-02T11:45:00Z"),
    ]);
    let (totals, rates) = aggregate(&data, now);
    let key = "prod_ATLAS_INSTANCE".to_string();
    let t = totals.get(&key).unwrap();
    assert_eq!(t.quantity, 8 * QUANTITY_SCALE as u128);
    assert_eq!(t.total_price_cents, 800);
    let r = rates.get(&key).unwrap();
    assert_eq!(r.quantity, 8 * QUANTITY_SCALE as u128);
    assert_eq!(r.total_price_cents, 800);
    assert_eq!(totals.len(), 1);
    assert_eq!(rates.len(), 1);
}

#[test]
fn unparsable_end_date_counts_only_in_totals() {
    let now = at("2024-03-02T12:00:00Z");
    let data = invoice(vec![item(Some("c"), "BACKUP", 2, 40, "GB hours", "not a date")]);
    let (totals, rates) = aggregate(&data, now);
    let t = totals.get(&"c_BACKUP".to_string()).unwrap();
    assert_eq!(t.total_price_cents, 40);
    assert!(rates.get(&"c_BACKUP".to_string()).is_none());
    assert_eq!(rates.len(), 0);
}

#[test]
fn item_exactly_thirty_hours_old_is_stale() {
    let now = at("2024-03-02T06:00:00Z");
    let data = invoice(vec![
        item(Some("a"), "X", 1, 10, "GB hours", "2024-03-01T00:00:00Z"),
        item(Some("b"), "X", 1, 10, "GB hours", "2024-03-01T00:00:00.000000001Z"),
    ]);
    let (totals, rates) = aggregate(&data, now);
    assert_eq!(totals.len(), 2);
    assert!(rates.get(&"a_X".to_string()).is_none());
    assert!(rates.get(&"b_X".to_string()).is_some());
    assert!(!is_recent(now, at("2024-03-01T00:00:00Z")));
    assert!(is_recent(now, at("2024-03-01T00:00:01Z")));
}

#[test]
fn end_date_is_latest_of_items() {
    let now = at("2024-03-10T00:00:00Z");
    let data = invoice(vec![
        item(None, "S", 1, 1, "days", "2024-03-02T00:00:00Z"),
        item(None, "S", 1, 1, "days", "2024-03-05T00:00:00Z"),
        item(None, "S", 1, 1, "days", "2024-03-03T00:00:00Z"),
    ]);
    let (totals, _) = aggregate(&data, now);
    assert_eq!(totals.get(&"S".to_string()).unwrap().end_date, "2024-03-05T00:00:00Z");
}

#[test]
fn sums_over_regions_and_descriptive_fields_stay() {
    let now = at("2024-03-10T00:00:00Z");
    let mut second = item(Some("c"), "DATA", 7, 70, "daily", "2024-03-01T00:00:00Z");
    second.unit = "other".to_string();
    second.group_name = None;
    let data = invoice(vec![
        item(Some("c"), "DATA", 2, 20, "GB hours", "2024-03-01T00:00:00Z"),
        item(Some("d"), "DATA", 100, 1000, "GB hours", "2024-03-01T00:00:00Z"),
        second,
    ]);
    let (totals, rates) = aggregate(&data, now);
    let t = totals.get(&"c_DATA".to_string()).unwrap();
    assert_eq!(t.quantity, 9 * QUANTITY_SCALE as u128);
    assert_eq!(t.total_price_cents, 90);
    assert_eq!(t.unit, "GB hours");
    assert_eq!(t.group_name, Some("group-1".to_string()));
    assert_eq!(totals.len(), 2);
    assert_eq!(rates.len(), 0);
}

#[test]
fn rates_are_a_subset_of_totals() {
    let now = at("2024-03-02T12:00:00Z");
    let data = invoice(vec![
        item(Some("a"), "X", 1, 10, "GB hours", "2024-03-02T11:00:00Z"),
        item(Some("b"), "X", 1, 10, "GB hours", "2024-02-01T00:00:00Z"),
        item(Some("c"), "X", 1, 10, "GB hours", "garbage"),
    ]);
    let (totals, rates) = aggregate(&data, now);
    assert_eq!(totals.len(), 3);
    assert_eq!(rates.len(), 1);
    for e in rates.entries() {
        assert!(totals.get(&e.key).is_some());
    }
}

#[test]
fn hourly_unit_rate() {
    let data = invoice(vec![item(None, "S", 10, 2400, "GB hours", "2024-03-02T11:00:00Z")]);
    let (_, rates) = aggregate(&data, at("2024-03-02T12:00:00Z"));
    let r = hourly_rate(rates.get(&"S".to_string()).unwrap()).unwrap();
    assert_eq!(r.hours_per_unit, 1);
    assert!((rate_value(&r) - 2.4).abs() < 1e-9);
}

#[test]
fn daily_unit_rate() {
    let data = invoice(vec![item(None, "S", 10, 2400, "daily", "2024-03-02T11:00:00Z")]);
    let (_, rates) = aggregate(&data, at("2024-03-02T12:00:00Z"));
    let r = hourly_rate(rates.get(&"S".to_string()).unwrap()).unwrap();
    assert_eq!(r.hours_per_unit, 24);
    assert!((rate_value(&r) - 0.1).abs() < 1e-9);
}

#[test]
fn server_hours_rate_and_zero_quantity() {
    let data = invoice(vec![
        item(Some("x"), "S", 4, 100, "server hours", "2024-03-02T11:00:00Z"),
        item(Some("y"), "S", 0, 100, "server hours", "2024-03-02T11:00:00Z"),
    ]);
    let (_, rates) = aggregate(&data, at("2024-03-02T12:00:00Z"));
    let gauges = rate_gauges(&rates);
    assert_eq!(gauges.len(), 2);
    assert_eq!(gauges[0].labels.cluster_name, "x");
    let r = gauges[0].rate.unwrap();
    assert!((rate_value(&r) - 0.25).abs() < 1e-9);
    assert_eq!(gauges[1].rate, None);
}

#[test]
fn total_gauges_label_absent_fields_empty() {
    let mut i = item(None, "SUPPORT", 1, 123, "days", "2024-03-02T00:00:00Z");
    i.group_name = None;
    let (totals, _) = aggregate(&invoice(vec![i]), at("2024-03-02T01:00:00Z"));
    let gauges = total_gauges(&totals);
    assert_eq!(gauges.len(), 1);
    assert_eq!(gauges[0].labels.cluster_name, "");
    assert_eq!(gauges[0].labels.group_name, "");
    assert_eq!(gauges[0].labels.sku, "SUPPORT");
    assert_eq!(gauges[0].cents, 123);
}

#[test]
fn status_classification() {
    assert_eq!(check_status(404), Err(FetchError::NotFound));
    assert_eq!(check_status(401), Err(FetchError::Unauthorized));
    assert_eq!(check_status(403), Err(FetchError::Forbidden));
    assert_eq!(check_status(500), Err(FetchError::UnknownCode(500)));
    assert_eq!(check_status(201), Err(FetchError::UnknownCode(201)));
    assert_eq!(check_status(200), Ok(()));
}

#[test]
fn rfc3339_parsing() {
    let t = at("2024-03-02T01:00:00.5+01:00");
    assert_eq!(t, Timestamp { seconds: 1709337600, nanos: 500_000_000 });
    assert!(parse_rfc3339("2024-03-02").is_none());
    assert!(parse_rfc3339("").is_none());
}

#[test]
fn string_order() {
    assert!(text_later("2024-03-05T00:00:00Z", "2024-03-02T00:00:00Z"));
    assert!(!text_later("2024-03-02T00:00:00Z", "2024-03-05T00:00:00Z"));
    assert!(!text_later("abc", "abc"));
    assert!(text_later("abcd", "abc"));
    assert!(!text_later("", "a"));
}

#[test]
fn aggregate_at_current_time() {
    let data = invoice(vec![item(None, "S", 1, 5, "days", "2000-01-01T00:00:00Z")]);
    let (now, totals, rates) = aggregate_now(&data);
    assert!(now.seconds > 1_700_000_000);
    assert_eq!(totals.len(), 1);
    assert_eq!(rates.len(), 0);
}
