use statusbar::aggregator::{Aggregator, Update};
use statusbar::bar::assemble_bar;
use statusbar::results::ResultsMap;

fn order(ids: &[&str]) -> Vec<String> {
    ids.iter().map(|s| s.to_string()).collect()
}

fn update(id: &str, value: &str) -> Update {
    Update { id: id.to_string(), value: value.to_string() }
}

#[test]
fn scenario_vpn_ram_datetime() {
    let mut agg = Aggregator::new(order(&["vpn", "ram", "datetime"]));
    agg.apply(update("ram", "ram: 40%"));
    let r = agg.apply(update("datetime", "Mon 10:00:00"));
    assert_eq!(r, " ram: 40% | Mon 10:00:00 ");
    let r = agg.apply(update("vpn", ""));
    assert_eq!(r, " ram: 40% | Mon 10:00:00 ");
    let r = agg.apply(update("vpn", "VPN"));
    assert_eq!(r, " VPN | ram: 40% | Mon 10:00:00 ");
}

#[test]
fn empty_bar_is_two_spaces() {
    let agg = Aggregator::new(order(&["vpn", "ram"]));
    assert_eq!(agg.render(), "  ");
    let results = ResultsMap::new();
    assert_eq!(assemble_bar(&order(&[]), &results), "  ");
}

#[test]
fn single_fragment_has_no_separator() {
    let mut agg = Aggregator::new(order(&["a", "b", "c"]));
    assert_eq!(agg.apply(update("b", "x")), " x ");
}

#[test]
fn arrival_order_of_distinct_ids_does_not_matter() {
    let ids = order(&["a", "b", "c"]);
    let mut first = Aggregator::new(ids.clone());
    let mut second = Aggregator::new(ids);
    first.apply(update("a", "1"));
    first.apply(update("c", "3"));
    let r1 = first.apply(update("b", "2"));
    second.apply(update("b", "2"));
    second.apply(update("a", "1"));
    let r2 = second.apply(update("c", "3"));
    assert_eq!(r1, r2);
    assert_eq!(r1, " 1 | 2 | 3 ");
}

#[test]
fn last_write_wins_per_id() {
    let mut agg = Aggregator::new(order(&["a", "b"]));
    agg.apply(update("a", "old"));
    agg.apply(update("b", "b"));
    assert_eq!(agg.apply(update("a", "new")), " new | b ");
}

#[test]
fn redelivery_gives_same_bar() {
    let mut agg = Aggregator::new(order(&["a", "b"]));
    agg.apply(update("b", "two"));
    let once = agg.apply(update("a", "one"));
    let twice = agg.apply(update("a", "one"));
    assert_eq!(once, twice);
}

#[test]
fn ids_outside_order_are_not_rendered() {
    let mut agg = Aggregator::new(order(&["a"]));
    agg.apply(update("a", "shown"));
    assert_eq!(agg.apply(update("zzz", "hidden")), " shown ");
}

#[test]
fn empty_value_hides_earlier_value() {
    let mut agg = Aggregator::new(order(&["a", "b"]));
    agg.apply(update("a", "x"));
    agg.apply(update("b", "y"));
    assert_eq!(agg.apply(update("a", "")), " y ");
}

#[test]
fn results_map_insert_and_get() {
    let mut m = ResultsMap::new();
    let a = "a".to_string();
    assert!(m.get(&a).is_none());
    m.insert(a.clone(), "1".to_string());
    m.insert("b".to_string(), "2".to_string());
    m.insert(a.clone(), "3".to_string());
    assert_eq!(m.get(&a), Some(&"3".to_string()));
    assert_eq!(m.get(&"b".to_string()), Some(&"2".to_string()));
    assert_eq!(assemble_bar(&order(&["b", "a", "c"]), &m), " 2 | 3 ");
}
