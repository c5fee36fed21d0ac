use statusbar::trigger::{coalesce_batch, trigger_target};

fn strings(v: &[&str]) -> Vec<String> {
    v.iter().map(|s| s.to_string()).collect()
}

#[test]
fn known_name_is_target() {
    let order = strings(&["vpn", "ram", "datetime"]);
    assert_eq!(trigger_target(&order, &"ram".to_string()), Some("ram".to_string()));
}

#[test]
fn unknown_name_is_dropped() {
    let order = strings(&["vpn", "ram", "datetime"]);
    assert_eq!(trigger_target(&order, &"swap".to_string()), None);
    assert_eq!(trigger_target(&order, &"".to_string()), None);
    assert!(coalesce_batch(&order, &strings(&["swap", "tmp.txt"])).is_empty());
}

#[test]
fn burst_of_one_name_wakes_once() {
    let order = strings(&["vpn", "ram", "datetime"]);
    let names = strings(&["ram", "ram", "ram", "ram", "ram"]);
    assert_eq!(coalesce_batch(&order, &names), strings(&["ram"]));
}

#[test]
fn batch_keeps_first_appearance_order() {
    let order = strings(&["vpn", "ram", "datetime"]);
    let names = strings(&["datetime", "junk", "vpn", "datetime", "vpn"]);
    assert_eq!(coalesce_batch(&order, &names), strings(&["datetime", "vpn"]));
}

#[test]
fn empty_batch_wakes_nothing() {
    let order = strings(&["vpn"]);
    assert!(coalesce_batch(&order, &Vec::new()).is_empty());
}
