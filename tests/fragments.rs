use statusbar::fragments::{
    battery_fragment, battery_label, notification_fragment, notification_label, status_char,
    volume_fragment, vpn_fragment, Pattern, BATTERY_PATTERN,
};

fn battery(acpi: &str, threshold: &str) -> String {
    let pattern = Pattern::compile(BATTERY_PATTERN).expect("the battery pattern compiles");
    assert_eq!(pattern.as_str(), BATTERY_PATTERN);
    battery_fragment(&pattern, &acpi.to_string(), &threshold.to_string())
}

#[test]
fn invalid_pattern_does_not_compile() {
    assert!(Pattern::compile("foo(bar").is_none());
    assert!(Pattern::compile("a+").is_some());
}

#[test]
fn battery_discharging() {
    let r = battery("Battery 0: Discharging, 85%, 02:10:00 remaining", "80");
    assert_eq!(r, "bat: 85/80% D");
}

#[test]
fn battery_charging_and_full() {
    let r = battery("Battery 0: Charging, 42%, 01:00:00 until charged", "90");
    assert_eq!(r, "bat: 42/90% C");
    let r = battery("Battery 0: Full, 100%", "100");
    assert_eq!(r, "bat: 100/100% F");
}

#[test]
fn battery_unknown_status() {
    let r = battery("Battery 0: Not charging, 79%", "80");
    assert_eq!(r, "bat: 79/80% ?");
}

#[test]
fn battery_without_match() {
    let r = battery("No support for device type: power_supply", "80");
    assert_eq!(r, "bat: N/A");
}

#[test]
fn battery_label_from_groups() {
    assert_eq!(battery_label(Some(("Full".to_string(), "99".to_string())), &"80".to_string()), "bat: 99/80% F");
    assert_eq!(battery_label(None, &"80".to_string()), "bat: N/A");
}

#[test]
fn status_chars() {
    assert_eq!(status_char(&"Charging".to_string()), "C");
    assert_eq!(status_char(&"Discharging".to_string()), "D");
    assert_eq!(status_char(&"Full".to_string()), "F");
    assert_eq!(status_char(&"Unknown".to_string()), "?");
}

#[test]
fn notification_paused_and_not() {
    assert_eq!(notification_fragment(&"  true\n".to_string()), "n: disabled");
    assert_eq!(notification_fragment(&"false".to_string()), "");
    assert_eq!(notification_label(&"true".to_string()), "n: disabled");
    assert_eq!(notification_label(&" true".to_string()), "");
}

#[test]
fn vpn_and_volume() {
    assert_eq!(vpn_fragment(true), "VPN");
    assert_eq!(vpn_fragment(false), "");
    assert_eq!(volume_fragment(&"57%".to_string()), "vol: 57%");
}
