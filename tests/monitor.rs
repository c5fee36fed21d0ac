use statusbar::aggregator::{Aggregator, Update};
use statusbar::monitor::{Action, Event, MonitorLoop, Phase};

fn published(a: Action) -> Update {
    match a {
        Action::Publish(u) => u,
        _ => panic!("expected an update"),
    }
}

#[test]
fn initial_success_publishes_and_idles() {
    let mut m = MonitorLoop::new("ram".to_string());
    assert_eq!(m.current_phase(), Phase::Starting);
    let u = published(m.handle(Event::Succeeded("ram: 40%".to_string())));
    assert_eq!(u.id, "ram");
    assert_eq!(u.value, "ram: 40%");
    assert_eq!(m.current_phase(), Phase::Idle);
    assert!(m.is_live());
}

#[test]
fn initial_failure_disables_for_good() {
    let mut agg = Aggregator::new(vec!["bt".to_string(), "ram".to_string()]);
    let mut m = MonitorLoop::new("bt".to_string());
    assert!(matches!(m.handle(Event::Failed("no bluetoothctl".to_string())), Action::Disable(r) if r == "no bluetoothctl"));
    assert_eq!(m.current_phase(), Phase::Disabled);
    assert!(!m.is_live());
    assert!(matches!(m.handle(Event::Triggered("bt".to_string())), Action::Exit));
    assert!(matches!(m.handle(Event::Tick), Action::Exit));
    assert!(matches!(m.handle(Event::Succeeded("bt: x".to_string())), Action::Exit));
    assert_eq!(m.current_phase(), Phase::Disabled);
    let bar = agg.apply(Update { id: "ram".to_string(), value: "ram: 1%".to_string() });
    assert_eq!(bar, " ram: 1% ");
}

#[test]
fn later_failure_keeps_last_value() {
    let mut agg = Aggregator::new(vec!["vol".to_string()]);
    let mut m = MonitorLoop::new("vol".to_string());
    let u = published(m.handle(Event::Succeeded("vol: 50%".to_string())));
    assert_eq!(agg.apply(u), " vol: 50% ");
    assert!(matches!(m.handle(Event::Tick), Action::Run));
    assert_eq!(m.current_phase(), Phase::Busy);
    assert!(matches!(m.handle(Event::Failed("amixer".to_string())), Action::Report(r) if r == "amixer"));
    assert_eq!(m.current_phase(), Phase::Idle);
    assert_eq!(agg.render(), " vol: 50% ");
    assert!(matches!(m.handle(Event::Tick), Action::Run));
    assert!(matches!(m.handle(Event::Failed("again".to_string())), Action::Report(_)));
    assert!(m.is_live());
}

#[test]
fn trigger_for_own_id_runs() {
    let mut m = MonitorLoop::new("vpn".to_string());
    m.handle(Event::Succeeded(String::new()));
    assert!(matches!(m.handle(Event::Triggered("vpn".to_string())), Action::Run));
    assert_eq!(m.current_phase(), Phase::Busy);
}

#[test]
fn trigger_for_other_id_is_ignored() {
    let mut m = MonitorLoop::new("vpn".to_string());
    m.handle(Event::Succeeded(String::new()));
    assert!(matches!(m.handle(Event::Triggered("ram".to_string())), Action::Wait));
    assert_eq!(m.current_phase(), Phase::Idle);
}

#[test]
fn no_second_run_while_busy() {
    let mut m = MonitorLoop::new("disk".to_string());
    assert!(matches!(m.handle(Event::Tick), Action::Wait));
    m.handle(Event::Succeeded("disk: 3%".to_string()));
    assert!(matches!(m.handle(Event::Tick), Action::Run));
    assert!(matches!(m.handle(Event::Tick), Action::Wait));
    assert!(matches!(m.handle(Event::Triggered("disk".to_string())), Action::Wait));
    assert_eq!(m.current_phase(), Phase::Busy);
}

#[test]
fn closed_queue_stops_loop() {
    let mut m = MonitorLoop::new("net".to_string());
    m.handle(Event::Succeeded("up".to_string()));
    assert!(matches!(m.handle(Event::Closed), Action::Exit));
    assert_eq!(m.current_phase(), Phase::Stopped);
    assert!(matches!(m.handle(Event::Tick), Action::Exit));
}
