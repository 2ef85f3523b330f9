use vol_limiter::channel::{channel_try_recv, TryRecvOutcome};
use vol_limiter::scanner::{
    counter_on_start, counter_on_stop, scanner_should_stop, DeviceSnapshot,
};

fn devices(names: &[&str]) -> Vec<String> {
    names.iter().map(|n| n.to_string()).collect()
}

#[test]
fn refresh_replaces_on_count_change() {
    let mut snap = DeviceSnapshot::new(devices(&["Speakers"]));
    let changed = snap.refresh(devices(&["Speakers", "Headphones"]));
    assert!(changed);
    assert_eq!(snap.devices, devices(&["Speakers", "Headphones"]));
}

#[test]
fn refresh_ignores_content_change_with_same_count() {
    // Two distinct 2-element lists: the snapshot must stay unchanged, since
    // the comparison is by count, not content.
    let mut snap = DeviceSnapshot::new(devices(&["Speakers", "Headphones"]));
    let changed = snap.refresh(devices(&["Monitor", "Earbuds"]));
    assert!(!changed);
    assert_eq!(snap.devices, devices(&["Speakers", "Headphones"]));
}

#[test]
fn refresh_handles_empty_lists() {
    let mut snap = DeviceSnapshot::new(Vec::new());
    assert!(!snap.refresh(Vec::new()));
    assert_eq!(snap.devices, Vec::<String>::new());
    assert!(snap.refresh(devices(&["Speakers"])));
    assert_eq!(snap.devices, devices(&["Speakers"]));
    assert!(snap.refresh(Vec::new()));
    assert_eq!(snap.devices, Vec::<String>::new());
}

#[test]
fn counter_tracks_task_lifecycle() {
    let c = counter_on_start(0);
    assert_eq!(c, 1);
    assert_eq!(counter_on_stop(c), 0);
}

#[test]
fn scanner_stops_only_on_delivered_signal() {
    let (tx, rx) = std::sync::mpsc::channel::<()>();
    assert!(!scanner_should_stop(channel_try_recv(&rx)));
    tx.send(()).unwrap();
    assert!(scanner_should_stop(channel_try_recv(&rx)));
    drop(tx);
    // A closed channel without a signal does not stop the scanner.
    let polled = channel_try_recv(&rx);
    assert!(matches!(polled, TryRecvOutcome::Disconnected));
    assert!(!scanner_should_stop(polled));
}
