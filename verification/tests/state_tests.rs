use hyprdock::autohide::{active_window_count, dock_margin, HIDDEN_MARGIN, SHOWN_MARGIN};
use hyprdock::icons::select_icon;
use hyprdock::model::{DockApp, HyprClient};
use hyprdock::refresh::{snapshot_of, snapshots_equal, Refresher, StylesheetWatcher};

fn client(address: &str, class: &str, title: &str) -> HyprClient {
    HyprClient { address: address.into(), class: class.into(), title: title.into(), workspace: None }
}

#[test]
fn margins() {
    assert_eq!(SHOWN_MARGIN, 0);
    assert_eq!(HIDDEN_MARGIN, -55);
    assert_eq!(dock_margin(true, Some(3)), 0);
    assert_eq!(dock_margin(true, None), 0);
    assert_eq!(dock_margin(false, Some(3)), -55);
    assert_eq!(dock_margin(false, Some(0)), 0);
    assert_eq!(dock_margin(false, Some(-1)), 0);
    assert_eq!(dock_margin(false, None), 0);
}

#[test]
fn window_count_from_reply() {
    let reply = br#"{"id":1,"name":"1","monitor":"DP-1","windows":3,"hasfullscreen":false}"#;
    assert_eq!(active_window_count(reply), Some(3));
    assert_eq!(active_window_count(br#"{"windows":0}"#), Some(0));
    assert_eq!(active_window_count(br#"{"id":1}"#), None);
    assert_eq!(active_window_count(br#"{"windows":"3"}"#), None);
    assert_eq!(active_window_count(br#"{"windows":2.5}"#), None);
    assert_eq!(active_window_count(br#"[3]"#), None);
    assert_eq!(active_window_count(b"not json"), None);
    assert_eq!(active_window_count(b""), None);
}

#[test]
fn icon_choice() {
    assert_eq!(select_icon("Firefox", true, true, true), "Firefox");
    assert_eq!(select_icon("Firefox", false, true, true), "firefox");
    assert_eq!(select_icon("Zen", false, false, true), "zen-browser");
    assert_eq!(select_icon("Zen", false, false, false), "application-x-executable");
    assert_eq!(select_icon("Slack", false, false, true), "application-x-executable");
}

#[test]
fn refresher_builds_on_change_only() {
    let pins = vec![DockApp::new("Terminal", "kitty", "t")];
    let clients = vec![client("0x1", "kitty", "a")];
    let mut r = Refresher::new();
    assert!(r.observe(snapshot_of(&pins, &clients)));
    assert!(!r.observe(snapshot_of(&pins, &clients)));
    let renamed = vec![client("0x1", "kitty", "b")];
    assert!(!r.observe(snapshot_of(&pins, &renamed)));
    let moved = vec![client("0x2", "kitty", "b")];
    assert!(r.observe(snapshot_of(&pins, &moved)));
    let more_pins = vec![DockApp::new("Terminal", "kitty", "t"), DockApp::new("Web", "firefox", "w")];
    assert!(r.observe(snapshot_of(&more_pins, &moved)));
    assert!(!r.observe(snapshot_of(&more_pins, &moved)));
}

#[test]
fn snapshot_equality() {
    let a = snapshot_of(&vec![DockApp::new("A", "a", "a")], &vec![client("0x1", "x", "")]);
    let b = snapshot_of(&vec![DockApp::new("A", "a", "a")], &vec![client("0x1", "x", "other")]);
    let c = snapshot_of(&vec![DockApp::new("A", "a", "b")], &vec![client("0x1", "x", "")]);
    assert!(snapshots_equal(&a, &b));
    assert!(!snapshots_equal(&a, &c));
}

#[test]
fn stylesheet_watcher() {
    let mut w = StylesheetWatcher::new(Some(10));
    assert!(!w.observe(Some(10)));
    assert!(!w.observe(None));
    assert!(w.observe(Some(11)));
    assert!(!w.observe(Some(11)));
    let mut fresh = StylesheetWatcher::new(None);
    assert!(fresh.observe(Some(-5)));
    assert_eq!(fresh.last_modified, Some(-5));
}
