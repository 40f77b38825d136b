use hyprdock::actions::{close_window, focus_window, launch, ProcessRequest};
use hyprdock::matching::{claimed_by_pins, client_matches_app, matching_clients, unpinned_clients};
use hyprdock::model::{DockApp, HyprClient, HyprWorkspaceInfo};
use hyprdock::pins::{default_pins, pin_client, pin_for_client, resolve_pins, unpin};
use hyprdock::plan::{build_plan, entry_label, workspace_label, MenuToggle};

fn app(name: &str, cmd: &str, icon: &str) -> DockApp {
    DockApp::new(name, cmd, icon)
}

fn client(address: &str, class: &str, title: &str, ws: Option<i64>) -> HyprClient {
    HyprClient {
        address: address.to_string(),
        class: class.to_string(),
        title: title.to_string(),
        workspace: ws.map(|id| HyprWorkspaceInfo { id, name: id.to_string() }),
    }
}

fn request(p: &ProcessRequest) -> (String, Vec<String>) {
    (p.program.clone(), p.args.clone())
}

fn strings(items: &[&str]) -> Vec<String> {
    items.iter().map(|s| s.to_string()).collect()
}

#[test]
fn process_requests() {
    assert_eq!(
        request(&focus_window("0xabc")),
        ("hyprctl".to_string(), strings(&["dispatch", "focuswindow", "address:0xabc"]))
    );
    assert_eq!(
        request(&close_window("0xabc")),
        ("hyprctl".to_string(), strings(&["dispatch", "closewindow", "address:0xabc"]))
    );
    assert_eq!(request(&launch("kitty")), ("sh".to_string(), strings(&["-c", "kitty"])));
}

#[test]
fn class_matches_command_ignoring_case() {
    let firefox = app("Browser", "firefox", "firefox");
    assert!(client_matches_app(&client("0x1", "Firefox", "Home", Some(1)), &firefox));
    assert!(client_matches_app(&client("0x1", "org.mozilla.firefox", "Home", Some(1)), &firefox));
}

#[test]
fn command_holding_class_matches() {
    let code = app("Code", "code --new-window", "code");
    assert!(client_matches_app(&client("0x1", "Code", "main.rs", None), &code));
}

#[test]
fn class_holding_name_matches() {
    let files = app("Thunar", "xdg-open .", "folder");
    assert!(client_matches_app(&client("0x1", "thunar-Thunar", "Home", None), &files));
}

#[test]
fn unrelated_class_does_not_match() {
    let term = app("Terminal", "kitty", "utilities-terminal");
    assert!(!client_matches_app(&client("0x1", "firefox", "Home", None), &term));
}

#[test]
fn matching_keeps_order() {
    let term = app("Terminal", "kitty", "utilities-terminal");
    let clients = vec![
        client("0x1", "kitty", "one", Some(1)),
        client("0x2", "firefox", "web", Some(2)),
        client("0x3", "Kitty", "two", Some(3)),
    ];
    let ms = matching_clients(&clients, &term);
    let addrs: Vec<&str> = ms.iter().map(|c| c.address.as_str()).collect();
    assert_eq!(addrs, vec!["0x1", "0x3"]);
}

#[test]
fn unpinned_windows_are_those_no_pin_claims() {
    let pins = vec![app("Terminal", "kitty", "t")];
    let clients = vec![
        client("0x1", "kitty", "one", Some(1)),
        client("0x2", "firefox", "web", Some(2)),
        client("0x3", "mpv", "video", None),
    ];
    assert!(claimed_by_pins(&clients[0], &pins));
    assert!(!claimed_by_pins(&clients[1], &pins));
    let others = unpinned_clients(&clients, &pins);
    let addrs: Vec<&str> = others.iter().map(|c| c.address.as_str()).collect();
    assert_eq!(addrs, vec!["0x2", "0x3"]);
}

#[test]
fn every_window_is_on_the_dock() {
    let pins = default_pins();
    let clients = vec![
        client("0x1", "kitty", "shell", Some(1)),
        client("0x2", "Slack", "chat", Some(2)),
        client("0x3", "firefox", "web", Some(1)),
    ];
    let plan = build_plan(&pins, &clients);
    assert!(plan.pinned[0].is_running);
    assert!(plan.pinned[1].is_running);
    assert!(!plan.pinned[2].is_running);
    assert!(!plan.pinned[3].is_running);
    assert_eq!(plan.unpinned.len(), 1);
    assert_eq!(plan.unpinned[0].tooltip, "chat");
}

#[test]
fn workspace_labels() {
    assert_eq!(workspace_label(&Some(HyprWorkspaceInfo { id: 3, name: "3".into() })), "w3");
    assert_eq!(workspace_label(&Some(HyprWorkspaceInfo { id: -98, name: "special".into() })), "w-98");
    assert_eq!(workspace_label(&None), "w?");
}

#[test]
fn entry_labels_are_cut_to_width() {
    let ws = Some(HyprWorkspaceInfo { id: 2, name: "2".into() });
    assert_eq!(entry_label(&ws, "kitty"), "w2: kitty");
    assert_eq!(entry_label(&ws, "A rather long title for a window"), "w2: A rather long titl...");
    assert_eq!(entry_label(&None, ""), "w?: ");
}

#[test]
fn pinned_button_without_windows() {
    let pins = vec![app("Browser", "firefox", "firefox")];
    let plan = build_plan(&pins, &vec![]);
    assert_eq!(plan.pinned.len(), 1);
    assert!(plan.unpinned.is_empty());
    let item = &plan.pinned[0];
    assert_eq!(item.icon, "firefox");
    assert_eq!(item.tooltip, "Browser");
    assert!(!item.is_running);
    assert_eq!(request(&item.click), ("sh".to_string(), strings(&["-c", "firefox"])));
    assert_eq!(request(&item.middle_click), ("sh".to_string(), strings(&["-c", "firefox"])));
    assert_eq!(item.menu.header, "Browser");
    assert!(matches!(item.menu.toggle, MenuToggle::Unpin(0)));
    assert!(item.menu.windows.is_empty());
    assert!(item.menu.add.is_none());
}

#[test]
fn pinned_button_with_windows() {
    let pins = vec![app("Terminal", "kitty", "utilities-terminal"), app("Browser", "firefox", "firefox")];
    let clients = vec![
        client("0xa", "firefox", "", Some(4)),
        client("0xb", "firefox", "Docs", None),
    ];
    let plan = build_plan(&pins, &clients);
    let item = &plan.pinned[1];
    assert!(item.is_running);
    assert_eq!(
        request(&item.click),
        ("hyprctl".to_string(), strings(&["dispatch", "focuswindow", "address:0xa"]))
    );
    assert!(matches!(item.menu.toggle, MenuToggle::Unpin(1)));
    assert_eq!(item.menu.windows.len(), 2);
    assert_eq!(item.menu.windows[0].label, "w4: Venster");
    assert_eq!(item.menu.windows[1].label, "w?: Docs");
    assert_eq!(
        request(&item.menu.windows[1].close),
        ("hyprctl".to_string(), strings(&["dispatch", "closewindow", "address:0xb"]))
    );
    assert_eq!(
        request(&item.menu.windows[1].focus),
        ("hyprctl".to_string(), strings(&["dispatch", "focuswindow", "address:0xb"]))
    );
    let add = item.menu.add.as_ref().expect("a running app offers a new window");
    assert_eq!(request(add), ("sh".to_string(), strings(&["-c", "firefox"])));
}

#[test]
fn unpinned_button() {
    let clients = vec![client("0xc", "Slack", "", Some(2))];
    let plan = build_plan(&vec![], &clients);
    assert!(plan.pinned.is_empty());
    assert_eq!(plan.unpinned.len(), 1);
    let item = &plan.unpinned[0];
    assert_eq!(item.icon, "slack");
    assert_eq!(item.tooltip, "");
    assert!(item.is_running);
    assert_eq!(
        request(&item.click),
        ("hyprctl".to_string(), strings(&["dispatch", "focuswindow", "address:0xc"]))
    );
    assert_eq!(request(&item.middle_click), ("sh".to_string(), strings(&["-c", "slack"])));
    assert_eq!(item.menu.header, "Slack");
    match &item.menu.toggle {
        MenuToggle::Pin(a) => {
            assert_eq!(a.name, "");
            assert_eq!(a.cmd, "slack");
            assert_eq!(a.icon, "slack");
        }
        MenuToggle::Unpin(_) => panic!("an unpinned window offers to pin"),
    }
    assert_eq!(item.menu.windows.len(), 1);
    assert_eq!(item.menu.windows[0].label, "w2: ");
    assert_eq!(request(item.menu.add.as_ref().unwrap()), ("sh".to_string(), strings(&["-c", "slack"])));
}

#[test]
fn default_pins_are_the_four_apps() {
    let pins = default_pins();
    let triples: Vec<(&str, &str, &str)> =
        pins.iter().map(|a| (a.name.as_str(), a.cmd.as_str(), a.icon.as_str())).collect();
    assert_eq!(
        triples,
        vec![
            ("Terminal", "kitty", "utilities-terminal"),
            ("Browser", "firefox", "firefox"),
            ("Files", "thunar", "system-file-manager"),
            ("Code", "code", "com.visualstudio.code"),
        ]
    );
}

#[test]
fn resolved_pins() {
    let (pins, save) = resolve_pins(Some(vec![app("Mail", "thunderbird", "mail")]));
    assert!(!save);
    assert_eq!(pins.len(), 1);
    assert_eq!(pins[0].cmd, "thunderbird");
    let (pins, save) = resolve_pins(None);
    assert!(save);
    assert_eq!(pins.len(), 4);
    assert_eq!(pins[0].name, "Terminal");
}

#[test]
fn pin_then_unpin_restores_list() {
    let mut pins = default_pins();
    let c = client("0x9", "Slack", "Team chat", Some(1));
    let made = pin_for_client(&c);
    assert_eq!((made.name.as_str(), made.cmd.as_str(), made.icon.as_str()), ("Team chat", "slack", "slack"));
    pin_client(&mut pins, &c);
    assert_eq!(pins.len(), 5);
    assert_eq!(pins[4].cmd, "slack");
    let plan = build_plan(&pins, &vec![c.clone()]);
    assert!(plan.unpinned.is_empty());
    assert!(plan.pinned[4].is_running);
    unpin(&mut pins, 4);
    assert_eq!(pins.len(), 4);
    assert_eq!(pins[3].name, "Code");
}

#[test]
fn unpin_keeps_order_of_others() {
    let mut pins = default_pins();
    unpin(&mut pins, 1);
    let names: Vec<&str> = pins.iter().map(|a| a.name.as_str()).collect();
    assert_eq!(names, vec!["Terminal", "Files", "Code"]);
}

#[test]
fn unpin_removes_its_button() {
    let mut pins = default_pins();
    let clients = vec![client("0x1", "kitty", "shell", Some(1))];
    let before = build_plan(&pins, &clients);
    assert!(matches!(before.pinned[2].menu.toggle, MenuToggle::Unpin(2)));
    assert_eq!(before.pinned[2].menu.header, "Files");
    unpin(&mut pins, 2);
    let after = build_plan(&pins, &clients);
    let icons: Vec<&str> = after.pinned.iter().map(|i| i.icon.as_str()).collect();
    assert_eq!(icons, vec!["utilities-terminal", "firefox", "com.visualstudio.code"]);
    assert!(after.pinned[0].is_running);
}

#[test]
fn menu_labels_never_exceed_width() {
    let ws = Some(HyprWorkspaceInfo { id: i64::MIN, name: "x".into() });
    let label = entry_label(&ws, "a title that goes on and on");
    assert_eq!(label.chars().count(), 25);
    assert_eq!(label, "w-9223372036854775808:...");
}
