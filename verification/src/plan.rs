use vstd::prelude::*;
use crate::actions::{
    close_window, focus_window, launch, spec_close_window, spec_focus_window, spec_launch,
    ProcessRequest, ProcessView,
};
use crate::matching::{
    matching_clients, spec_matching, spec_unpinned, unpinned_clients,
};
use crate::model::{DockApp, DockAppView, HyprClient, HyprWorkspaceInfo};
use crate::pins::{pin_for_client, spec_pin_for};
use crate::text::{decimal_string, lowercase, spec_decimal, spec_lowercase, spec_truncate, truncate_text};

verus! {

/// The longest label, in characters, of a window in a dock menu.
pub const MENU_LABEL_MAX: usize = 25;

/// A window listed in a dock button's menu: its label, and the requests
/// that focus and close it.
pub struct WindowEntry {
    pub label: String,
    pub focus: ProcessRequest,
    pub close: ProcessRequest,
}

pub struct WindowEntryView {
    pub label: Seq<char>,
    pub focus: ProcessView,
    pub close: ProcessView,
}

impl View for WindowEntry {
    type V = WindowEntryView;

    open spec fn view(&self) -> WindowEntryView {
        WindowEntryView { label: self.label@, focus: self.focus@, close: self.close@ }
    }
}

/// The first row of actions of a menu: unpin the application at an index of
/// the pinned list, or pin a new application.
pub enum MenuToggle {
    Unpin(usize),
    Pin(DockApp),
}

pub enum ToggleView {
    Unpin(nat),
    Pin(DockAppView),
}

impl View for MenuToggle {
    type V = ToggleView;

    open spec fn view(&self) -> ToggleView {
        match self {
            MenuToggle::Unpin(i) => ToggleView::Unpin(*i as nat),
            MenuToggle::Pin(app) => ToggleView::Pin(app@),
        }
    }
}

/// The menu of a dock button: a header, the pin or unpin row, the windows,
/// and the request behind the "+" row when there is one.
pub struct DockMenu {
    pub header: String,
    pub toggle: MenuToggle,
    pub windows: Vec<WindowEntry>,
    pub add: Option<ProcessRequest>,
}

pub struct MenuView {
    pub header: Seq<char>,
    pub toggle: ToggleView,
    pub windows: Seq<WindowEntryView>,
    pub add: Option<ProcessView>,
}

pub open spec fn option_process_view(p: Option<ProcessRequest>) -> Option<ProcessView> {
    match p {
        Some(r) => Some(r@),
        None => None,
    }
}

impl View for DockMenu {
    type V = MenuView;

    open spec fn view(&self) -> MenuView {
        MenuView {
            header: self.header@,
            toggle: self.toggle@,
            windows: self.windows@.map_values(|w: WindowEntry| w@),
            add: option_process_view(self.add),
        }
    }
}

/// A dock button: its icon, tooltip, running mark, what a left and a middle
/// click start, and its menu.
pub struct DockItem {
    pub icon: String,
    pub tooltip: String,
    pub is_running: bool,
    pub click: ProcessRequest,
    pub middle_click: ProcessRequest,
    pub menu: DockMenu,
}

pub struct DockItemView {
    pub icon: Seq<char>,
    pub tooltip: Seq<char>,
    pub is_running: bool,
    pub click: ProcessView,
    pub middle_click: ProcessView,
    pub menu: MenuView,
}

impl View for DockItem {
    type V = DockItemView;

    open spec fn view(&self) -> DockItemView {
        DockItemView {
            icon: self.icon@,
            tooltip: self.tooltip@,
            is_running: self.is_running,
            click: self.click@,
            middle_click: self.middle_click@,
            menu: self.menu@,
        }
    }
}

/// The whole dock: a button per pinned application, then, after a
/// separator when there are any, a button per window that no pinned
/// application claims.
pub struct DockPlan {
    pub pinned: Vec<DockItem>,
    pub unpinned: Vec<DockItem>,
}

pub struct DockPlanView {
    pub pinned: Seq<DockItemView>,
    pub unpinned: Seq<DockItemView>,
}

pub open spec fn items_view(items: Seq<DockItem>) -> Seq<DockItemView> {
    items.map_values(|d: DockItem| d@)
}

impl View for DockPlan {
    type V = DockPlanView;

    open spec fn view(&self) -> DockPlanView {
        DockPlanView { pinned: items_view(self.pinned@), unpinned: items_view(self.unpinned@) }
    }
}

/// "w<id>" for a known workspace, "w?" otherwise.
pub open spec fn spec_workspace_label(ws: Option<HyprWorkspaceInfo>) -> Seq<char> {
    match ws {
        Some(w) => "w"@ + spec_decimal(w.id as int),
        None => "w?"@,
    }
}

/// "<workspace>: <title>", cut to the menu's label width.
pub open spec fn spec_entry_label(ws: Option<HyprWorkspaceInfo>, title: Seq<char>) -> Seq<char> {
    spec_truncate(spec_workspace_label(ws) + ": "@ + title, MENU_LABEL_MAX as nat)
}

/// The title that a pinned application's menu shows for a window: its own,
/// or "Venster" when it has none.
pub open spec fn spec_shown_title(title: Seq<char>) -> Seq<char> {
    if title.len() == 0 {
        "Venster"@
    } else {
        title
    }
}

/// The menu row of `client` under the title `title`.
pub open spec fn spec_window_entry(client: HyprClient, title: Seq<char>) -> WindowEntryView {
    WindowEntryView {
        label: spec_entry_label(client.workspace, title),
        focus: spec_focus_window(client.address@),
        close: spec_close_window(client.address@),
    }
}

/// The button of the pinned application `app`, at `index` of the pinned list,
/// given the open windows `clients`.
pub open spec fn spec_pinned_item(clients: Seq<HyprClient>, app: DockApp, index: nat) -> DockItemView {
    let ms = spec_matching(clients, app);
    DockItemView {
        icon: app.icon@,
        tooltip: app.name@,
        is_running: ms.len() > 0,
        click: if ms.len() > 0 {
            spec_focus_window(ms[0].address@)
        } else {
            spec_launch(app.cmd@)
        },
        middle_click: spec_launch(app.cmd@),
        menu: MenuView {
            header: app.name@,
            toggle: ToggleView::Unpin(index),
            windows: ms.map_values(|c: HyprClient| spec_window_entry(c, spec_shown_title(c.title@))),
            add: if ms.len() > 0 {
                Some(spec_launch(app.cmd@))
            } else {
                None
            },
        },
    }
}

/// The button of the window `client` that no pinned application claims.
pub open spec fn spec_unpinned_item(client: HyprClient) -> DockItemView {
    let cmd = spec_lowercase(client.class@);
    DockItemView {
        icon: cmd,
        tooltip: client.title@,
        is_running: true,
        click: spec_focus_window(client.address@),
        middle_click: spec_launch(cmd),
        menu: MenuView {
            header: client.class@,
            toggle: ToggleView::Pin(spec_pin_for(client)),
            windows: seq![spec_window_entry(client, client.title@)],
            add: Some(spec_launch(cmd)),
        },
    }
}

/// The dock for the pinned list `pins` and the open windows `clients`.
pub open spec fn spec_plan(clients: Seq<HyprClient>, pins: Seq<DockApp>) -> DockPlanView {
    DockPlanView {
        pinned: Seq::new(pins.len(), |i: int| spec_pinned_item(clients, pins[i], i as nat)),
        unpinned: spec_unpinned(clients, pins).map_values(|c: HyprClient| spec_unpinned_item(c)),
    }
}

/// "w<id>" for a known workspace, "w?" otherwise.
pub fn workspace_label(ws: &Option<HyprWorkspaceInfo>) -> (r: String)
    ensures
        r@ == spec_workspace_label(*ws),
{
    match ws {
        Some(w) => {
            let mut r = String::from_str("w");
            let digits = decimal_string(w.id);
            r.append(digits.as_str());
            r
        },
        None => String::from_str("w?"),
    }
}

/// "<workspace>: <title>", cut to the menu's label width.
pub fn entry_label(ws: &Option<HyprWorkspaceInfo>, title: &str) -> (r: String)
    ensures
        r@ == spec_entry_label(*ws, title@),
{
    let mut full = workspace_label(ws);
    full.append(": ");
    full.append(title);
    truncate_text(full.as_str(), MENU_LABEL_MAX)
}

fn window_entry(client: &HyprClient, title: &str) -> (r: WindowEntry)
    ensures
        r@ == spec_window_entry(*client, title@),
{
    WindowEntry {
        label: entry_label(&client.workspace, title),
        focus: focus_window(client.address.as_str()),
        close: close_window(client.address.as_str()),
    }
}

fn shown_title(title: &String) -> (r: String)
    ensures
        r@ == spec_shown_title(title@),
{
    if title.as_str().unicode_len() == 0 {
        String::from_str("Venster")
    } else {
        title.clone()
    }
}

/// The button of the pinned application `app` at `index`, given the open
/// windows `clients`.
pub fn pinned_item(clients: &Vec<HyprClient>, app: &DockApp, index: usize) -> (r: DockItem)
    ensures
        r@ == spec_pinned_item(clients@, *app, index as nat),
        r@.middle_click == (ProcessView { program: "sh"@, args: seq!["-c"@, app.cmd@] }),
        r@.icon == app.icon@,
        r@.tooltip == app.name@,
        r@.menu.header == app.name@,
        r@.menu.toggle == ToggleView::Unpin(index as nat),
{
    let ms = matching_clients(clients, app);
    let mut windows: Vec<WindowEntry> = Vec::new();
    let n = ms.len();
    let mut k: usize = 0;
    while k < n
        invariant
            k <= n,
            n == ms@.len(),
            windows@.len() == k,
            forall|j: int|
                0 <= j < k ==> #[trigger] windows@[j]@ == spec_window_entry(
                    ms@[j],
                    spec_shown_title(ms@[j].title@),
                ),
        decreases n - k,
    {
        let title = shown_title(&ms[k].title);
        let entry = window_entry(&ms[k], title.as_str());
        windows.push(entry);
        k = k + 1;
    }
    assert(windows@.map_values(|w: WindowEntry| w@) =~= ms@.map_values(
        |c: HyprClient| spec_window_entry(c, spec_shown_title(c.title@)),
    ));
    let running = n > 0;
    let click = if running {
        focus_window(ms[0].address.as_str())
    } else {
        launch(app.cmd.as_str())
    };
    let add = if running {
        Some(launch(app.cmd.as_str()))
    } else {
        None
    };
    DockItem {
        icon: app.icon.clone(),
        tooltip: app.name.clone(),
        is_running: running,
        click,
        middle_click: launch(app.cmd.as_str()),
        menu: DockMenu { header: app.name.clone(), toggle: MenuToggle::Unpin(index), windows, add },
    }
}

/// The button of the window `client` that no pinned application claims.
pub fn unpinned_item(client: &HyprClient) -> (r: DockItem)
    ensures
        r@ == spec_unpinned_item(*client),
{
    let cmd = lowercase(client.class.as_str());
    let mut windows: Vec<WindowEntry> = Vec::new();
    windows.push(window_entry(client, client.title.as_str()));
    let r = DockItem {
        icon: lowercase(client.class.as_str()),
        tooltip: client.title.clone(),
        is_running: true,
        click: focus_window(client.address.as_str()),
        middle_click: launch(cmd.as_str()),
        menu: DockMenu {
            header: client.class.clone(),
            toggle: MenuToggle::Pin(pin_for_client(client)),
            windows,
            add: Some(launch(cmd.as_str())),
        },
    };
    assert(r@.menu.windows =~= seq![spec_window_entry(*client, client.title@)]);
    r
}

/// The dock for the pinned list `pins` and the open windows `clients`.
pub fn build_plan(pins: &Vec<DockApp>, clients: &Vec<HyprClient>) -> (r: DockPlan)
    ensures
        r@ == spec_plan(clients@, pins@),
{
    let mut pinned: Vec<DockItem> = Vec::new();
    let np = pins.len();
    let mut i: usize = 0;
    while i < np
        invariant
            i <= np,
            np == pins@.len(),
            pinned@.len() == i,
            forall|j: int|
                0 <= j < i ==> #[trigger] pinned@[j]@ == spec_pinned_item(
                    clients@,
                    pins@[j],
                    j as nat,
                ),
        decreases np - i,
    {
        let item = pinned_item(clients, &pins[i], i);
        pinned.push(item);
        i = i + 1;
    }
    let others = unpinned_clients(clients, pins);
    let mut unpinned: Vec<DockItem> = Vec::new();
    let nu = others.len();
    let mut k: usize = 0;
    while k < nu
        invariant
            k <= nu,
            nu == others@.len(),
            unpinned@.len() == k,
            forall|j: int| 0 <= j < k ==> #[trigger] unpinned@[j]@ == spec_unpinned_item(others@[j]),
        decreases nu - k,
    {
        let item = unpinned_item(&others[k]);
        unpinned.push(item);
        k = k + 1;
    }
    let r = DockPlan { pinned, unpinned };
    assert(r@.pinned =~= spec_plan(clients@, pins@).pinned);
    assert(r@.unpinned =~= spec_plan(clients@, pins@).unpinned);
    r
}

} // verus!
