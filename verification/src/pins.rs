use vstd::prelude::*;
use crate::model::{apps_view, DockApp, DockAppView, HyprClient};
use crate::text::{lowercase, spec_lowercase};

verus! {

/// The applications pinned when no saved list can be read.
pub open spec fn spec_default_pins() -> Seq<DockAppView> {
    seq![
        DockAppView { name: "Terminal"@, cmd: "kitty"@, icon: "utilities-terminal"@ },
        DockAppView { name: "Browser"@, cmd: "firefox"@, icon: "firefox"@ },
        DockAppView { name: "Files"@, cmd: "thunar"@, icon: "system-file-manager"@ },
        DockAppView { name: "Code"@, cmd: "code"@, icon: "com.visualstudio.code"@ },
    ]
}

/// The applications pinned when no saved list can be read.
pub fn default_pins() -> (r: Vec<DockApp>)
    ensures
        apps_view(r@) == spec_default_pins(),
{
    let mut r: Vec<DockApp> = Vec::new();
    r.push(DockApp::new("Terminal", "kitty", "utilities-terminal"));
    r.push(DockApp::new("Browser", "firefox", "firefox"));
    r.push(DockApp::new("Files", "thunar", "system-file-manager"));
    r.push(DockApp::new("Code", "code", "com.visualstudio.code"));
    assert(apps_view(r@) =~= spec_default_pins());
    r
}

/// The pinned list to start with, and whether it must be written back:
/// a list that was read and parsed is kept as it is; without one the
/// default list is used and saved.
pub fn resolve_pins(loaded: Option<Vec<DockApp>>) -> (r: (Vec<DockApp>, bool))
    ensures
        match loaded {
            Some(apps) => r.0@ == apps@ && !r.1,
            None => apps_view(r.0@) == spec_default_pins() && r.1,
        },
{
    match loaded {
        Some(apps) => (apps, false),
        None => (default_pins(), true),
    }
}

/// What pinning the window `client` adds to the dock: its title as the
/// name, its class in lowercase as both command and icon.
pub open spec fn spec_pin_for(client: HyprClient) -> DockAppView {
    DockAppView {
        name: client.title@,
        cmd: spec_lowercase(client.class@),
        icon: spec_lowercase(client.class@),
    }
}

/// The pinned application made from the window `client`.
pub fn pin_for_client(client: &HyprClient) -> (r: DockApp)
    ensures
        r@ == spec_pin_for(*client),
{
    DockApp {
        name: client.title.clone(),
        cmd: lowercase(client.class.as_str()),
        icon: lowercase(client.class.as_str()),
    }
}

/// Pins `app`: it goes to the end of the list.
pub fn pin(pins: &mut Vec<DockApp>, app: DockApp)
    ensures
        final(pins)@ == old(pins)@.push(app),
{
    pins.push(app);
}

/// Pins the window `client`: its application goes to the end of the list.
pub fn pin_client(pins: &mut Vec<DockApp>, client: &HyprClient)
    ensures
        final(pins)@.len() == old(pins)@.len() + 1,
        final(pins)@.take(old(pins)@.len() as int) == old(pins)@,
        final(pins)@.last()@ == spec_pin_for(*client),
{
    let app = pin_for_client(client);
    pin(pins, app);
    assert(final(pins)@.take(old(pins)@.len() as int) =~= old(pins)@);
}

/// Unpins the application at `index`; the others keep their order.
pub fn unpin(pins: &mut Vec<DockApp>, index: usize)
    requires
        index < old(pins)@.len(),
    ensures
        final(pins)@ == old(pins)@.remove(index as int),
{
    pins.remove(index);
}

} // verus!
