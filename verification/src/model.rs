use vstd::prelude::*;

verus! {

/// A pinned application: the name shown for it, the shell command that
/// starts it, and the icon that stands for it.
pub struct DockApp {
    pub name: String,
    pub cmd: String,
    pub icon: String,
}

/// The characters of a pinned application's three fields.
pub struct DockAppView {
    pub name: Seq<char>,
    pub cmd: Seq<char>,
    pub icon: Seq<char>,
}

impl View for DockApp {
    type V = DockAppView;

    open spec fn view(&self) -> DockAppView {
        DockAppView { name: self.name@, cmd: self.cmd@, icon: self.icon@ }
    }
}

impl Clone for DockApp {
    fn clone(&self) -> (r: Self)
        ensures
            r == *self,
    {
        DockApp { name: self.name.clone(), cmd: self.cmd.clone(), icon: self.icon.clone() }
    }
}

impl DockApp {
    pub fn new(name: &str, cmd: &str, icon: &str) -> (r: Self)
        ensures
            r@ == (DockAppView { name: name@, cmd: cmd@, icon: icon@ }),
    {
        DockApp { name: String::from_str(name), cmd: String::from_str(cmd), icon: String::from_str(icon) }
    }
}

/// The workspace that a window sits on, as the compositor reports it.
pub struct HyprWorkspaceInfo {
    pub id: i64,
    pub name: String,
}

impl Clone for HyprWorkspaceInfo {
    fn clone(&self) -> (r: Self)
        ensures
            r == *self,
    {
        HyprWorkspaceInfo { id: self.id, name: self.name.clone() }
    }
}

/// An open window ("client") as the compositor reports it.
pub struct HyprClient {
    pub address: String,
    pub class: String,
    pub title: String,
    pub workspace: Option<HyprWorkspaceInfo>,
}

impl Clone for HyprClient {
    fn clone(&self) -> (r: Self)
        ensures
            r == *self,
    {
        let workspace = match &self.workspace {
            Some(w) => Some(w.clone()),
            None => None,
        };
        HyprClient {
            address: self.address.clone(),
            class: self.class.clone(),
            title: self.title.clone(),
            workspace,
        }
    }
}

/// The views of a sequence of pinned applications.
pub open spec fn apps_view(apps: Seq<DockApp>) -> Seq<DockAppView> {
    apps.map_values(|a: DockApp| a@)
}

} // verus!
