use vstd::prelude::*;
use crate::model::{apps_view, DockApp, DockAppView, HyprClient};

verus! {

/// What the dock's contents depend on: the pinned list and, for each open
/// window, its address and class.
pub struct DockSnapshot {
    pub pins: Vec<DockApp>,
    pub clients: Vec<(String, String)>,
}

pub struct SnapshotView {
    pub pins: Seq<DockAppView>,
    pub clients: Seq<(Seq<char>, Seq<char>)>,
}

impl View for DockSnapshot {
    type V = SnapshotView;

    open spec fn view(&self) -> SnapshotView {
        SnapshotView {
            pins: apps_view(self.pins@),
            clients: self.clients@.map_values(|p: (String, String)| (p.0@, p.1@)),
        }
    }
}

/// The snapshot of `pins` and `clients`.
pub open spec fn spec_snapshot(pins: Seq<DockApp>, clients: Seq<HyprClient>) -> SnapshotView {
    SnapshotView {
        pins: apps_view(pins),
        clients: clients.map_values(|c: HyprClient| (c.address@, c.class@)),
    }
}

/// Takes the snapshot of `pins` and `clients`.
pub fn snapshot_of(pins: &Vec<DockApp>, clients: &Vec<HyprClient>) -> (r: DockSnapshot)
    ensures
        r@ == spec_snapshot(pins@, clients@),
{
    let mut keys: Vec<(String, String)> = Vec::new();
    let n = clients.len();
    let mut i: usize = 0;
    while i < n
        invariant
            i <= n,
            n == clients@.len(),
            keys@.len() == i,
            forall|j: int|
                0 <= j < i ==> (#[trigger] keys@[j]).0@ == clients@[j].address@ && keys@[j].1@
                    == clients@[j].class@,
        decreases n - i,
    {
        keys.push((clients[i].address.clone(), clients[i].class.clone()));
        i = i + 1;
    }
    let mut apps: Vec<DockApp> = Vec::new();
    let m = pins.len();
    let mut k: usize = 0;
    while k < m
        invariant
            k <= m,
            m == pins@.len(),
            apps@ == pins@.take(k as int),
        decreases m - k,
    {
        apps.push(pins[k].clone());
        k = k + 1;
        assert(apps@ =~= pins@.take(k as int));
    }
    assert(pins@.take(m as int) == pins@);
    let r = DockSnapshot { pins: apps, clients: keys };
    assert(r@.clients =~= spec_snapshot(pins@, clients@).clients);
    r
}

fn apps_equal(a: &Vec<DockApp>, b: &Vec<DockApp>) -> (r: bool)
    ensures
        r == (apps_view(a@) == apps_view(b@)),
{
    if a.len() != b.len() {
        assert(apps_view(a@).len() != apps_view(b@).len());
        return false;
    }
    let n = a.len();
    let mut i: usize = 0;
    while i < n
        invariant
            i <= n,
            n == a@.len(),
            n == b@.len(),
            forall|j: int| 0 <= j < i ==> (#[trigger] a@[j])@ == b@[j]@,
        decreases n - i,
    {
        if !(a[i].name == b[i].name && a[i].cmd == b[i].cmd && a[i].icon == b[i].icon) {
            assert(apps_view(a@)[i as int] != apps_view(b@)[i as int]);
            return false;
        }
        i = i + 1;
    }
    assert(apps_view(a@) =~= apps_view(b@));
    true
}

fn keys_equal(a: &Vec<(String, String)>, b: &Vec<(String, String)>) -> (r: bool)
    ensures
        r == (a@.map_values(|p: (String, String)| (p.0@, p.1@)) == b@.map_values(
            |p: (String, String)| (p.0@, p.1@),
        )),
{
    let ghost va = a@.map_values(|p: (String, String)| (p.0@, p.1@));
    let ghost vb = b@.map_values(|p: (String, String)| (p.0@, p.1@));
    if a.len() != b.len() {
        assert(va.len() != vb.len());
        return false;
    }
    let n = a.len();
    let mut i: usize = 0;
    while i < n
        invariant
            i <= n,
            n == a@.len(),
            n == b@.len(),
            va == a@.map_values(|p: (String, String)| (p.0@, p.1@)),
            vb == b@.map_values(|p: (String, String)| (p.0@, p.1@)),
            forall|j: int| 0 <= j < i ==> #[trigger] va[j] == vb[j],
        decreases n - i,
    {
        if !(a[i].0 == b[i].0 && a[i].1 == b[i].1) {
            assert(va[i as int] != vb[i as int]);
            return false;
        }
        i = i + 1;
    }
    assert(va =~= vb);
    true
}

/// Whether two snapshots hold the same pins and the same windows.
pub fn snapshots_equal(a: &DockSnapshot, b: &DockSnapshot) -> (r: bool)
    ensures
        r == (a@ == b@),
{
    let same_pins = apps_equal(&a.pins, &b.pins);
    let same_clients = keys_equal(&a.clients, &b.clients);
    same_pins && same_clients
}

/// What an observation does to the last snapshot seen: the dock is rebuilt
/// when the new snapshot differs from it (or none was seen yet), and the
/// new snapshot is remembered.
pub open spec fn spec_observe(last: Option<SnapshotView>, snap: SnapshotView) -> (
    bool,
    Option<SnapshotView>,
) {
    (last != Some(snap), Some(snap))
}

/// Remembers the last snapshot for which the dock was built.
pub struct Refresher {
    pub last: Option<DockSnapshot>,
}

pub open spec fn option_snapshot_view(s: Option<DockSnapshot>) -> Option<SnapshotView> {
    match s {
        Some(x) => Some(x@),
        None => None,
    }
}

impl Refresher {
    /// The last snapshot seen, if any.
    pub open spec fn last_seen(&self) -> Option<SnapshotView> {
        option_snapshot_view(self.last)
    }

    /// A refresher that has seen nothing yet.
    pub fn new() -> (r: Self)
        ensures
            r.last_seen() == None::<SnapshotView>,
    {
        Refresher { last: None }
    }

    /// Records `snap` and says whether the dock must be rebuilt for it.
    pub fn observe(&mut self, snap: DockSnapshot) -> (rebuild: bool)
        ensures
            (rebuild, final(self).last_seen()) == spec_observe(old(self).last_seen(), snap@),
    {
        let rebuild = match &self.last {
            Some(prev) => !snapshots_equal(prev, &snap),
            None => true,
        };
        self.last = Some(snap);
        rebuild
    }
}

/// What an observation of a stylesheet's modification time does: with no
/// time nothing happens; with a time, the stylesheet is reloaded when it
/// differs from the last one seen, and it becomes the last one seen.
pub open spec fn spec_watch(last: Option<i128>, modified: Option<i128>) -> (bool, Option<i128>) {
    match modified {
        Some(m) => (last != Some(m), Some(m)),
        None => (false, last),
    }
}

/// Follows the modification time of the user's stylesheet, in nanoseconds
/// from the Unix epoch (negative before it).
pub struct StylesheetWatcher {
    pub last_modified: Option<i128>,
}

impl StylesheetWatcher {
    /// A watcher that starts from the time read when the stylesheet was loaded.
    pub fn new(initial: Option<i128>) -> (r: Self)
        ensures
            r.last_modified == initial,
    {
        StylesheetWatcher { last_modified: initial }
    }

    /// Records the time just read (`None` when it could not be read) and
    /// says whether the stylesheet must be loaded again.
    pub fn observe(&mut self, modified: Option<i128>) -> (reload: bool)
        ensures
            (reload, final(self).last_modified) == spec_watch(old(self).last_modified, modified),
    {
        match modified {
            Some(m) => {
                let reload = match self.last_modified {
                    Some(prev) => prev != m,
                    None => true,
                };
                self.last_modified = Some(m);
                reload
            },
            None => false,
        }
    }
}

} // verus!
