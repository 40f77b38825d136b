use vstd::prelude::*;
use crate::model::{DockApp, HyprClient};
use crate::text::{lowercase, seq_contains, spec_lowercase, str_contains};

verus! {

/// A window of class `class` belongs to the pinned application with command
/// `cmd` and name `name` when, all three taken in lowercase, the class holds
/// the command, the command holds the class, or the class holds the name.
pub open spec fn spec_class_matches(class: Seq<char>, cmd: Seq<char>, name: Seq<char>) -> bool {
    let c = spec_lowercase(class);
    let m = spec_lowercase(cmd);
    let n = spec_lowercase(name);
    seq_contains(c, m) || seq_contains(m, c) || seq_contains(c, n)
}

/// Whether `client` is a window of the pinned application `app`.
pub open spec fn matches_app(client: HyprClient, app: DockApp) -> bool {
    spec_class_matches(client.class@, app.cmd@, app.name@)
}

/// The windows of `app`, in the order the compositor listed them.
pub open spec fn spec_matching(clients: Seq<HyprClient>, app: DockApp) -> Seq<HyprClient> {
    clients.filter(|c: HyprClient| matches_app(c, app))
}

/// Whether some pinned application claims `client`.
pub open spec fn claimed_by_any(client: HyprClient, pins: Seq<DockApp>) -> bool {
    exists|j: int| 0 <= j < pins.len() && matches_app(client, #[trigger] pins[j])
}

/// The windows that no pinned application claims, in the compositor's order.
pub open spec fn spec_unpinned(clients: Seq<HyprClient>, pins: Seq<DockApp>) -> Seq<HyprClient> {
    clients.filter(|c: HyprClient| !claimed_by_any(c, pins))
}

/// Whether `client` is a window of the pinned application `app`.
pub fn client_matches_app(client: &HyprClient, app: &DockApp) -> (b: bool)
    ensures
        b == matches_app(*client, *app),
        b <==> (seq_contains(spec_lowercase(client.class@), spec_lowercase(app.cmd@))
            || seq_contains(spec_lowercase(app.cmd@), spec_lowercase(client.class@))
            || seq_contains(spec_lowercase(client.class@), spec_lowercase(app.name@))),
{
    let class_lower = lowercase(client.class.as_str());
    let cmd_lower = lowercase(app.cmd.as_str());
    let name_lower = lowercase(app.name.as_str());
    str_contains(class_lower.as_str(), cmd_lower.as_str()) || str_contains(
        cmd_lower.as_str(),
        class_lower.as_str(),
    ) || str_contains(class_lower.as_str(), name_lower.as_str())
}

/// The windows of `app` among `clients`, in order.
pub fn matching_clients(clients: &Vec<HyprClient>, app: &DockApp) -> (r: Vec<HyprClient>)
    ensures
        r@ == spec_matching(clients@, *app),
{
    let ghost pred = |c: HyprClient| matches_app(c, *app);
    let mut r: Vec<HyprClient> = Vec::new();
    let n = clients.len();
    let mut i: usize = 0;
    while i < n
        invariant
            i <= n,
            n == clients@.len(),
            pred == (|c: HyprClient| matches_app(c, *app)),
            r@ == clients@.take(i as int).filter(pred),
        decreases n - i,
    {
        proof {
            clients@.take(i as int).lemma_filter_push(clients@[i as int], pred);
            assert(clients@.take(i as int).push(clients@[i as int]) == clients@.take(i + 1));
        }
        if client_matches_app(&clients[i], app) {
            r.push(clients[i].clone());
        }
        i = i + 1;
    }
    assert(clients@.take(n as int) == clients@);
    r
}

/// Whether some application of `pins` claims `client`.
pub fn claimed_by_pins(client: &HyprClient, pins: &Vec<DockApp>) -> (b: bool)
    ensures
        b == claimed_by_any(*client, pins@),
        b <==> exists|j: int| 0 <= j < pins@.len() && matches_app(*client, #[trigger] pins@[j]),
{
    let n = pins.len();
    let mut j: usize = 0;
    while j < n
        invariant
            j <= n,
            n == pins@.len(),
            forall|k: int| 0 <= k < j ==> !matches_app(*client, #[trigger] pins@[k]),
        decreases n - j,
    {
        if client_matches_app(client, &pins[j]) {
            return true;
        }
        j = j + 1;
    }
    false
}

/// The windows among `clients` that no application of `pins` claims, in order.
pub fn unpinned_clients(clients: &Vec<HyprClient>, pins: &Vec<DockApp>) -> (r: Vec<HyprClient>)
    ensures
        r@ == spec_unpinned(clients@, pins@),
{
    let ghost pred = |c: HyprClient| !claimed_by_any(c, pins@);
    let mut r: Vec<HyprClient> = Vec::new();
    let n = clients.len();
    let mut i: usize = 0;
    while i < n
        invariant
            i <= n,
            n == clients@.len(),
            pred == (|c: HyprClient| !claimed_by_any(c, pins@)),
            r@ == clients@.take(i as int).filter(pred),
        decreases n - i,
    {
        proof {
            clients@.take(i as int).lemma_filter_push(clients@[i as int], pred);
            assert(clients@.take(i as int).push(clients@[i as int]) == clients@.take(i + 1));
        }
        if !claimed_by_pins(&clients[i], pins) {
            r.push(clients[i].clone());
        }
        i = i + 1;
    }
    assert(clients@.take(n as int) == clients@);
    r
}

} // verus!
