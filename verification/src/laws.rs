use vstd::prelude::*;
use crate::actions::ProcessView;
use crate::autohide::{spec_dock_margin, SHOWN_MARGIN};
use crate::matching::{claimed_by_any, matches_app, spec_matching, spec_unpinned};
use crate::icons::spec_select_icon;
use crate::model::{DockApp, DockAppView, HyprClient, HyprWorkspaceInfo};
use crate::pins::spec_pin_for;
use crate::plan::{spec_entry_label, spec_plan, ToggleView, WindowEntryView, MENU_LABEL_MAX};
use crate::refresh::{spec_observe, spec_snapshot, spec_watch, SnapshotView};
use crate::text::{digit_char, seq_contains, spec_decimal, spec_digits, spec_lowercase, spec_truncate};

verus! {

/// An element of a filtered sequence satisfies the filter and comes from the
/// sequence.
proof fn lemma_filter_member<A>(s: Seq<A>, pred: spec_fn(A) -> bool, x: A)
    requires
        s.filter(pred).contains(x),
    ensures
        pred(x),
        s.contains(x),
{
    let j = choose|j: int| 0 <= j < s.filter(pred).len() && s.filter(pred)[j] == x;
    s.lemma_filter_pred(pred, j);
    s.lemma_filter_contains_rev(pred, x);
}

/// A pinned application's button is marked running exactly when some open
/// window belongs to that application.
pub proof fn lemma_running_iff_open_window(clients: Seq<HyprClient>, pins: Seq<DockApp>, i: int)
    requires
        0 <= i < pins.len(),
    ensures
        spec_plan(clients, pins).pinned[i].is_running <==> exists|k: int|
            0 <= k < clients.len() && matches_app(#[trigger] clients[k], pins[i]),
{
    let app = pins[i];
    let pred = |c: HyprClient| matches_app(c, app);
    let ms = spec_matching(clients, app);
    assert(ms == clients.filter(pred));
    if exists|k: int| 0 <= k < clients.len() && matches_app(#[trigger] clients[k], app) {
        let k = choose|k: int| 0 <= k < clients.len() && matches_app(#[trigger] clients[k], app);
        clients.lemma_filter_contains(pred, k);
    }
    if ms.len() > 0 {
        assert(ms.contains(ms[0]));
        lemma_filter_member(clients, pred, ms[0]);
        let k = choose|k: int| 0 <= k < clients.len() && clients[k] == ms[0];
        assert(matches_app(clients[k], app));
    }
}

/// Every open window is on the dock: either it belongs to a pinned
/// application whose button is marked running, or it has a button of its own.
pub proof fn lemma_every_window_on_dock(clients: Seq<HyprClient>, pins: Seq<DockApp>, k: int)
    requires
        0 <= k < clients.len(),
    ensures
        (exists|i: int|
            0 <= i < pins.len() && matches_app(clients[k], #[trigger] pins[i]) && spec_plan(
                clients,
                pins,
            ).pinned[i].is_running) || spec_unpinned(clients, pins).contains(clients[k]),
{
    let c = clients[k];
    if claimed_by_any(c, pins) {
        let i = choose|i: int| 0 <= i < pins.len() && matches_app(c, #[trigger] pins[i]);
        lemma_running_iff_open_window(clients, pins, i);
    } else {
        let pred = |x: HyprClient| !claimed_by_any(x, pins);
        clients.lemma_filter_contains(pred, k);
    }
}

/// A window has a button of its own only when it is open and no pinned
/// application claims it.
pub proof fn lemma_own_button_only_if_unclaimed(
    clients: Seq<HyprClient>,
    pins: Seq<DockApp>,
    c: HyprClient,
)
    requires
        spec_unpinned(clients, pins).contains(c),
    ensures
        clients.contains(c),
        !claimed_by_any(c, pins),
{
    let pred = |x: HyprClient| !claimed_by_any(x, pins);
    lemma_filter_member(clients, pred, c);
}

/// Every character run contains itself.
proof fn lemma_contains_self(s: Seq<char>)
    ensures
        seq_contains(s, s),
{
    assert(s.subrange(0, 0 + s.len() as int) =~= s);
}

/// Once a window is pinned, the application made from it claims it, so it no
/// longer has a button of its own. This holds where lowercasing the window's
/// class a second time changes nothing.
pub proof fn lemma_pinned_window_is_claimed(
    clients: Seq<HyprClient>,
    pins: Seq<DockApp>,
    client: HyprClient,
    app: DockApp,
)
    requires
        app@ == spec_pin_for(client),
        spec_lowercase(spec_lowercase(client.class@)) == spec_lowercase(client.class@),
    ensures
        matches_app(client, app),
        claimed_by_any(client, pins.push(app)),
        !spec_unpinned(clients, pins.push(app)).contains(client),
{
    lemma_contains_self(spec_lowercase(client.class@));
    let new_pins = pins.push(app);
    assert(new_pins[pins.len() as int] == app);
    if spec_unpinned(clients, new_pins).contains(client) {
        lemma_own_button_only_if_unclaimed(clients, new_pins, client);
    }
}

/// Unpinning the application that was just pinned gives back the list as it
/// was.
pub proof fn lemma_unpin_undoes_pin(pins: Seq<DockApp>, app: DockApp)
    ensures
        pins.push(app).remove(pins.len() as int) == pins,
{
    assert(pins.push(app).remove(pins.len() as int) =~= pins);
}

/// The dock has one button per pinned application, in the pinned order, and
/// unpinning one leaves one button fewer.
pub proof fn lemma_one_button_per_pin(clients: Seq<HyprClient>, pins: Seq<DockApp>, index: int)
    requires
        0 <= index < pins.len(),
    ensures
        spec_plan(clients, pins).pinned.len() == pins.len(),
        spec_plan(clients, pins.remove(index)).pinned.len() == pins.len() - 1,
{
}

/// Each pinned application's button offers to unpin exactly that
/// application, and unpinning it removes its button while the other buttons
/// keep their icons, tooltips and order.
pub proof fn lemma_unpin_removes_its_button(clients: Seq<HyprClient>, pins: Seq<DockApp>, i: int)
    requires
        0 <= i < pins.len(),
    ensures
        spec_plan(clients, pins).pinned[i].menu.toggle == ToggleView::Unpin(i as nat),
        spec_plan(clients, pins).pinned[i].menu.header == pins[i].name@,
        forall|j: int|
            0 <= j < pins.len() - 1 ==> {
                let old_j = if j < i {
                    j
                } else {
                    j + 1
                };
                &&& (#[trigger] spec_plan(clients, pins.remove(i)).pinned[j]).icon == spec_plan(
                    clients,
                    pins,
                ).pinned[old_j].icon
                &&& spec_plan(clients, pins.remove(i)).pinned[j].tooltip == spec_plan(
                    clients,
                    pins,
                ).pinned[old_j].tooltip
            },
{
}

/// A cut text is never longer than the limit, and a text is left as it is
/// exactly when it fits.
pub proof fn lemma_truncate_fits(text: Seq<char>, max_len: nat)
    requires
        text.len() <= max_len || max_len >= 3,
    ensures
        spec_truncate(text, max_len).len() <= max_len || spec_truncate(text, max_len) == text,
        (spec_truncate(text, max_len) == text) <==> text.len() <= max_len,
{
    if text.len() > max_len {
        assert(spec_truncate(text, max_len).len() == max_len);
    }
}

/// A window's label in a menu never exceeds the menu's label width.
pub proof fn lemma_entry_label_fits(ws: Option<HyprWorkspaceInfo>, title: Seq<char>)
    ensures
        spec_entry_label(ws, title).len() <= MENU_LABEL_MAX,
{
}

/// While the pointer is on the dock, the dock is shown, whatever the active
/// workspace holds.
pub proof fn lemma_hovered_dock_is_shown(active_windows: Option<i64>)
    ensures
        spec_dock_margin(true, active_windows) == SHOWN_MARGIN,
{
}

/// The dock is shown whenever the active workspace holds no window.
pub proof fn lemma_empty_workspace_shows_dock(is_hovered: bool, active_windows: Option<i64>)
    requires
        active_windows matches Some(w) ==> w <= 0,
    ensures
        spec_dock_margin(is_hovered, active_windows) == SHOWN_MARGIN,
{
}

/// The first snapshot always builds the dock.
pub proof fn lemma_first_snapshot_builds(snap: SnapshotView)
    ensures
        spec_observe(None, snap).0,
{
}

/// Seeing the same snapshot again does not build the dock again.
pub proof fn lemma_same_snapshot_is_quiet(last: Option<SnapshotView>, snap: SnapshotView)
    ensures
        spec_observe(spec_observe(last, snap).1, snap) == (false, Some(snap)),
{
}

/// A snapshot that differs from the last one builds the dock.
pub proof fn lemma_changed_snapshot_builds(last: SnapshotView, snap: SnapshotView)
    requires
        last != snap,
    ensures
        spec_observe(Some(last), snap).0,
{
}

/// Reading the same modification time twice reloads the stylesheet at most
/// once, and a time that cannot be read changes nothing.
pub proof fn lemma_stylesheet_reloads_once(last: Option<i128>, modified: i128)
    ensures
        spec_watch(spec_watch(last, Some(modified)).1, Some(modified)) == (false, Some(modified)),
        spec_watch(last, None) == (false, last),
{
}

/// The dock slides away (margin -55) exactly when the pointer is not on it
/// and the active workspace is known to hold one window or more; otherwise it
/// stays up (margin 0).
pub proof fn lemma_dock_hides_iff_workspace_busy(is_hovered: bool, active_windows: Option<i64>)
    ensures
        spec_dock_margin(is_hovered, active_windows) == (if !is_hovered && (active_windows matches Some(
            w,
        ) && w >= 1) {
            -55i32
        } else {
            0i32
        }),
        forall|w: i64| w >= 1 ==> #[trigger] spec_dock_margin(false, Some(w)) == -55i32,
        forall|w: i64| w <= 0 ==> #[trigger] spec_dock_margin(false, Some(w)) == 0i32,
{
}

/// A middle click on a pinned application's button always starts a new
/// instance with `sh -c <command>`, whether or not the application runs, so it
/// does not depend on the open windows at all.
pub proof fn lemma_middle_click_launches(
    clients: Seq<HyprClient>,
    other_clients: Seq<HyprClient>,
    pins: Seq<DockApp>,
    i: int,
)
    requires
        0 <= i < pins.len(),
    ensures
        spec_plan(clients, pins).pinned[i].middle_click == (ProcessView {
            program: "sh"@,
            args: seq!["-c"@, pins[i].cmd@],
        }),
        spec_plan(clients, pins).pinned[i].middle_click == spec_plan(
            other_clients,
            pins,
        ).pinned[i].middle_click,
{
}

/// A left click on a pinned application's button focuses the first open
/// window (in the compositor's order) that belongs to it; the button is then
/// marked running and its menu offers "+" to start another instance.
pub proof fn lemma_click_focuses_first_window(
    clients: Seq<HyprClient>,
    pins: Seq<DockApp>,
    i: int,
    k: int,
)
    requires
        0 <= i < pins.len(),
        0 <= k < clients.len(),
        matches_app(clients[k], pins[i]),
        forall|k2: int| 0 <= k2 < k ==> !matches_app(#[trigger] clients[k2], pins[i]),
    ensures
        spec_plan(clients, pins).pinned[i].is_running,
        spec_plan(clients, pins).pinned[i].click == (ProcessView {
            program: "hyprctl"@,
            args: seq!["dispatch"@, "focuswindow"@, "address:"@ + clients[k].address@],
        }),
        spec_plan(clients, pins).pinned[i].menu.add == Some(
            ProcessView { program: "sh"@, args: seq!["-c"@, pins[i].cmd@] },
        ),
{
    let app = pins[i];
    let pred = |c: HyprClient| matches_app(c, app);
    let ms = clients.filter(pred);
    let head = clients.take(k);
    let tail = clients.skip(k + 1);
    assert(clients =~= head + (seq![clients[k]] + tail));
    Seq::filter_distributes_over_add(head, seq![clients[k]] + tail, pred);
    tail.lemma_filter_prepend(clients[k], pred);
    if head.filter(pred).len() > 0 {
        assert(head.filter(pred).contains(head.filter(pred)[0]));
        lemma_filter_member(head, pred, head.filter(pred)[0]);
        let k2 = choose|k2: int| 0 <= k2 < head.len() && head[k2] == head.filter(pred)[0];
        assert(clients[k2] == head[k2]);
    }
    assert(ms[0] == clients[k]);
}

/// With no open window of its own, a pinned application's button is not
/// marked running, a left click starts it with `sh -c <command>`, and its
/// menu lists no windows and offers no "+".
pub proof fn lemma_click_launches_without_window(clients: Seq<HyprClient>, pins: Seq<DockApp>, i: int)
    requires
        0 <= i < pins.len(),
        forall|k: int| 0 <= k < clients.len() ==> !matches_app(#[trigger] clients[k], pins[i]),
    ensures
        !spec_plan(clients, pins).pinned[i].is_running,
        spec_plan(clients, pins).pinned[i].click == (ProcessView {
            program: "sh"@,
            args: seq!["-c"@, pins[i].cmd@],
        }),
        spec_plan(clients, pins).pinned[i].menu.windows.len() == 0,
        spec_plan(clients, pins).pinned[i].menu.add == None::<ProcessView>,
{
    lemma_running_iff_open_window(clients, pins, i);
}

/// Whether a menu row focuses and closes the window at `address`.
pub open spec fn row_targets(row: WindowEntryView, address: Seq<char>) -> bool {
    &&& row.focus.program == "hyprctl"@
    &&& row.focus.args == seq!["dispatch"@, "focuswindow"@, "address:"@ + address]
    &&& row.close.program == "hyprctl"@
    &&& row.close.args == seq!["dispatch"@, "closewindow"@, "address:"@ + address]
}

/// Each row of a pinned application's menu focuses and closes one open
/// window that belongs to the application.
#[verifier::rlimit(40)]
pub proof fn lemma_menu_rows_are_own_windows(
    clients: Seq<HyprClient>,
    pins: Seq<DockApp>,
    i: int,
    j: int,
)
    requires
        0 <= i < pins.len(),
        0 <= j < spec_plan(clients, pins).pinned[i].menu.windows.len(),
    ensures
        exists|k: int|
            0 <= k < clients.len() && matches_app(#[trigger] clients[k], pins[i]) && row_targets(
                spec_plan(clients, pins).pinned[i].menu.windows[j],
                clients[k].address@,
            ),
{
    let app = pins[i];
    let pred = |c: HyprClient| matches_app(c, app);
    let ms = clients.filter(pred);
    assert(ms.contains(ms[j]));
    lemma_filter_member(clients, pred, ms[j]);
    let k = choose|k: int| 0 <= k < clients.len() && clients[k] == ms[j];
    assert(matches_app(clients[k], pins[i]));
    assert(row_targets(spec_plan(clients, pins).pinned[i].menu.windows[j], clients[k].address@));
}

/// Every open window of a pinned application has a row in its menu.
#[verifier::rlimit(40)]
pub proof fn lemma_own_windows_have_rows(clients: Seq<HyprClient>, pins: Seq<DockApp>, i: int, k: int)
    requires
        0 <= i < pins.len(),
        0 <= k < clients.len(),
        matches_app(clients[k], pins[i]),
    ensures
        exists|j: int|
            0 <= j < spec_plan(clients, pins).pinned[i].menu.windows.len() && row_targets(
                #[trigger] spec_plan(clients, pins).pinned[i].menu.windows[j],
                clients[k].address@,
            ),
{
    let app = pins[i];
    let pred = |c: HyprClient| matches_app(c, app);
    let ms = clients.filter(pred);
    clients.lemma_filter_contains(pred, k);
    let j = choose|j: int| 0 <= j < ms.len() && ms[j] == clients[k];
    assert(row_targets(spec_plan(clients, pins).pinned[i].menu.windows[j], clients[k].address@));
}

/// A window is claimed by a pin list exactly when one of the pins matches it
/// (the match that marks that pin's button running), and no window is both
/// listed under a pinned button and given a button of its own.
pub proof fn lemma_claimed_iff_matched(clients: Seq<HyprClient>, pins: Seq<DockApp>, c: HyprClient)
    ensures
        claimed_by_any(c, pins) <==> exists|j: int| 0 <= j < pins.len() && matches_app(c, #[trigger] pins[j]),
        spec_unpinned(clients, pins).contains(c) ==> forall|j: int|
            0 <= j < pins.len() ==> !(#[trigger] spec_matching(clients, pins[j])).contains(c),
        clients.contains(c) && (forall|j: int|
            0 <= j < pins.len() ==> !(#[trigger] spec_matching(clients, pins[j])).contains(c))
            ==> spec_unpinned(clients, pins).contains(c),
{
    if spec_unpinned(clients, pins).contains(c) {
        lemma_own_button_only_if_unclaimed(clients, pins, c);
        assert forall|j: int| 0 <= j < pins.len() implies !(#[trigger] spec_matching(clients, pins[j])).contains(c) by {
            let app = pins[j];
            if spec_matching(clients, app).contains(c) {
                lemma_filter_member(clients, |x: HyprClient| matches_app(x, app), c);
            }
        }
    }
    if clients.contains(c) && (forall|j: int|
        0 <= j < pins.len() ==> !(#[trigger] spec_matching(clients, pins[j])).contains(c)) {
        let k = choose|k: int| 0 <= k < clients.len() && clients[k] == c;
        if claimed_by_any(c, pins) {
            let j = choose|j: int| 0 <= j < pins.len() && matches_app(c, #[trigger] pins[j]);
            let app = pins[j];
            clients.lemma_filter_contains(|x: HyprClient| matches_app(x, app), k);
            assert(spec_matching(clients, pins[j]).contains(c));
        }
        clients.lemma_filter_contains(|x: HyprClient| !claimed_by_any(x, pins), k);
    }
}

/// A window belongs to a pinned application exactly when, everything taken
/// in lowercase, the command occurs somewhere in the class, the class occurs
/// somewhere in the command, or the name occurs somewhere in the class.
pub proof fn lemma_match_by_occurrence(client: HyprClient, app: DockApp)
    ensures
        matches_app(client, app) <==> ({
            let c = spec_lowercase(client.class@);
            let m = spec_lowercase(app.cmd@);
            let n = spec_lowercase(app.name@);
            ||| exists|p: int| 0 <= p && p + m.len() <= c.len() && #[trigger] c.subrange(p, p + m.len()) == m
            ||| exists|p: int| 0 <= p && p + c.len() <= m.len() && #[trigger] m.subrange(p, p + c.len()) == c
            ||| exists|p: int| 0 <= p && p + n.len() <= c.len() && #[trigger] c.subrange(p, p + n.len()) == n
        }),
{
}

/// Any run of characters taken from a text occurs in it, and only a run no
/// longer than the text can occur in it.
pub proof fn lemma_contains_runs(hay: Seq<char>, needle: Seq<char>, from: int, to: int)
    ensures
        0 <= from <= to <= hay.len() ==> seq_contains(hay, hay.subrange(from, to)),
        seq_contains(hay, needle) ==> needle.len() <= hay.len(),
{
    if 0 <= from <= to <= hay.len() {
        let run = hay.subrange(from, to);
        assert(hay.subrange(from, from + run.len()) == run);
    }
}

/// A name holding "zen" anywhere, in lowercase, gets the "zen-browser" icon
/// when the theme has neither the name nor its lowercase form but has
/// "zen-browser"; a name holding no "zen" gets the generic icon then.
pub proof fn lemma_zen_anywhere(name: Seq<char>, at: int)
    ensures
        0 <= at && at + 3 <= spec_lowercase(name).len() && spec_lowercase(name).subrange(at, at + 3)
            == "zen"@ ==> spec_select_icon(name, false, false, true) == "zen-browser"@,
        !seq_contains(spec_lowercase(name), "zen"@) ==> spec_select_icon(name, false, false, true)
            == "application-x-executable"@,
        spec_select_icon(name, true, false, false) == name,
        spec_select_icon(name, false, true, true) == spec_lowercase(name),
{
    reveal_strlit("zen");
    if 0 <= at && at + 3 <= spec_lowercase(name).len() && spec_lowercase(name).subrange(at, at + 3)
        == "zen"@ {
        assert(spec_lowercase(name).subrange(at, at + "zen"@.len()) == "zen"@);
    }
}

/// A text longer than the limit is cut to exactly the limit: its first
/// `max_len - 3` characters followed by three dots; a text within the limit
/// is left as it is.
pub proof fn lemma_truncate_shape(text: Seq<char>, max_len: nat)
    requires
        max_len >= 3,
    ensures
        text.len() <= max_len ==> spec_truncate(text, max_len) == text,
        text.len() > max_len ==> {
            let r = spec_truncate(text, max_len);
            &&& r.len() == max_len
            &&& forall|p: int| 0 <= p < max_len - 3 ==> #[trigger] r[p] == text[p]
            &&& forall|p: int| max_len - 3 <= p < max_len ==> #[trigger] r[p] == '.'
        },
{
}

/// The numeric value of a run of decimal digits.
pub open spec fn digits_value(s: Seq<char>) -> int
    decreases s.len(),
{
    if s.len() == 0 {
        0
    } else {
        digits_value(s.drop_last()) * 10 + digit_value(s.last())
    }
}

/// The value of a decimal digit character (and -1 for any other).
pub open spec fn digit_value(c: char) -> int {
    if c == '0' { 0 }
    else if c == '1' { 1 }
    else if c == '2' { 2 }
    else if c == '3' { 3 }
    else if c == '4' { 4 }
    else if c == '5' { 5 }
    else if c == '6' { 6 }
    else if c == '7' { 7 }
    else if c == '8' { 8 }
    else if c == '9' { 9 }
    else { -1 }
}

proof fn lemma_digit_char_value(d: nat)
    requires
        d < 10,
    ensures
        digit_value(digit_char(d)) == d,
{
}

/// The digits written for `n` read back as `n`, are all decimal digits, and
/// start with a zero only when `n` is zero.
pub proof fn lemma_digits_read_back(n: nat)
    ensures
        digits_value(spec_digits(n)) == n,
        spec_digits(n).len() >= 1,
        forall|p: int| 0 <= p < spec_digits(n).len() ==> 0 <= #[trigger] digit_value(spec_digits(n)[p]) <= 9,
        spec_digits(n)[0] == '0' ==> n == 0,
    decreases n,
{
    if n < 10 {
        lemma_digit_char_value(n);
        let s = spec_digits(n);
        assert(s.drop_last() =~= Seq::<char>::empty());
        assert(digits_value(s.drop_last()) == 0);
    } else {
        lemma_digits_read_back(n / 10);
        lemma_digit_char_value(n % 10);
        let s = spec_digits(n);
        assert(s.drop_last() == spec_digits(n / 10));
        assert(s.last() == digit_char(n % 10));
        assert((n / 10) * 10 + n % 10 == n);
        assert(digits_value(s) == digits_value(s.drop_last()) * 10 + digit_value(s.last()));
        assert forall|p: int| 0 <= p < s.len() implies 0 <= #[trigger] digit_value(s[p]) <= 9 by {
            if p < s.len() - 1 {
                assert(s[p] == spec_digits(n / 10)[p]);
            }
        }
        assert(s[0] == spec_digits(n / 10)[0]);
    }
}

/// A workspace number is written with a minus sign exactly when it is
/// negative, followed by the digits of its magnitude.
pub proof fn lemma_decimal_sign(n: int)
    ensures
        (spec_decimal(n)[0] == '-') <==> n < 0,
        n < 0 ==> digits_value(spec_decimal(n).skip(1)) == -n,
        n >= 0 ==> digits_value(spec_decimal(n)) == n,
{
    if n < 0 {
        lemma_digits_read_back((-n) as nat);
        assert(spec_decimal(n).skip(1) =~= spec_digits((-n) as nat));
        assert(digit_value(spec_digits((-n) as nat)[0]) >= 0);
    } else {
        lemma_digits_read_back(n as nat);
        assert(digit_value(spec_digits(n as nat)[0]) >= 0);
    }
}

/// The button of a window that no pin claims shows the window's class in
/// lowercase as its icon and its title as tooltip, focuses that very window on
/// a click, and offers to pin it as an application named by its title and
/// started by its lowercase class.
pub proof fn lemma_unpinned_button(clients: Seq<HyprClient>, pins: Seq<DockApp>, j: int)
    requires
        0 <= j < spec_unpinned(clients, pins).len(),
    ensures
        ({
            let c = spec_unpinned(clients, pins)[j];
            let b = spec_plan(clients, pins).unpinned[j];
            &&& clients.contains(c)
            &&& forall|p: int| 0 <= p < pins.len() ==> !matches_app(c, #[trigger] pins[p])
            &&& b.is_running
            &&& b.icon == spec_lowercase(c.class@)
            &&& b.tooltip == c.title@
            &&& b.click == (ProcessView {
                program: "hyprctl"@,
                args: seq!["dispatch"@, "focuswindow"@, "address:"@ + c.address@],
            })
            &&& b.menu.toggle == ToggleView::Pin(
                DockAppView {
                    name: c.title@,
                    cmd: spec_lowercase(c.class@),
                    icon: spec_lowercase(c.class@),
                },
            )
            &&& b.middle_click == (ProcessView {
                program: "sh"@,
                args: seq!["-c"@, spec_lowercase(c.class@)],
            })
            &&& b.menu.add == Some(
                ProcessView { program: "sh"@, args: seq!["-c"@, spec_lowercase(c.class@)] },
            )
            &&& b.menu.header == c.class@
            &&& b.menu.windows.len() == 1
            &&& row_targets(b.menu.windows[0], c.address@)
        }),
{
    let c = spec_unpinned(clients, pins)[j];
    assert(spec_unpinned(clients, pins).contains(c));
    lemma_own_button_only_if_unclaimed(clients, pins, c);
}

/// Two snapshots are equal only when they hold the same pins (name, command
/// and icon, in order) and the same windows' addresses and classes, in order;
/// a change to any of these rebuilds the dock.
pub proof fn lemma_snapshot_tracks_pins_and_windows(
    pins1: Seq<DockApp>,
    clients1: Seq<HyprClient>,
    pins2: Seq<DockApp>,
    clients2: Seq<HyprClient>,
)
    requires
        spec_snapshot(pins1, clients1) == spec_snapshot(pins2, clients2),
    ensures
        pins1.len() == pins2.len(),
        forall|j: int| 0 <= j < pins1.len() ==> (#[trigger] pins1[j])@ == pins2[j]@,
        clients1.len() == clients2.len(),
        forall|k: int|
            0 <= k < clients1.len() ==> (#[trigger] clients1[k]).address@ == clients2[k].address@
                && clients1[k].class@ == clients2[k].class@,
{
    let a1 = spec_snapshot(pins1, clients1);
    let a2 = spec_snapshot(pins2, clients2);
    assert(a1.pins.len() == pins1.len() && a2.pins.len() == pins2.len());
    assert(a1.clients.len() == clients1.len() && a2.clients.len() == clients2.len());
    assert forall|j: int| 0 <= j < pins1.len() implies (#[trigger] pins1[j])@ == pins2[j]@ by {
        assert(a1.pins[j] == pins1[j]@);
        assert(a2.pins[j] == pins2[j]@);
        assert(a1.pins[j] == a2.pins[j]);
    }
    assert forall|k: int| 0 <= k < clients1.len() implies (#[trigger] clients1[k]).address@
        == clients2[k].address@ && clients1[k].class@ == clients2[k].class@ by {
        assert(a1.clients[k] == (clients1[k].address@, clients1[k].class@));
        assert(a2.clients[k] == (clients2[k].address@, clients2[k].class@));
        assert(a1.clients[k] == a2.clients[k]);
    }
}

} // verus!
