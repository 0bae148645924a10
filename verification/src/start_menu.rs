//! Recognising the Start menu, and settling on whether it is open.

use vstd::prelude::*;
use crate::geometry::Rect;
use crate::text::{ascii_ci_eq, eq_ignore_ascii_case};

verus! {

/// How often the Start menu is polled, in milliseconds.
pub const START_MENU_POLL_INTERVAL_MS: u64 = 50;

/// How long the Start menu must be seen closed before it counts as closed,
/// in milliseconds.
pub const START_MENU_HIDE_DELAY_MS: u64 = 180;

/// The process names that host the Start menu and the search surface.
pub open spec fn spec_is_start_menu_process(name: Seq<char>) -> bool {
    ascii_ci_eq(name, "StartMenuExperienceHost.exe"@) || ascii_ci_eq(name, "ShellExperienceHost.exe"@)
        || ascii_ci_eq(name, "SearchHost.exe"@)
}

/// Whether a process image name (ASCII case ignored) is one of
/// `StartMenuExperienceHost.exe`, `ShellExperienceHost.exe` or
/// `SearchHost.exe`.
pub fn is_start_menu_process(process_name: &str) -> (r: bool)
    ensures
        r == spec_is_start_menu_process(process_name@),
{
    eq_ignore_ascii_case(process_name, "StartMenuExperienceHost.exe")
        || eq_ignore_ascii_case(process_name, "ShellExperienceHost.exe")
        || eq_ignore_ascii_case(process_name, "SearchHost.exe")
}

/// What to do with a window met while looking for the Start menu.
#[derive(Clone, Copy, Debug, PartialEq, Eq, Structural)]
pub enum WindowVerdict {
    /// Go on with the next window.
    Skip,
    /// The Start menu is open; stop looking.
    Found,
    /// Look at this window's descendants, then stop if one of them was
    /// found.
    InspectChildren,
}

pub open spec fn spec_has_area(rect: Option<Rect>) -> bool {
    match rect {
        Some(r) => r.right > r.left && r.bottom > r.top,
        None => false,
    }
}

pub open spec fn spec_window_verdict(visible: bool, rect: Option<Rect>, name: Option<Seq<char>>) -> WindowVerdict {
    if !visible || !spec_has_area(rect) {
        WindowVerdict::Skip
    } else {
        match name {
            Some(n) => if spec_is_start_menu_process(n) {
                WindowVerdict::Found
            } else if ascii_ci_eq(n, "ShellExperienceHost.exe"@) {
                WindowVerdict::InspectChildren
            } else {
                WindowVerdict::Skip
            },
            None => WindowVerdict::Skip,
        }
    }
}

fn has_area(rect: Option<Rect>) -> (r: bool)
    ensures
        r == spec_has_area(rect),
{
    match rect {
        Some(r) => r.right > r.left && r.bottom > r.top,
        None => false,
    }
}

/// Judges a top-level window while looking for the Start menu: hidden
/// windows, windows whose rectangle is unknown or empty, and windows of
/// other processes are skipped; a window of a Start menu process means the
/// Start menu is open; a `ShellExperienceHost.exe` window that is not
/// already one has its descendants inspected.
pub fn start_menu_window_verdict(visible: bool, rect: Option<Rect>, process_name: Option<&str>) -> (r: WindowVerdict)
    ensures
        r == spec_window_verdict(visible, rect, match process_name { Some(n) => Some(n@), None => None }),
{
    if !visible || !has_area(rect) {
        return WindowVerdict::Skip;
    }
    match process_name {
        Some(name) => {
            if is_start_menu_process(name) {
                WindowVerdict::Found
            } else if eq_ignore_ascii_case(name, "ShellExperienceHost.exe") {
                WindowVerdict::InspectChildren
            } else {
                WindowVerdict::Skip
            }
        },
        None => WindowVerdict::Skip,
    }
}

/// Judges a descendant window while looking for the Start menu: it is the
/// Start menu when it is visible, has a non-empty rectangle, and belongs to
/// a Start menu process.
pub fn start_menu_descendant_found(visible: bool, rect: Option<Rect>, process_name: Option<&str>) -> (r: bool)
    ensures
        r == (visible && spec_has_area(rect) && match process_name {
            Some(n) => spec_is_start_menu_process(n@),
            None => false,
        }),
{
    if !visible || !has_area(rect) {
        return false;
    }
    match process_name {
        Some(name) => is_start_menu_process(name),
        None => false,
    }
}

/// Every `ShellExperienceHost.exe` window is already a Start menu window,
/// so descendants are never inspected.
pub proof fn lemma_children_never_inspected(visible: bool, rect: Option<Rect>, name: Option<Seq<char>>)
    ensures
        spec_window_verdict(visible, rect, name) != WindowVerdict::InspectChildren,
{
}

/// The foreground window changed.
pub const EVENT_SYSTEM_FOREGROUND: u32 = 0x0003;
/// A window was shown.
pub const EVENT_OBJECT_SHOW: u32 = 0x8002;
/// A window was hidden.
pub const EVENT_OBJECT_HIDE: u32 = 0x8003;
/// A window was cloaked.
pub const EVENT_OBJECT_CLOAKED: u32 = 0x8017;
/// A window was uncloaked.
pub const EVENT_OBJECT_UNCLOAKED: u32 = 0x8018;

pub open spec fn spec_is_start_menu_event(event: u32) -> bool {
    event == EVENT_SYSTEM_FOREGROUND || event == EVENT_OBJECT_SHOW || event == EVENT_OBJECT_HIDE
        || event == EVENT_OBJECT_CLOAKED || event == EVENT_OBJECT_UNCLOAKED
}

/// Whether a window event may mean that the Start menu opened or closed: a
/// foreground change, or a window shown, hidden, cloaked or uncloaked.
pub fn is_start_menu_event(event: u32) -> (r: bool)
    ensures
        r == spec_is_start_menu_event(event),
{
    event == EVENT_SYSTEM_FOREGROUND || event == EVENT_OBJECT_SHOW || event == EVENT_OBJECT_HIDE
        || event == EVENT_OBJECT_CLOAKED || event == EVENT_OBJECT_UNCLOAKED
}

/// The event ranges hooked to hear of Start menu changes: the foreground
/// change, show through hide, and cloak through uncloak.
pub fn start_menu_hook_ranges() -> (ranges: Vec<(u32, u32)>)
    ensures
        ranges@ == seq![
            (EVENT_SYSTEM_FOREGROUND, EVENT_SYSTEM_FOREGROUND),
            (EVENT_OBJECT_SHOW, EVENT_OBJECT_HIDE),
            (EVENT_OBJECT_CLOAKED, EVENT_OBJECT_UNCLOAKED),
        ],
{
    let mut ranges: Vec<(u32, u32)> = Vec::new();
    ranges.push((EVENT_SYSTEM_FOREGROUND, EVENT_SYSTEM_FOREGROUND));
    ranges.push((EVENT_OBJECT_SHOW, EVENT_OBJECT_HIDE));
    ranges.push((EVENT_OBJECT_CLOAKED, EVENT_OBJECT_UNCLOAKED));
    ranges
}

/// Every event the hooks deliver is one that may mean a Start menu change.
pub proof fn lemma_hooked_events_are_start_menu_events(event: u32)
    requires
        (EVENT_SYSTEM_FOREGROUND <= event <= EVENT_SYSTEM_FOREGROUND)
            || (EVENT_OBJECT_SHOW <= event <= EVENT_OBJECT_HIDE)
            || (EVENT_OBJECT_CLOAKED <= event <= EVENT_OBJECT_UNCLOAKED),
    ensures
        spec_is_start_menu_event(event),
{
}

/// Holds back further Start menu hints while one is on its way to the
/// event loop.
#[derive(Clone, Copy, Debug, PartialEq, Eq, Structural)]
pub struct SignalLatch {
    pub pending: bool,
}

pub open spec fn spec_raise(l: SignalLatch) -> (SignalLatch, bool) {
    (SignalLatch { pending: true }, !l.pending)
}

impl SignalLatch {
    pub fn new() -> (l: Self)
        ensures
            !l.pending,
    {
        SignalLatch { pending: false }
    }

    /// Marks a hint as on its way; returns whether to send it, which is
    /// when none was already on its way.
    pub fn raise(&mut self) -> (send: bool)
        ensures
            (*final(self), send) == spec_raise(*old(self)),
    {
        let send = !self.pending;
        self.pending = true;
        send
    }

    /// Records how sending a raised hint went: a hint that did not reach
    /// the event loop (no event loop yet, or the send failed) no longer
    /// holds back the next one; a delivered one stays pending until the
    /// event loop clears it (which it may already have done).
    pub fn after_send(&mut self, delivered: bool)
        ensures
            final(self).pending == (delivered && old(self).pending),
    {
        if !delivered {
            self.pending = false;
        }
    }

    /// Marks the hint as handled.
    pub fn clear(&mut self)
        ensures
            !final(self).pending,
    {
        self.pending = false;
    }
}

/// Of two hints with no clearing between them only the first is sent;
/// after a clearing the next one is sent.
pub proof fn lemma_one_hint_at_a_time(l: SignalLatch)
    ensures
        !spec_raise(spec_raise(l).0).1,
        spec_raise(SignalLatch { pending: false }).1,
{
}

/// Time passed since `start`, never negative.
pub open spec fn elapsed_ms(start: u64, now: u64) -> int {
    if now >= start { now - start } else { 0 }
}

/// A Start menu state seen that differs from the one published, and the
/// time it was first seen.
#[derive(Clone, Copy, Debug, PartialEq, Eq, Structural)]
pub struct PendingStartMenu {
    pub visible: bool,
    pub since_ms: u64,
}

/// Settles the polled Start menu state: an opening is published at once,
/// a closing only once it has been seen for `START_MENU_HIDE_DELAY_MS`.
#[derive(Clone, Copy, Debug, PartialEq, Eq, Structural)]
pub struct StartMenuDebouncer {
    /// The state last published.
    pub published: bool,
    /// A different state seen, and since when.
    pub pending: Option<PendingStartMenu>,
}

/// The state awaiting publication after observing `observed` at `now`.
pub open spec fn pending_target(d: StartMenuDebouncer, observed: bool, now: u64) -> PendingStartMenu {
    match d.pending {
        Some(p) => if p.visible == observed { p } else { PendingStartMenu { visible: observed, since_ms: now } },
        None => PendingStartMenu { visible: observed, since_ms: now },
    }
}

pub open spec fn delay_for(observed: bool) -> int {
    if observed { 0 } else { START_MENU_HIDE_DELAY_MS as int }
}

pub open spec fn spec_debounce(d: StartMenuDebouncer, observed: bool, now: u64) -> (StartMenuDebouncer, Option<bool>) {
    if observed == d.published {
        (StartMenuDebouncer { pending: None, ..d }, None)
    } else {
        let target = pending_target(d, observed, now);
        if elapsed_ms(target.since_ms, now) >= delay_for(observed) {
            (StartMenuDebouncer { published: observed, pending: None }, Some(observed))
        } else {
            (StartMenuDebouncer { pending: Some(target), ..d }, None)
        }
    }
}

impl StartMenuDebouncer {
    /// Nothing published yet (the Start menu counts as closed).
    pub fn new() -> (d: Self)
        ensures
            d == (StartMenuDebouncer { published: false, pending: None }),
    {
        StartMenuDebouncer { published: false, pending: None }
    }

    /// Takes one poll of the Start menu at time `now_ms` (milliseconds on a
    /// clock that does not go back) and returns the state to publish, if it
    /// changed.
    pub fn observe(&mut self, observed: bool, now_ms: u64) -> (r: Option<bool>)
        ensures
            (*final(self), r) == spec_debounce(*old(self), observed, now_ms),
    {
        if observed == self.published {
            self.pending = None;
            return None;
        }
        let target: PendingStartMenu = match self.pending {
            Some(p) => if p.visible == observed { p } else { PendingStartMenu { visible: observed, since_ms: now_ms } },
            None => PendingStartMenu { visible: observed, since_ms: now_ms },
        };
        let elapsed: u64 = now_ms.saturating_sub(target.since_ms);
        let delay: u64 = if observed { 0 } else { START_MENU_HIDE_DELAY_MS };
        if elapsed >= delay {
            self.published = observed;
            self.pending = None;
            Some(observed)
        } else {
            self.pending = Some(target);
            None
        }
    }
}

/// An opening of the Start menu is published on the first poll that sees
/// it; a closing is never published on the first poll that sees it.
pub proof fn lemma_open_at_once_close_after_delay(d: StartMenuDebouncer, now: u64)
    ensures
        !d.published ==> spec_debounce(d, true, now).1 == Some(true),
        d.published && !(d.pending matches Some(p) && !p.visible) ==> spec_debounce(d, false, now).1 is None,
{
}

/// A closing is published once it has been seen for the delay.
pub proof fn lemma_close_published_after_delay(d: StartMenuDebouncer, t: u64, now: u64)
    requires
        d.published,
        d.pending == Some(PendingStartMenu { visible: false, since_ms: t }),
        now >= t + START_MENU_HIDE_DELAY_MS,
    ensures
        spec_debounce(d, false, now) == (StartMenuDebouncer { published: false, pending: None }, Some(false)),
{
}

/// The debouncer after a run of polls, each a pair of whether the Start
/// menu was seen open and the time of the poll.
pub open spec fn debounce_after(d0: StartMenuDebouncer, polls: Seq<(bool, u64)>) -> StartMenuDebouncer
    decreases polls.len(),
{
    if polls.len() == 0 {
        d0
    } else {
        let p = polls.last();
        spec_debounce(debounce_after(d0, polls.drop_last()), p.0, p.1).0
    }
}

/// What the poll at index `i` of a run publishes.
pub open spec fn debounce_output(d0: StartMenuDebouncer, polls: Seq<(bool, u64)>, i: int) -> Option<bool> {
    spec_debounce(debounce_after(d0, polls.take(i)), polls[i].0, polls[i].1).1
}

proof fn lemma_debounce_after_step(d0: StartMenuDebouncer, polls: Seq<(bool, u64)>, k: int)
    requires
        0 <= k < polls.len(),
    ensures
        debounce_after(d0, polls.take(k + 1)) == spec_debounce(debounce_after(d0, polls.take(k)), polls[k].0, polls[k].1).0,
{
    assert(polls.take(k + 1).drop_last() =~= polls.take(k));
    assert(polls.take(k + 1).last() == polls[k]);
}

/// Polls that publish nothing leave the published state as it was.
proof fn lemma_published_unchanged(d0: StartMenuDebouncer, polls: Seq<(bool, u64)>, a: int, b: int)
    requires
        0 <= a <= b <= polls.len(),
        forall|k: int| a <= k < b ==> #[trigger] debounce_output(d0, polls, k) is None,
    ensures
        debounce_after(d0, polls.take(b)).published == debounce_after(d0, polls.take(a)).published,
    decreases b - a,
{
    if a < b {
        lemma_published_unchanged(d0, polls, a, b - 1);
        lemma_debounce_after_step(d0, polls, b - 1);
        assert(debounce_output(d0, polls, b - 1) is None);
    }
}

/// A poll that publishes publishes the opposite of what was published.
proof fn lemma_output_flips(d0: StartMenuDebouncer, polls: Seq<(bool, u64)>, i: int)
    requires
        0 <= i < polls.len(),
        debounce_output(d0, polls, i) is Some,
    ensures
        debounce_output(d0, polls, i) == Some(!debounce_after(d0, polls.take(i)).published),
        debounce_after(d0, polls.take(i + 1)).published == !debounce_after(d0, polls.take(i)).published,
{
    lemma_debounce_after_step(d0, polls, i);
}

/// Over any run of polls, the states published alternate: the first is the
/// opposite of the state published before the run (so "open" first, from a
/// new debouncer), and no two published in a row are equal.
pub proof fn lemma_published_values_alternate(d0: StartMenuDebouncer, polls: Seq<(bool, u64)>, i: int, j: int)
    requires
        0 <= i < j < polls.len(),
        debounce_output(d0, polls, i) is Some,
        debounce_output(d0, polls, j) is Some,
        forall|k: int| i < k < j ==> #[trigger] debounce_output(d0, polls, k) is None,
    ensures
        debounce_output(d0, polls, j) != debounce_output(d0, polls, i),
{
    lemma_output_flips(d0, polls, i);
    lemma_output_flips(d0, polls, j);
    lemma_published_unchanged(d0, polls, i + 1, j);
}

/// The first state a run publishes is the opposite of the one published
/// before it.
pub proof fn lemma_first_published_value(d0: StartMenuDebouncer, polls: Seq<(bool, u64)>, j: int)
    requires
        0 <= j < polls.len(),
        debounce_output(d0, polls, j) is Some,
        forall|k: int| 0 <= k < j ==> #[trigger] debounce_output(d0, polls, k) is None,
    ensures
        debounce_output(d0, polls, j) == Some(!d0.published),
{
    lemma_output_flips(d0, polls, j);
    lemma_published_unchanged(d0, polls, 0, j);
    assert(polls.take(0) =~= Seq::<(bool, u64)>::empty());
}

/// While a closing (or opening) is pending, every poll since the one it was
/// first seen at has seen it.
proof fn lemma_pending_witness(d0: StartMenuDebouncer, polls: Seq<(bool, u64)>, n: int)
    requires
        d0.pending is None,
        0 <= n <= polls.len(),
    ensures
        debounce_after(d0, polls.take(n)).pending matches Some(p) ==> exists|j: int|
            0 <= j < n && polls[j].1 == p.since_ms && forall|k: int| j <= k < n ==> #[trigger] polls[k].0 == p.visible,
    decreases n,
{
    if n == 0 {
        assert(polls.take(0) =~= Seq::<(bool, u64)>::empty());
    } else {
        lemma_pending_witness(d0, polls, n - 1);
        lemma_debounce_after_step(d0, polls, n - 1);
        let before = debounce_after(d0, polls.take(n - 1));
        let after = debounce_after(d0, polls.take(n));
        if after.pending is Some {
            let p = after.pending->0;
            let obs = polls[n - 1].0;
            assert(obs != before.published);
            if before.pending is Some && before.pending->0.visible == obs {
                let q = before.pending->0;
                let j = choose|j: int|
                    0 <= j < n - 1 && polls[j].1 == q.since_ms && forall|k: int| j <= k < n - 1 ==> #[trigger] polls[k].0 == q.visible;
                assert(forall|k: int| j <= k < n ==> #[trigger] polls[k].0 == p.visible);
            } else {
                assert(forall|k: int| n - 1 <= k < n ==> #[trigger] polls[k].0 == p.visible);
            }
        }
    }
}

/// Over any run of polls from a debouncer with nothing pending, a closing
/// is published only at a poll that ends an unbroken run of polls seeing
/// the Start menu closed, begun at least `START_MENU_HIDE_DELAY_MS` before;
/// an opening is published at the first poll that sees it while "closed" is
/// published.
pub proof fn lemma_close_after_unbroken_run(d0: StartMenuDebouncer, polls: Seq<(bool, u64)>, i: int)
    requires
        d0.pending is None,
        0 <= i < polls.len(),
    ensures
        debounce_output(d0, polls, i) == Some(false) ==> exists|j: int|
            0 <= j <= i && polls[i].1 >= polls[j].1 + START_MENU_HIDE_DELAY_MS
                && forall|k: int| j <= k <= i ==> !(#[trigger] polls[k].0),
        !debounce_after(d0, polls.take(i)).published && polls[i].0 ==> debounce_output(d0, polls, i) == Some(true),
{
    lemma_pending_witness(d0, polls, i);
    let before = debounce_after(d0, polls.take(i));
    if debounce_output(d0, polls, i) == Some(false) {
        let obs = polls[i].0;
        assert(!obs);
        if before.pending is Some && before.pending->0.visible == obs {
            let q = before.pending->0;
            let j = choose|j: int|
                0 <= j < i && polls[j].1 == q.since_ms && forall|k: int| j <= k < i ==> #[trigger] polls[k].0 == q.visible;
            assert(forall|k: int| j <= k <= i ==> !(#[trigger] polls[k].0));
        } else {
            assert(forall|k: int| i <= k <= i ==> !(#[trigger] polls[k].0));
        }
    }
}

/// Over a run of polls with times that never go back, starting with nothing
/// pending: once "open" is published, an unbroken run of polls seeing the
/// Start menu closed (begun at poll `j`, right after a poll seeing it open
/// or at the start) publishes the closing at the first poll of the run at
/// least `START_MENU_HIDE_DELAY_MS` after poll `j`, and not before.
pub proof fn lemma_close_published_on_time(d0: StartMenuDebouncer, polls: Seq<(bool, u64)>, j: int, i: int)
    requires
        d0.pending is None,
        forall|a: int, b: int| 0 <= a <= b < polls.len() ==> #[trigger] polls[a].1 <= #[trigger] polls[b].1,
        0 <= j <= i < polls.len(),
        j == 0 || polls[j - 1].0,
        debounce_after(d0, polls.take(j)).published,
        forall|k: int| j <= k <= i ==> !(#[trigger] polls[k].0),
        forall|k: int| j <= k < i ==> #[trigger] polls[k].1 < polls[j].1 + START_MENU_HIDE_DELAY_MS,
    ensures
        forall|k: int| j <= k < i ==> #[trigger] debounce_output(d0, polls, k) is None,
        debounce_output(d0, polls, i) == (if polls[i].1 >= polls[j].1 + START_MENU_HIDE_DELAY_MS {
            Some(false)
        } else {
            None
        }),
{
    // Nothing is pending when the run begins.
    if j == 0 {
        assert(polls.take(0) =~= Seq::<(bool, u64)>::empty());
    } else {
        lemma_debounce_after_step(d0, polls, j - 1);
    }
    assert(debounce_after(d0, polls.take(j)).pending is None);
    lemma_closing_run(d0, polls, j, i);
}

proof fn lemma_closing_run(d0: StartMenuDebouncer, polls: Seq<(bool, u64)>, j: int, k: int)
    requires
        forall|a: int, b: int| 0 <= a <= b < polls.len() ==> #[trigger] polls[a].1 <= #[trigger] polls[b].1,
        0 <= j <= k < polls.len(),
        debounce_after(d0, polls.take(j)).published,
        debounce_after(d0, polls.take(j)).pending is None,
        forall|m: int| j <= m <= k ==> !(#[trigger] polls[m].0),
        forall|m: int| j <= m < k ==> #[trigger] polls[m].1 < polls[j].1 + START_MENU_HIDE_DELAY_MS,
    ensures
        forall|m: int| j <= m < k ==> #[trigger] debounce_output(d0, polls, m) is None,
        debounce_after(d0, polls.take(k)) == (if k == j {
            debounce_after(d0, polls.take(j))
        } else {
            StartMenuDebouncer { published: true, pending: Some(PendingStartMenu { visible: false, since_ms: polls[j].1 }) }
        }),
        debounce_output(d0, polls, k) == (if polls[k].1 >= polls[j].1 + START_MENU_HIDE_DELAY_MS {
            Some(false)
        } else {
            None
        }),
    decreases k - j,
{
    assert(polls[j].1 <= polls[k].1);
    if k > j {
        lemma_closing_run(d0, polls, j, k - 1);
        lemma_debounce_after_step(d0, polls, k - 1);
        assert(polls[j].1 <= polls[k - 1].1);
        assert(debounce_output(d0, polls, k - 1) is None);
        assert forall|m: int| j <= m < k implies #[trigger] debounce_output(d0, polls, m) is None by {
            if m < k - 1 {
            }
        }
    }
}

/// The three Start menu hosts are recognised whatever the case of their
/// ASCII letters, and nothing else is.
pub proof fn lemma_start_menu_hosts(n: Seq<char>)
    ensures
        ascii_ci_eq(n, "StartMenuExperienceHost.exe"@) ==> spec_is_start_menu_process(n),
        ascii_ci_eq(n, "ShellExperienceHost.exe"@) ==> spec_is_start_menu_process(n),
        ascii_ci_eq(n, "SearchHost.exe"@) ==> spec_is_start_menu_process(n),
        spec_is_start_menu_process(n) ==> ascii_ci_eq(n, "StartMenuExperienceHost.exe"@)
            || ascii_ci_eq(n, "ShellExperienceHost.exe"@) || ascii_ci_eq(n, "SearchHost.exe"@),
{
}

/// A visible top-level window with a non-empty rectangle that belongs to
/// any of the three Start menu hosts means the Start menu is open; a window
/// judged open is visible, has area, and belongs to one of them.
pub proof fn lemma_start_menu_window_found(visible: bool, rect: Option<Rect>, name: Option<Seq<char>>)
    ensures
        visible && (rect matches Some(r) && r.right > r.left && r.bottom > r.top) && (name matches Some(n) && (
            ascii_ci_eq(n, "StartMenuExperienceHost.exe"@) || ascii_ci_eq(n, "ShellExperienceHost.exe"@)
                || ascii_ci_eq(n, "SearchHost.exe"@))) ==> spec_window_verdict(visible, rect, name) == WindowVerdict::Found,
        spec_window_verdict(visible, rect, name) == WindowVerdict::Found ==> visible
            && (rect matches Some(r) && r.right > r.left && r.bottom > r.top)
            && (name matches Some(n) && (ascii_ci_eq(n, "StartMenuExperienceHost.exe"@) || ascii_ci_eq(n, "ShellExperienceHost.exe"@)
                || ascii_ci_eq(n, "SearchHost.exe"@))),
{
}

} // verus!
