//! When a dwelling cursor reveals the taskbar, and when an absent one lets
//! it hide again.

use vstd::prelude::*;
use crate::start_menu::elapsed_ms;

verus! {

/// How often the cursor is polled, in milliseconds.
pub const HOVER_POLL_INTERVAL_MS: u64 = 50;

/// How long the cursor must stay in (or out of) the reveal zone before the
/// taskbar is shown (or hidden), in milliseconds.
pub const HOVER_DELAY_MS: u64 = 300;

/// A request the hover monitor sends to the tray.
#[derive(Clone, Copy, Debug, PartialEq, Eq, Structural)]
pub enum HoverSignal {
    Show,
    Hide,
}

/// Whether the hover monitor watches the cursor: only while auto-hide on
/// hover is on and the user has not asked for the taskbar.
pub fn hover_monitor_active(auto_hover: bool, manual_override: bool) -> (r: bool)
    ensures
        r == (auto_hover && !manual_override),
{
    auto_hover && !manual_override
}

/// Since when the cursor has been in the reveal zone of the hidden taskbar,
/// and since when it has been out of the zone of the shown taskbar.
#[derive(Clone, Copy, Debug, PartialEq, Eq, Structural)]
pub struct HoverTracker {
    pub reveal_started: Option<u64>,
    pub conceal_started: Option<u64>,
}

pub open spec fn start_or(o: Option<u64>, now: u64) -> u64 {
    match o {
        Some(t) => t,
        None => now,
    }
}

pub open spec fn spec_hover_step(h: HoverTracker, in_reveal_zone: bool, hidden: bool, now: u64) -> (HoverTracker, Option<HoverSignal>) {
    if hidden {
        if in_reveal_zone {
            let start = start_or(h.reveal_started, now);
            if elapsed_ms(start, now) >= HOVER_DELAY_MS {
                (HoverTracker { reveal_started: None, conceal_started: None }, Some(HoverSignal::Show))
            } else {
                (HoverTracker { reveal_started: Some(start), conceal_started: None }, None)
            }
        } else {
            (HoverTracker { reveal_started: None, conceal_started: None }, None)
        }
    } else if in_reveal_zone {
        (HoverTracker { reveal_started: None, conceal_started: None }, None)
    } else {
        let start = start_or(h.conceal_started, now);
        if elapsed_ms(start, now) >= HOVER_DELAY_MS {
            (HoverTracker { reveal_started: None, conceal_started: None }, Some(HoverSignal::Hide))
        } else {
            (HoverTracker { reveal_started: None, conceal_started: Some(start) }, None)
        }
    }
}

/// One poll of the hover monitor: whether it is active, whether the cursor
/// is in the reveal zone, whether the taskbar is hidden, and the time.
/// An inactive poll forgets what was tracked and signals nothing.
pub open spec fn spec_hover_poll(h: HoverTracker, p: (bool, bool, bool, u64)) -> (HoverTracker, Option<HoverSignal>) {
    if !p.0 {
        (HoverTracker { reveal_started: None, conceal_started: None }, None)
    } else {
        spec_hover_step(h, p.1, p.2, p.3)
    }
}

impl HoverTracker {
    /// Nothing tracked.
    pub fn new() -> (h: Self)
        ensures
            h == (HoverTracker { reveal_started: None, conceal_started: None }),
    {
        HoverTracker { reveal_started: None, conceal_started: None }
    }

    /// Forgets what was tracked (while the monitor is inactive).
    pub fn reset(&mut self)
        ensures
            *final(self) == (HoverTracker { reveal_started: None, conceal_started: None }),
    {
        self.reveal_started = None;
        self.conceal_started = None;
    }

    /// Takes one poll at time `now_ms` (milliseconds on a clock that does
    /// not go back): whether the cursor is in the reveal zone and whether
    /// the taskbar is hidden. Returns a signal once the cursor has dwelt in
    /// the zone of a hidden taskbar, or away from a shown one, for
    /// `HOVER_DELAY_MS`.
    pub fn observe(&mut self, in_reveal_zone: bool, hidden: bool, now_ms: u64) -> (r: Option<HoverSignal>)
        ensures
            (*final(self), r) == spec_hover_step(*old(self), in_reveal_zone, hidden, now_ms),
    {
        if hidden {
            self.conceal_started = None;
            if in_reveal_zone {
                let start: u64 = match self.reveal_started {
                    Some(t) => t,
                    None => now_ms,
                };
                if now_ms.saturating_sub(start) >= HOVER_DELAY_MS {
                    self.reveal_started = None;
                    Some(HoverSignal::Show)
                } else {
                    self.reveal_started = Some(start);
                    None
                }
            } else {
                self.reveal_started = None;
                None
            }
        } else {
            self.reveal_started = None;
            if in_reveal_zone {
                self.conceal_started = None;
                None
            } else {
                let start: u64 = match self.conceal_started {
                    Some(t) => t,
                    None => now_ms,
                };
                if now_ms.saturating_sub(start) >= HOVER_DELAY_MS {
                    self.conceal_started = None;
                    Some(HoverSignal::Hide)
                } else {
                    self.conceal_started = Some(start);
                    None
                }
            }
        }
    }
}

impl HoverTracker {
    /// Takes one poll of the hover monitor: while inactive (auto-hide on
    /// hover off, or the user asked for the taskbar) it forgets what was
    /// tracked; while active it observes the cursor as `observe` does.
    pub fn poll(&mut self, active: bool, in_reveal_zone: bool, hidden: bool, now_ms: u64) -> (r: Option<HoverSignal>)
        ensures
            (*final(self), r) == spec_hover_poll(*old(self), (active, in_reveal_zone, hidden, now_ms)),
    {
        if !active {
            self.reset();
            None
        } else {
            self.observe(in_reveal_zone, hidden, now_ms)
        }
    }
}

/// The tracker after a run of polls.
pub open spec fn hover_after(h0: HoverTracker, polls: Seq<(bool, bool, bool, u64)>) -> HoverTracker
    decreases polls.len(),
{
    if polls.len() == 0 {
        h0
    } else {
        spec_hover_poll(hover_after(h0, polls.drop_last()), polls.last()).0
    }
}

/// What the poll at index `i` of a run signals.
pub open spec fn hover_output(h0: HoverTracker, polls: Seq<(bool, bool, bool, u64)>, i: int) -> Option<HoverSignal> {
    spec_hover_poll(hover_after(h0, polls.take(i)), polls[i]).1
}

/// The poll keeps the taskbar's reveal going: active, cursor in the zone,
/// taskbar hidden.
pub open spec fn reveal_poll(p: (bool, bool, bool, u64)) -> bool {
    p.0 && p.1 && p.2
}

/// The poll keeps the taskbar's concealment going: active, cursor out of
/// the zone, taskbar shown.
pub open spec fn conceal_poll(p: (bool, bool, bool, u64)) -> bool {
    p.0 && !p.1 && !p.2
}

proof fn lemma_hover_after_step(h0: HoverTracker, polls: Seq<(bool, bool, bool, u64)>, k: int)
    requires
        0 <= k < polls.len(),
    ensures
        hover_after(h0, polls.take(k + 1)) == spec_hover_poll(hover_after(h0, polls.take(k)), polls[k]).0,
{
    assert(polls.take(k + 1).drop_last() =~= polls.take(k));
    assert(polls.take(k + 1).last() == polls[k]);
}

/// While a reveal (or concealment) is being timed, every poll since its
/// start kept it going and signalled nothing.
proof fn lemma_run_witness(h0: HoverTracker, polls: Seq<(bool, bool, bool, u64)>, n: int)
    requires
        h0 == (HoverTracker { reveal_started: None, conceal_started: None }),
        0 <= n <= polls.len(),
    ensures
        hover_after(h0, polls.take(n)).reveal_started matches Some(t) ==> exists|j: int|
            0 <= j < n && polls[j].3 == t && forall|k: int| j <= k < n ==> reveal_poll(#[trigger] polls[k])
                && hover_output(h0, polls, k) is None,
        hover_after(h0, polls.take(n)).conceal_started matches Some(t) ==> exists|j: int|
            0 <= j < n && polls[j].3 == t && forall|k: int| j <= k < n ==> conceal_poll(#[trigger] polls[k])
                && hover_output(h0, polls, k) is None,
    decreases n,
{
    if n == 0 {
        assert(polls.take(0) =~= Seq::<(bool, bool, bool, u64)>::empty());
    } else {
        lemma_run_witness(h0, polls, n - 1);
        lemma_hover_after_step(h0, polls, n - 1);
        let before = hover_after(h0, polls.take(n - 1));
        let after = hover_after(h0, polls.take(n));
        let p = polls[n - 1];
        if after.reveal_started is Some {
            assert(reveal_poll(p) && hover_output(h0, polls, n - 1) is None);
            if before.reveal_started is Some {
                let t = before.reveal_started->0;
                let j = choose|j: int|
                    0 <= j < n - 1 && polls[j].3 == t && forall|k: int| j <= k < n - 1 ==> reveal_poll(#[trigger] polls[k])
                        && hover_output(h0, polls, k) is None;
                assert(forall|k: int| j <= k < n ==> reveal_poll(#[trigger] polls[k]) && hover_output(h0, polls, k) is None);
            } else {
                assert(forall|k: int| n - 1 <= k < n ==> reveal_poll(#[trigger] polls[k]) && hover_output(h0, polls, k) is None);
            }
        }
        if after.conceal_started is Some {
            assert(conceal_poll(p) && hover_output(h0, polls, n - 1) is None);
            if before.conceal_started is Some {
                let t = before.conceal_started->0;
                let j = choose|j: int|
                    0 <= j < n - 1 && polls[j].3 == t && forall|k: int| j <= k < n - 1 ==> conceal_poll(#[trigger] polls[k])
                        && hover_output(h0, polls, k) is None;
                assert(forall|k: int| j <= k < n ==> conceal_poll(#[trigger] polls[k]) && hover_output(h0, polls, k) is None);
            } else {
                assert(forall|k: int| n - 1 <= k < n ==> conceal_poll(#[trigger] polls[k]) && hover_output(h0, polls, k) is None);
            }
        }
    }
}

/// Over any run of polls from a fresh tracker, the taskbar is revealed at a
/// poll only when that poll ends an unbroken run of active polls with the
/// cursor in the zone of the hidden taskbar, begun at least
/// `HOVER_DELAY_MS` before and signalling nothing until then; likewise for
/// hiding with the cursor away from the shown taskbar. An inactive poll
/// (the user's request, or auto-hide on hover off) breaks every run, so a
/// signal after it needs a fresh run of the full delay.
pub proof fn lemma_signal_after_unbroken_run(h0: HoverTracker, polls: Seq<(bool, bool, bool, u64)>, i: int)
    requires
        h0 == (HoverTracker { reveal_started: None, conceal_started: None }),
        0 <= i < polls.len(),
    ensures
        hover_output(h0, polls, i) == Some(HoverSignal::Show) ==> exists|j: int|
            0 <= j <= i && polls[i].3 >= polls[j].3 + HOVER_DELAY_MS
                && (forall|k: int| j <= k <= i ==> reveal_poll(#[trigger] polls[k]))
                && (forall|k: int| j <= k < i ==> #[trigger] hover_output(h0, polls, k) is None),
        hover_output(h0, polls, i) == Some(HoverSignal::Hide) ==> exists|j: int|
            0 <= j <= i && polls[i].3 >= polls[j].3 + HOVER_DELAY_MS
                && (forall|k: int| j <= k <= i ==> conceal_poll(#[trigger] polls[k]))
                && (forall|k: int| j <= k < i ==> #[trigger] hover_output(h0, polls, k) is None),
        !polls[i].0 ==> hover_output(h0, polls, i) is None,
{
    lemma_run_witness(h0, polls, i);
    let before = hover_after(h0, polls.take(i));
    if hover_output(h0, polls, i) == Some(HoverSignal::Show) {
        let t = before.reveal_started->0;
        let j = choose|j: int|
            0 <= j < i && polls[j].3 == t && forall|k: int| j <= k < i ==> reveal_poll(#[trigger] polls[k])
                && hover_output(h0, polls, k) is None;
        assert(forall|k: int| j <= k <= i ==> reveal_poll(#[trigger] polls[k]));
        assert(forall|k: int| j <= k < i ==> #[trigger] hover_output(h0, polls, k) is None);
    }
    if hover_output(h0, polls, i) == Some(HoverSignal::Hide) {
        let t = before.conceal_started->0;
        let j = choose|j: int|
            0 <= j < i && polls[j].3 == t && forall|k: int| j <= k < i ==> conceal_poll(#[trigger] polls[k])
                && hover_output(h0, polls, k) is None;
        assert(forall|k: int| j <= k <= i ==> conceal_poll(#[trigger] polls[k]));
        assert(forall|k: int| j <= k < i ==> #[trigger] hover_output(h0, polls, k) is None);
    }
}

/// The taskbar is revealed only after the cursor has dwelt in the reveal
/// zone of the hidden taskbar for the whole delay: never on the poll that
/// first sees it there. Likewise for hiding.
pub proof fn lemma_signal_only_after_delay(h: HoverTracker, in_zone: bool, hidden: bool, now: u64)
    ensures
        spec_hover_step(h, in_zone, hidden, now).1 == Some(HoverSignal::Show) ==> hidden && in_zone
            && (h.reveal_started matches Some(t) && now >= t + HOVER_DELAY_MS),
        spec_hover_step(h, in_zone, hidden, now).1 == Some(HoverSignal::Hide) ==> !hidden && !in_zone
            && (h.conceal_started matches Some(t) && now >= t + HOVER_DELAY_MS),
{
}

/// Once the cursor has entered the zone of the hidden taskbar, staying
/// there reveals it as soon as the delay has passed.
pub proof fn lemma_dwell_reveals(h: HoverTracker, t: u64, now: u64)
    requires
        h.reveal_started == Some(t),
        now >= t + HOVER_DELAY_MS,
    ensures
        spec_hover_step(h, true, true, now).1 == Some(HoverSignal::Show),
{
}

/// The timing of one poll, both ways: while the cursor stays in the zone
/// of the hidden taskbar, a reveal timed since `t` is signalled exactly
/// when `HOVER_DELAY_MS` have passed; while it stays away from the shown
/// taskbar, a concealment timed since `t` is signalled exactly when the
/// delay has passed; and a poll that starts timing starts it now and
/// signals nothing.
pub proof fn lemma_hover_timing(h: HoverTracker, t: u64, now: u64)
    ensures
        h.reveal_started == Some(t) ==> (spec_hover_step(h, true, true, now).1 == Some(HoverSignal::Show)
            <==> now >= t + HOVER_DELAY_MS),
        h.reveal_started == Some(t) && now < t + HOVER_DELAY_MS ==> spec_hover_step(h, true, true, now).0.reveal_started
            == Some(t),
        h.conceal_started == Some(t) ==> (spec_hover_step(h, false, false, now).1 == Some(HoverSignal::Hide)
            <==> now >= t + HOVER_DELAY_MS),
        h.conceal_started == Some(t) && now < t + HOVER_DELAY_MS ==> spec_hover_step(h, false, false, now).0.conceal_started
            == Some(t),
        h.reveal_started is None ==> spec_hover_step(h, true, true, now).1 is None
            && spec_hover_step(h, true, true, now).0.reveal_started == Some(now),
        h.conceal_started is None ==> spec_hover_step(h, false, false, now).1 is None
            && spec_hover_step(h, false, false, now).0.conceal_started == Some(now),
{
}

/// Concealment is live: once the cursor has left the shown taskbar,
/// staying away hides it as soon as the delay has passed.
pub proof fn lemma_absence_conceals(h: HoverTracker, t: u64, now: u64)
    requires
        h.conceal_started == Some(t),
        now >= t + HOVER_DELAY_MS,
    ensures
        spec_hover_step(h, false, false, now).1 == Some(HoverSignal::Hide),
        spec_hover_step(h, false, false, now).0 == (HoverTracker { reveal_started: None, conceal_started: None }),
{
}

/// A cursor in the zone never hides a shown taskbar, and a cursor away
/// from the zone never reveals a hidden one.
pub proof fn lemma_signal_matches_cursor(h: HoverTracker, in_zone: bool, hidden: bool, now: u64)
    ensures
        spec_hover_step(h, in_zone, hidden, now).1 == Some(HoverSignal::Hide) ==> !in_zone && !hidden,
        spec_hover_step(h, in_zone, hidden, now).1 == Some(HoverSignal::Show) ==> in_zone && hidden,
        !hidden && in_zone ==> spec_hover_step(h, in_zone, hidden, now).1 is None,
        hidden && !in_zone ==> spec_hover_step(h, in_zone, hidden, now).1 is None,
{
}

} // verus!
