use thide::hover::{hover_monitor_active, HoverSignal, HoverTracker, HOVER_DELAY_MS};
use thide::start_menu::{
    is_start_menu_event, is_start_menu_process, start_menu_descendant_found,
    start_menu_hook_ranges, start_menu_window_verdict, SignalLatch, StartMenuDebouncer, WindowVerdict,
    START_MENU_HIDE_DELAY_MS,
};
use thide::geometry::Rect;
use thide::text::eq_ignore_ascii_case;

#[test]
fn hover_reveals_after_delay_only() {
    let mut h = HoverTracker::new();
    assert_eq!(h.observe(true, true, 1000), None);
    assert_eq!(h.reveal_started, Some(1000));
    assert_eq!(h.observe(true, true, 1000 + HOVER_DELAY_MS - 1), None);
    assert_eq!(h.observe(true, true, 1000 + HOVER_DELAY_MS), Some(HoverSignal::Show));
    assert_eq!(h.reveal_started, None);
    // Leaving the zone resets the wait.
    assert_eq!(h.observe(true, true, 2000), None);
    assert_eq!(h.observe(false, true, 2100), None);
    assert_eq!(h.observe(true, true, 2350), None);
    assert_eq!(h.reveal_started, Some(2350));
}

#[test]
fn hover_conceals_after_delay_only() {
    let mut h = HoverTracker::new();
    assert_eq!(h.observe(false, false, 0), None);
    assert_eq!(h.observe(false, false, 299), None);
    assert_eq!(h.observe(false, false, 300), Some(HoverSignal::Hide));
    assert_eq!(h.observe(true, false, 400), None);
    assert_eq!(h.conceal_started, None);
    h.observe(false, false, 500);
    h.reset();
    assert_eq!(h, HoverTracker::new());
    assert!(hover_monitor_active(true, false));
    assert!(!hover_monitor_active(true, true));
    assert!(!hover_monitor_active(false, false));
}

#[test]
fn start_menu_opening_is_published_at_once() {
    let mut d = StartMenuDebouncer::new();
    assert_eq!(d.observe(false, 0), None);
    assert_eq!(d.observe(true, 10), Some(true));
    assert!(d.published);
}

#[test]
fn start_menu_closing_waits() {
    let mut d = StartMenuDebouncer::new();
    d.observe(true, 0);
    assert_eq!(d.observe(false, 100), None);
    assert_eq!(d.observe(false, 100 + START_MENU_HIDE_DELAY_MS - 1), None);
    // Seeing it open again cancels the pending close.
    assert_eq!(d.observe(true, 300), None);
    assert_eq!(d.pending, None);
    assert_eq!(d.observe(false, 400), None);
    assert_eq!(d.observe(false, 400 + START_MENU_HIDE_DELAY_MS), Some(false));
    assert!(!d.published);
}

#[test]
fn start_menu_process_names() {
    assert!(is_start_menu_process("StartMenuExperienceHost.exe"));
    assert!(is_start_menu_process("shellexperiencehost.EXE"));
    assert!(is_start_menu_process("SEARCHHOST.exe"));
    assert!(!is_start_menu_process("explorer.exe"));
    assert!(!is_start_menu_process("SearchHost.ex"));
    assert!(eq_ignore_ascii_case("Ab1-é", "aB1-é"));
    assert!(!eq_ignore_ascii_case("é", "É"));
    assert!(!eq_ignore_ascii_case("abc", "abd"));
}

#[test]
fn start_menu_window_verdicts() {
    let r = Some(Rect { left: 0, top: 0, right: 10, bottom: 10 });
    let empty = Some(Rect { left: 0, top: 0, right: 0, bottom: 10 });
    assert_eq!(start_menu_window_verdict(true, r, Some("SearchHost.exe")), WindowVerdict::Found);
    assert_eq!(start_menu_window_verdict(true, r, Some("ShellExperienceHost.exe")), WindowVerdict::Found);
    assert_eq!(start_menu_window_verdict(false, r, Some("SearchHost.exe")), WindowVerdict::Skip);
    assert_eq!(start_menu_window_verdict(true, empty, Some("SearchHost.exe")), WindowVerdict::Skip);
    assert_eq!(start_menu_window_verdict(true, None, Some("SearchHost.exe")), WindowVerdict::Skip);
    assert_eq!(start_menu_window_verdict(true, r, Some("notepad.exe")), WindowVerdict::Skip);
    assert_eq!(start_menu_window_verdict(true, r, None), WindowVerdict::Skip);
    assert!(start_menu_descendant_found(true, r, Some("StartMenuExperienceHost.exe")));
    assert!(!start_menu_descendant_found(true, empty, Some("StartMenuExperienceHost.exe")));
}

#[test]
fn start_menu_events_and_hooks() {
    assert!(is_start_menu_event(0x0003));
    assert!(is_start_menu_event(0x8002));
    assert!(is_start_menu_event(0x8018));
    assert!(!is_start_menu_event(0x8001));
    assert_eq!(start_menu_hook_ranges(), vec![(0x0003, 0x0003), (0x8002, 0x8003), (0x8017, 0x8018)]);
    for (lo, hi) in start_menu_hook_ranges() {
        for e in lo..=hi {
            assert!(is_start_menu_event(e));
        }
    }
}

#[test]
fn inactive_hover_poll_restarts_the_run() {
    let mut h = HoverTracker::new();
    assert_eq!(h.poll(true, true, true, 0), None);
    assert_eq!(h.poll(true, true, true, 200), None);
    // The user asks for the taskbar: the run is forgotten.
    assert_eq!(h.poll(false, true, true, 250), None);
    assert_eq!(h, HoverTracker::new());
    assert_eq!(h.poll(true, true, true, 300), None);
    assert_eq!(h.poll(true, true, true, 599), None);
    assert_eq!(h.poll(true, true, true, 600), Some(HoverSignal::Show));
}

#[test]
fn start_menu_publications_alternate() {
    let mut d = StartMenuDebouncer::new();
    let polls = [(true, 0), (true, 50), (false, 100), (true, 150), (false, 200), (false, 250), (false, 380), (false, 400), (true, 450)];
    let published: Vec<bool> = polls.iter().filter_map(|&(v, t)| d.observe(v, t)).collect();
    assert_eq!(published, vec![true, false, true]);
}

#[test]
fn start_menu_signal_latch() {
    let mut l = SignalLatch::new();
    assert!(l.raise());
    assert!(!l.raise());
    l.clear();
    assert!(l.raise());
}

#[test]
fn start_menu_latch_after_send() {
    let mut l = SignalLatch::new();
    assert!(l.raise());
    l.after_send(false);
    assert!(!l.pending);
    assert!(l.raise());
    l.after_send(true);
    assert!(l.pending);
    l.clear();
    l.after_send(true);
    assert!(!l.pending);
}

#[test]
fn start_menu_close_published_at_first_late_poll() {
    let mut d = StartMenuDebouncer::new();
    assert_eq!(d.observe(true, 0), Some(true));
    assert_eq!(d.observe(false, 100), None);
    assert_eq!(d.observe(false, 150), None);
    assert_eq!(d.observe(false, 279), None);
    assert_eq!(d.observe(false, 280), Some(false));
}
