use thide::tray::{
    classify_window_message, IpcMessageIds, Tooltip, TrayAction, TrayEvent, TrayState, HOTKEY_ID,
    WM_HOTKEY,
};
use thide::visibility::{
    taskbar_walk_step, TaskbarWalkStep,
    reconcile_taskbar, taskbar_hide, taskbar_show, taskbar_toggle, TaskbarCommand,
    TaskbarStateManager, VisibilityState, ABS_AUTOHIDE,
};

fn shown_actions(original: u32) -> Vec<TrayAction> {
    vec![
        TrayAction::Taskbar(TaskbarCommand::WriteAppbarState(original)),
        TrayAction::Taskbar(TaskbarCommand::SetTaskbarsVisible(true)),
    ]
}

fn hidden_actions(original: u32) -> Vec<TrayAction> {
    vec![
        TrayAction::Taskbar(TaskbarCommand::WriteAppbarState(original | ABS_AUTOHIDE)),
        TrayAction::Taskbar(TaskbarCommand::SetTaskbarsVisible(false)),
    ]
}

fn consistent(v: &VisibilityState) -> bool {
    v.should_hide == !v.wants_visible()
}

#[test]
fn manager_forces_autohide_and_restores_original() {
    let m = TaskbarStateManager::new(2);
    assert_eq!(m.original_state(), 2);
    assert_eq!(m.enforce(), TaskbarCommand::WriteAppbarState(3));
    assert_eq!(m.restore(), TaskbarCommand::WriteAppbarState(2));
    assert_eq!(m.startup_command(), Some(TaskbarCommand::WriteAppbarState(3)));
    let already = TaskbarStateManager::new(3);
    assert_eq!(already.startup_command(), None);
    assert_eq!(already.enforce(), TaskbarCommand::WriteAppbarState(3));
}

#[test]
fn show_and_hide_commands() {
    let m = TaskbarStateManager::new(0);
    let mut hidden = true;
    assert_eq!(
        taskbar_show(&mut hidden, &m),
        vec![TaskbarCommand::WriteAppbarState(0), TaskbarCommand::SetTaskbarsVisible(true)]
    );
    assert!(!hidden);
    assert_eq!(
        taskbar_hide(&mut hidden, &m),
        vec![TaskbarCommand::WriteAppbarState(1), TaskbarCommand::SetTaskbarsVisible(false)]
    );
    assert!(hidden);
}

#[test]
fn reconcile_is_idempotent() {
    let m = TaskbarStateManager::new(0);
    let mut v = VisibilityState {
        should_hide: true,
        manual_override: false,
        hover_visible: true,
        start_menu_visible: false,
    };
    assert_eq!(reconcile_taskbar(&mut v, &m).len(), 2);
    assert!(!v.should_hide);
    assert!(consistent(&v));
    assert!(reconcile_taskbar(&mut v, &m).is_empty());
}

#[test]
fn toggle_flips_the_taskbar() {
    let m = TaskbarStateManager::new(0);
    let mut v = VisibilityState {
        should_hide: true,
        manual_override: false,
        hover_visible: false,
        start_menu_visible: false,
    };
    taskbar_toggle(&mut v, &m);
    assert!(!v.should_hide && v.manual_override);
    taskbar_toggle(&mut v, &m);
    assert!(v.should_hide && !v.manual_override && !v.hover_visible);
    // With the Start menu open the taskbar stays shown.
    v.start_menu_visible = true;
    reconcile_taskbar(&mut v, &m);
    assert!(taskbar_toggle(&mut v, &m).is_empty());
    assert!(!v.should_hide);
}

#[test]
fn tray_show_hide_toggle_scenario() {
    let mut s = TrayState::new(0, false);
    assert_eq!(s.handle(TrayEvent::Show), shown_actions(0));
    assert!(!s.visibility.should_hide && s.visibility.manual_override);
    assert_eq!(s.handle(TrayEvent::Show), vec![]);
    assert_eq!(s.handle(TrayEvent::Hide), hidden_actions(0));
    assert!(s.visibility.should_hide);
    assert_eq!(s.handle(TrayEvent::Toggle), shown_actions(0));
    assert_eq!(s.handle(TrayEvent::Toggle), hidden_actions(0));
    assert!(consistent(&s.visibility));
}

#[test]
fn hover_obeyed_only_in_automatic_mode() {
    let mut s = TrayState::new(0, false);
    assert_eq!(s.handle(TrayEvent::HoverShow), shown_actions(0));
    assert!(s.visibility.hover_visible);
    assert_eq!(s.handle(TrayEvent::HoverHide), hidden_actions(0));
    s.handle(TrayEvent::Show);
    assert_eq!(s.handle(TrayEvent::HoverHide), vec![]);
    assert!(!s.visibility.should_hide);
    assert_eq!(s.handle(TrayEvent::HoverShow), vec![]);
    assert!(!s.visibility.hover_visible);
}

#[test]
fn start_menu_keeps_taskbar_shown() {
    let mut s = TrayState::new(0, false);
    assert_eq!(s.handle(TrayEvent::StartMenuSignal { visible: false }), vec![]);
    assert_eq!(s.handle(TrayEvent::StartMenuSignal { visible: true }), shown_actions(0));
    assert!(s.visibility.start_menu_visible);
    assert_eq!(s.handle(TrayEvent::Hide), vec![]);
    assert!(!s.visibility.should_hide);
    assert_eq!(s.handle(TrayEvent::StartMenuChanged { visible: false }), hidden_actions(0));
    assert!(s.visibility.should_hide);
}

#[test]
fn quit_restores_and_exits() {
    let mut s = TrayState::new(2, false);
    let mut expected = shown_actions(2);
    expected.push(TrayAction::Exit);
    assert_eq!(s.handle(TrayEvent::Quit), expected);
    assert!(!s.visibility.should_hide);
}

#[test]
fn auto_hover_menu_toggles() {
    let mut s = TrayState::new(0, false);
    let mut off = vec![TrayAction::SetHoverChecked(false)];
    off.extend(shown_actions(0));
    assert_eq!(s.handle(TrayEvent::ToggleAutoHover), off);
    assert!(!s.auto_hover && s.visibility.manual_override);
    let mut on = vec![TrayAction::SetHoverChecked(true)];
    on.extend(hidden_actions(0));
    assert_eq!(s.handle(TrayEvent::ToggleAutoHover), on);
    assert!(s.auto_hover && !s.visibility.manual_override);
}

#[test]
fn watermark_results_update_tooltip() {
    let mut s = TrayState::new(0, false);
    assert_eq!(
        s.handle(TrayEvent::PatchWatermark { manual: true }),
        vec![TrayAction::RequestPatch { manual: true }]
    );
    assert_eq!(
        s.handle(TrayEvent::WatermarkResult { manual: false, result: Ok(()) }),
        vec![TrayAction::SetTooltip(Tooltip::Patched)]
    );
    assert_eq!(
        s.handle(TrayEvent::WatermarkResult { manual: true, result: Ok(()) }),
        vec![TrayAction::SetTooltip(Tooltip::Patched), TrayAction::LogManualPatchCompleted]
    );
    assert_eq!(
        s.handle(TrayEvent::WatermarkResult { manual: false, result: Err("boom".to_string()) }),
        vec![TrayAction::SetTooltip(Tooltip::PatchFailed)]
    );
    assert_eq!(
        s.handle(TrayEvent::WatermarkResult { manual: true, result: Err("boom".to_string()) }),
        vec![
            TrayAction::SetTooltip(Tooltip::PatchFailed),
            TrayAction::ShowWatermarkError("boom".to_string())
        ]
    );
    assert!(s.visibility.should_hide);
}

#[test]
fn window_messages_are_classified() {
    let ids = IpcMessageIds { show: 0x8001, hide: 0x8002, toggle: 0x8003, quit: 0x8004, patch: 0x8005 };
    assert_eq!(classify_window_message(0x8001, 0, ids), Some(TrayEvent::Show));
    assert_eq!(classify_window_message(0x8002, 0, ids), Some(TrayEvent::Hide));
    assert_eq!(classify_window_message(0x8003, 0, ids), Some(TrayEvent::Toggle));
    assert_eq!(classify_window_message(0x8004, 0, ids), Some(TrayEvent::Quit));
    assert_eq!(
        classify_window_message(0x8005, 0, ids),
        Some(TrayEvent::PatchWatermark { manual: true })
    );
    assert_eq!(classify_window_message(WM_HOTKEY, HOTKEY_ID as usize, ids), Some(TrayEvent::Toggle));
    assert_eq!(classify_window_message(WM_HOTKEY, 1, ids), None);
    assert_eq!(classify_window_message(0x0010, 0, ids), None);
}

#[test]
fn taskbar_walk_keeps_explorer_windows() {
    assert_eq!(taskbar_walk_step(true, Some("EXPLORER.EXE")), TaskbarWalkStep { keep: true, stop: true });
    assert_eq!(taskbar_walk_step(false, Some("explorer.exe")), TaskbarWalkStep { keep: true, stop: false });
    assert_eq!(taskbar_walk_step(true, Some("yasb.exe")), TaskbarWalkStep { keep: false, stop: false });
    assert_eq!(taskbar_walk_step(true, None), TaskbarWalkStep { keep: false, stop: false });
}
