//! The tray application's decisions: from its state and an event (a menu
//! click, a message from the command line, a hover or Start menu signal, the
//! outcome of a watermark patch) to its next state and the actions the
//! caller performs.

use vstd::prelude::*;
use crate::visibility::{
    TaskbarCommand, TaskbarStateManager, VisibilityState, reconcile_taskbar, reconciled,
    reconcile_commands, taskbar_show, taskbar_toggle, toggled, show_commands,
};

verus! {

/// Something that happened that the tray reacts to.
#[derive(Debug, PartialEq, Eq)]
pub enum TrayEvent {
    /// "Show Taskbar" from the menu or the command line.
    Show,
    /// "Hide Taskbar" from the menu or the command line.
    Hide,
    /// "Toggle Taskbar", the command line, or Ctrl+Alt+T.
    Toggle,
    /// "Quit" from the menu or the command line.
    Quit,
    /// The cursor dwelt in the reveal zone of a hidden taskbar.
    HoverShow,
    /// The cursor stayed away from a shown taskbar.
    HoverHide,
    /// A window event hinted at a Start menu change; `visible` is whether
    /// the Start menu was found open when the hint was handled.
    StartMenuSignal { visible: bool },
    /// The Start menu poller settled on a new state.
    StartMenuChanged { visible: bool },
    /// A watermark patch was asked for (`manual` when the user asked).
    PatchWatermark { manual: bool },
    /// A watermark patch finished.
    WatermarkResult { manual: bool, result: Result<(), String> },
    /// "Auto-hide on hover" was clicked in the menu.
    ToggleAutoHover,
}

/// The tray icon's tooltip.
#[derive(Clone, Copy, Debug, PartialEq, Eq, Structural)]
pub enum Tooltip {
    Patched,
    PatchFailed,
}

/// Something the caller does on the tray's behalf.
#[derive(Debug, PartialEq, Eq)]
pub enum TrayAction {
    Taskbar(TaskbarCommand),
    /// Start a watermark patch unless one is already running.
    RequestPatch { manual: bool },
    SetTooltip(Tooltip),
    /// Log that a patch the user asked for completed.
    LogManualPatchCompleted,
    /// Tell the user that the patch they asked for failed.
    ShowWatermarkError(String),
    /// Check or uncheck "Auto-hide on hover" in the menu.
    SetHoverChecked(bool),
    /// Leave the event loop.
    Exit,
}

/// The tray's state.
pub struct TrayState {
    pub visibility: VisibilityState,
    /// "Auto-hide on hover" is on.
    pub auto_hover: bool,
    pub manager: TaskbarStateManager,
}

/// The tray's state as the contracts see it.
pub struct TrayView {
    pub visibility: VisibilityState,
    pub auto_hover: bool,
    pub original: u32,
}

impl View for TrayState {
    type V = TrayView;

    open spec fn view(&self) -> TrayView {
        TrayView {
            visibility: self.visibility,
            auto_hover: self.auto_hover,
            original: self.manager.original(),
        }
    }
}

pub open spec fn lift(cmds: Seq<TaskbarCommand>) -> Seq<TrayAction> {
    cmds.map_values(|c: TaskbarCommand| TrayAction::Taskbar(c))
}

/// Sets the reasons to show, then reconciles.
pub open spec fn set_and_reconcile(s: TrayView, v: VisibilityState) -> (TrayView, Seq<TrayAction>) {
    (TrayView { visibility: reconciled(v), ..s }, lift(reconcile_commands(v, s.original)))
}

/// Hover signals are obeyed only while auto-hide on hover is on and the
/// user has not asked for the taskbar.
pub open spec fn hover_obeyed(s: TrayView) -> bool {
    s.auto_hover && !s.visibility.manual_override
}

/// The next state and actions of the tray on an event.
pub open spec fn spec_step(s: TrayView, e: TrayEvent) -> (TrayView, Seq<TrayAction>) {
    let v = s.visibility;
    match e {
        TrayEvent::Show => set_and_reconcile(
            s,
            VisibilityState { manual_override: true, hover_visible: false, ..v },
        ),
        TrayEvent::Hide => set_and_reconcile(
            s,
            VisibilityState { manual_override: false, hover_visible: false, ..v },
        ),
        TrayEvent::Toggle => set_and_reconcile(s, toggled(v)),
        TrayEvent::Quit => (
            TrayView { visibility: VisibilityState { should_hide: false, ..v }, ..s },
            lift(show_commands(s.original)).push(TrayAction::Exit),
        ),
        TrayEvent::HoverShow => if hover_obeyed(s) {
            set_and_reconcile(s, VisibilityState { hover_visible: true, ..v })
        } else {
            (s, seq![])
        },
        TrayEvent::HoverHide => if hover_obeyed(s) {
            set_and_reconcile(s, VisibilityState { hover_visible: false, ..v })
        } else {
            (s, seq![])
        },
        TrayEvent::StartMenuSignal { visible } => if visible {
            set_and_reconcile(s, VisibilityState { start_menu_visible: true, ..v })
        } else {
            (s, seq![])
        },
        TrayEvent::StartMenuChanged { visible } => set_and_reconcile(
            s,
            VisibilityState { start_menu_visible: visible, ..v },
        ),
        TrayEvent::PatchWatermark { manual } => (s, seq![TrayAction::RequestPatch { manual }]),
        TrayEvent::WatermarkResult { manual, result } => match result {
            Ok(()) => (
                s,
                if manual {
                    seq![TrayAction::SetTooltip(Tooltip::Patched), TrayAction::LogManualPatchCompleted]
                } else {
                    seq![TrayAction::SetTooltip(Tooltip::Patched)]
                },
            ),
            Err(error) => (
                s,
                if manual {
                    seq![TrayAction::SetTooltip(Tooltip::PatchFailed), TrayAction::ShowWatermarkError(error)]
                } else {
                    seq![TrayAction::SetTooltip(Tooltip::PatchFailed)]
                },
            ),
        },
        TrayEvent::ToggleAutoHover => {
            let enabled = !s.auto_hover;
            let (t, acts) = set_and_reconcile(
                TrayView { auto_hover: enabled, ..s },
                VisibilityState { manual_override: !enabled, hover_visible: false, ..v },
            );
            (t, seq![TrayAction::SetHoverChecked(enabled)] + acts)
        },
    }
}

fn push_commands(actions: &mut Vec<TrayAction>, cmds: Vec<TaskbarCommand>)
    ensures
        final(actions)@ == old(actions)@ + lift(cmds@),
{
    let n = cmds.len();
    let mut i: usize = 0;
    let ghost start = actions@;
    while i < n
        invariant
            n == cmds@.len(),
            i <= n,
            actions@ == start + lift(cmds@.subrange(0, i as int)),
        decreases n - i,
    {
        actions.push(TrayAction::Taskbar(cmds[i]));
        assert(lift(cmds@.subrange(0, i + 1)) == lift(cmds@.subrange(0, i as int)).push(
            TrayAction::Taskbar(cmds@[i as int]),
        ));
        i = i + 1;
    }
    assert(cmds@.subrange(0, n as int) == cmds@);
}

impl TrayState {
    /// The state at startup: the taskbar hidden, no request from the user
    /// or the hover, the Start menu as found, and auto-hide on hover on.
    pub fn new(original_appbar_state: u32, start_menu_visible: bool) -> (s: Self)
        ensures
            s@.visibility == (VisibilityState {
                should_hide: true,
                manual_override: false,
                hover_visible: false,
                start_menu_visible,
            }),
            s@.auto_hover,
            s@.original == original_appbar_state,
    {
        TrayState {
            visibility: VisibilityState {
                should_hide: true,
                manual_override: false,
                hover_visible: false,
                start_menu_visible,
            },
            auto_hover: true,
            manager: TaskbarStateManager::new(original_appbar_state),
        }
    }

    /// Handles one event: updates the state and returns the actions to
    /// perform, in order.
    pub fn handle(&mut self, event: TrayEvent) -> (actions: Vec<TrayAction>)
        ensures
            (final(self)@, actions@) == spec_step(old(self)@, event),
    {
        let mut actions: Vec<TrayAction> = Vec::new();
        match event {
            TrayEvent::Show => {
                self.visibility.manual_override = true;
                self.visibility.hover_visible = false;
                let cmds = reconcile_taskbar(&mut self.visibility, &self.manager);
                push_commands(&mut actions, cmds);
            },
            TrayEvent::Hide => {
                self.visibility.manual_override = false;
                self.visibility.hover_visible = false;
                let cmds = reconcile_taskbar(&mut self.visibility, &self.manager);
                push_commands(&mut actions, cmds);
            },
            TrayEvent::Toggle => {
                let cmds = taskbar_toggle(&mut self.visibility, &self.manager);
                push_commands(&mut actions, cmds);
            },
            TrayEvent::Quit => {
                let cmds = taskbar_show(&mut self.visibility.should_hide, &self.manager);
                push_commands(&mut actions, cmds);
                actions.push(TrayAction::Exit);
            },
            TrayEvent::HoverShow => {
                if self.auto_hover && !self.visibility.manual_override {
                    self.visibility.hover_visible = true;
                    let cmds = reconcile_taskbar(&mut self.visibility, &self.manager);
                    push_commands(&mut actions, cmds);
                }
            },
            TrayEvent::HoverHide => {
                if self.auto_hover && !self.visibility.manual_override {
                    self.visibility.hover_visible = false;
                    let cmds = reconcile_taskbar(&mut self.visibility, &self.manager);
                    push_commands(&mut actions, cmds);
                }
            },
            TrayEvent::StartMenuSignal { visible } => {
                if visible {
                    self.visibility.start_menu_visible = true;
                    let cmds = reconcile_taskbar(&mut self.visibility, &self.manager);
                    push_commands(&mut actions, cmds);
                }
            },
            TrayEvent::StartMenuChanged { visible } => {
                self.visibility.start_menu_visible = visible;
                let cmds = reconcile_taskbar(&mut self.visibility, &self.manager);
                push_commands(&mut actions, cmds);
            },
            TrayEvent::PatchWatermark { manual } => {
                actions.push(TrayAction::RequestPatch { manual });
            },
            TrayEvent::WatermarkResult { manual, result } => {
                match result {
                    Ok(()) => {
                        actions.push(TrayAction::SetTooltip(Tooltip::Patched));
                        if manual {
                            actions.push(TrayAction::LogManualPatchCompleted);
                        }
                    },
                    Err(error) => {
                        actions.push(TrayAction::SetTooltip(Tooltip::PatchFailed));
                        if manual {
                            actions.push(TrayAction::ShowWatermarkError(error));
                        }
                    },
                }
            },
            TrayEvent::ToggleAutoHover => {
                let enabled = !self.auto_hover;
                self.auto_hover = enabled;
                actions.push(TrayAction::SetHoverChecked(enabled));
                if enabled {
                    self.visibility.manual_override = false;
                    self.visibility.hover_visible = false;
                } else {
                    self.visibility.manual_override = true;
                    self.visibility.hover_visible = false;
                }
                let cmds = reconcile_taskbar(&mut self.visibility, &self.manager);
                push_commands(&mut actions, cmds);
            },
        }
        actions
    }
}

/// Every event but Quit keeps the taskbar hidden exactly when nothing wants
/// it shown, and the appbar state found at startup is never forgotten.
pub proof fn lemma_step_keeps_consistency(s: TrayView, e: TrayEvent)
    requires
        s.visibility.consistent(),
        !(e is Quit),
    ensures
        spec_step(s, e).0.visibility.consistent(),
        spec_step(s, e).0.original == s.original,
{
}

/// The events that reconcile leave the taskbar consistent whatever the
/// state before.
pub proof fn lemma_reconciling_events_establish_consistency(s: TrayView, e: TrayEvent)
    requires
        e is Show || e is Hide || e is Toggle || e is StartMenuChanged || e is ToggleAutoHover
            || (e matches TrayEvent::StartMenuSignal { visible } && visible)
            || ((e is HoverShow || e is HoverHide) && hover_obeyed(s)),
    ensures
        spec_step(s, e).0.visibility.consistent(),
{
}

/// "Show Taskbar" shows the taskbar; "Hide Taskbar" hides it unless the
/// Start menu is open.
pub proof fn lemma_show_and_hide(s: TrayView)
    ensures
        !spec_step(s, TrayEvent::Show).0.visibility.should_hide,
        spec_step(s, TrayEvent::Show).0.visibility.manual_override,
        spec_step(s, TrayEvent::Hide).0.visibility.should_hide == !s.visibility.start_menu_visible,
{
}

/// While the user has asked for the taskbar, or auto-hide on hover is off,
/// hover signals change nothing and do nothing.
pub proof fn lemma_manual_mode_ignores_hover(s: TrayView)
    requires
        !s.auto_hover || s.visibility.manual_override,
    ensures
        spec_step(s, TrayEvent::HoverShow) == (s, Seq::<TrayAction>::empty()),
        spec_step(s, TrayEvent::HoverHide) == (s, Seq::<TrayAction>::empty()),
{
}

/// While the Start menu is open the taskbar is shown; once it closes the
/// taskbar hides again unless the user or the hover wants it.
pub proof fn lemma_start_menu_keeps_taskbar(s: TrayView)
    ensures
        !spec_step(s, TrayEvent::StartMenuChanged { visible: true }).0.visibility.should_hide,
        !spec_step(s, TrayEvent::StartMenuSignal { visible: true }).0.visibility.should_hide,
        spec_step(s, TrayEvent::StartMenuChanged { visible: false }).0.visibility.should_hide
            == !(s.visibility.manual_override || s.visibility.hover_visible),
{
}

/// Quitting shows the taskbar, puts back the appbar state found at startup,
/// and leaves the event loop, in that order.
pub proof fn lemma_quit_restores(s: TrayView)
    ensures
        spec_step(s, TrayEvent::Quit).1 == seq![
            TrayAction::Taskbar(TaskbarCommand::WriteAppbarState(s.original)),
            TrayAction::Taskbar(TaskbarCommand::SetTaskbarsVisible(true)),
            TrayAction::Exit,
        ],
        !spec_step(s, TrayEvent::Quit).0.visibility.should_hide,
{
    assert(lift(show_commands(s.original)) =~= seq![
        TrayAction::Taskbar(TaskbarCommand::WriteAppbarState(s.original)),
        TrayAction::Taskbar(TaskbarCommand::SetTaskbarsVisible(true)),
    ]);
}

/// Clicking "Auto-hide on hover" twice puts it back as it was, and turning
/// it off shows the taskbar.
pub proof fn lemma_auto_hover_toggle(s: TrayView)
    ensures
        spec_step(spec_step(s, TrayEvent::ToggleAutoHover).0, TrayEvent::ToggleAutoHover).0.auto_hover == s.auto_hover,
        s.auto_hover ==> !spec_step(s, TrayEvent::ToggleAutoHover).0.visibility.should_hide,
{
}

/// Patch requests and results leave the state as it was.
pub proof fn lemma_patch_events_keep_state(s: TrayView, manual: bool, result: Result<(), String>)
    ensures
        spec_step(s, TrayEvent::PatchWatermark { manual }).0 == s,
        spec_step(s, TrayEvent::WatermarkResult { manual, result }).0 == s,
        spec_step(s, TrayEvent::PatchWatermark { manual }).1 == seq![TrayAction::RequestPatch { manual }],
{
}

/// The `WM_HOTKEY` window message.
pub const WM_HOTKEY: u32 = 0x0312;

/// The identifier under which Ctrl+Alt+T is registered.
pub const HOTKEY_ID: i32 = 0x5448;

/// The virtual key code of T.
pub const HOTKEY_VK_T: u32 = 0x54;

/// The window messages the command line sends to the running tray.
#[derive(Clone, Copy, Debug, PartialEq, Eq, Structural)]
pub struct IpcMessageIds {
    pub show: u32,
    pub hide: u32,
    pub toggle: u32,
    pub quit: u32,
    pub patch: u32,
}

pub open spec fn spec_classify(msg: u32, wparam: usize, ids: IpcMessageIds) -> Option<TrayEvent> {
    if msg == ids.show {
        Some(TrayEvent::Show)
    } else if msg == ids.hide {
        Some(TrayEvent::Hide)
    } else if msg == ids.toggle {
        Some(TrayEvent::Toggle)
    } else if msg == ids.patch {
        Some(TrayEvent::PatchWatermark { manual: true })
    } else if msg == ids.quit {
        Some(TrayEvent::Quit)
    } else if msg == WM_HOTKEY && wparam == HOTKEY_ID as usize {
        Some(TrayEvent::Toggle)
    } else {
        None
    }
}

/// The tray event a window message of the hidden message window stands
/// for: the command line's show, hide, toggle, patch and quit messages
/// (checked in that order), and Ctrl+Alt+T as a toggle. Other messages are
/// left to the default window procedure.
pub fn classify_window_message(msg: u32, wparam: usize, ids: IpcMessageIds) -> (r: Option<TrayEvent>)
    ensures
        r == spec_classify(msg, wparam, ids),
{
    if msg == ids.show {
        Some(TrayEvent::Show)
    } else if msg == ids.hide {
        Some(TrayEvent::Hide)
    } else if msg == ids.toggle {
        Some(TrayEvent::Toggle)
    } else if msg == ids.patch {
        Some(TrayEvent::PatchWatermark { manual: true })
    } else if msg == ids.quit {
        Some(TrayEvent::Quit)
    } else if msg == WM_HOTKEY && wparam == HOTKEY_ID as usize {
        Some(TrayEvent::Toggle)
    } else {
        None
    }
}

/// Only Start menu events change whether the Start menu counts as open,
/// and hover events change nothing but the hover: the user's request,
/// auto-hide on hover and the startup appbar state stay as they were.
pub proof fn lemma_events_keep_other_reasons(s: TrayView, e: TrayEvent)
    ensures
        !(e is StartMenuSignal || e is StartMenuChanged) ==> spec_step(s, e).0.visibility.start_menu_visible
            == s.visibility.start_menu_visible,
        (e is HoverShow || e is HoverHide) ==> {
            &&& spec_step(s, e).0.visibility.manual_override == s.visibility.manual_override
            &&& spec_step(s, e).0.auto_hover == s.auto_hover
            &&& spec_step(s, e).0.original == s.original
        },
{
}

/// While the Start menu is open the cursor leaving the taskbar hides
/// nothing: the taskbar stays shown and no command is issued.
pub proof fn lemma_hover_hide_respects_start_menu(s: TrayView)
    requires
        s.visibility.start_menu_visible,
        s.visibility.consistent(),
    ensures
        !spec_step(s, TrayEvent::HoverHide).0.visibility.should_hide,
        spec_step(s, TrayEvent::HoverHide).0.visibility.start_menu_visible,
        spec_step(s, TrayEvent::HoverHide).1 == Seq::<TrayAction>::empty(),
{
    assert(lift(Seq::<TaskbarCommand>::empty()) =~= Seq::<TrayAction>::empty());
}

/// With distinct message numbers, each command-line message stands for its
/// own request, Ctrl+Alt+T toggles, and any other message stands for
/// nothing.
pub proof fn lemma_classify_messages(wparam: usize, ids: IpcMessageIds, msg: u32)
    requires
        ids.show != ids.hide && ids.show != ids.toggle && ids.show != ids.quit && ids.show != ids.patch,
        ids.hide != ids.toggle && ids.hide != ids.quit && ids.hide != ids.patch,
        ids.toggle != ids.quit && ids.toggle != ids.patch,
        ids.quit != ids.patch,
        WM_HOTKEY != ids.show && WM_HOTKEY != ids.hide && WM_HOTKEY != ids.toggle && WM_HOTKEY != ids.quit
            && WM_HOTKEY != ids.patch,
    ensures
        spec_classify(ids.show, wparam, ids) == Some(TrayEvent::Show),
        spec_classify(ids.hide, wparam, ids) == Some(TrayEvent::Hide),
        spec_classify(ids.toggle, wparam, ids) == Some(TrayEvent::Toggle),
        spec_classify(ids.quit, wparam, ids) == Some(TrayEvent::Quit),
        spec_classify(ids.patch, wparam, ids) == Some(TrayEvent::PatchWatermark { manual: true }),
        spec_classify(WM_HOTKEY, 0x5448, ids) == Some(TrayEvent::Toggle),
        wparam != 0x5448 ==> spec_classify(WM_HOTKEY, wparam, ids) is None,
        msg != ids.show && msg != ids.hide && msg != ids.toggle && msg != ids.quit && msg != ids.patch
            && msg != WM_HOTKEY ==> spec_classify(msg, wparam, ids) is None,
{
}

} // verus!
