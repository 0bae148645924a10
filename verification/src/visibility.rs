//! Whether the taskbars should be shown, and the commands that bring the
//! shell in line with that decision.

use vstd::prelude::*;
use crate::text::ascii_ci_eq;
use crate::watermark::is_explorer_process;

verus! {

/// The appbar state bit that makes the shell auto-hide the taskbar.
pub const ABS_AUTOHIDE: u32 = 1;

/// A change the caller performs on the shell.
#[derive(Clone, Copy, Debug, PartialEq, Eq, Structural)]
pub enum TaskbarCommand {
    /// Write this appbar state through `SHAppBarMessage(ABM_SETSTATE)`.
    WriteAppbarState(u32),
    /// Show (`true`) or hide (`false`) every taskbar window of Explorer.
    SetTaskbarsVisible(bool),
}

/// The reasons to show the taskbar, and whether it is currently hidden.
#[derive(Clone, Copy, Debug, PartialEq, Eq, Structural)]
pub struct VisibilityState {
    /// The taskbar is hidden (as far as this application put it so).
    pub should_hide: bool,
    /// The user asked for the taskbar to be shown.
    pub manual_override: bool,
    /// The cursor revealed the taskbar by hovering.
    pub hover_visible: bool,
    /// The Start menu is open.
    pub start_menu_visible: bool,
}

impl VisibilityState {
    pub open spec fn spec_wants_visible(self) -> bool {
        self.manual_override || self.hover_visible || self.start_menu_visible
    }

    /// The taskbar is hidden exactly when nothing wants it shown.
    pub open spec fn consistent(self) -> bool {
        self.should_hide == !self.spec_wants_visible()
    }

    /// Whether anything (the user, the hover, the Start menu) wants the
    /// taskbar shown.
    pub fn wants_visible(&self) -> (r: bool)
        ensures
            r == self.spec_wants_visible(),
    {
        self.manual_override || self.hover_visible || self.start_menu_visible
    }
}

/// Remembers the appbar state found at startup and the state with
/// auto-hide forced on.
pub struct TaskbarStateManager {
    original_state: u32,
    enforced_state: u32,
}

/// The appbar state with auto-hide forced on.
pub open spec fn autohide_state(original: u32) -> u32 {
    original | ABS_AUTOHIDE
}

impl TaskbarStateManager {
    #[verifier::type_invariant]
    spec fn inv(self) -> bool {
        self.enforced_state == autohide_state(self.original_state)
    }

    /// The appbar state found at startup.
    pub closed spec fn original(self) -> u32 {
        self.original_state
    }

    /// Remembers `original_state`, the appbar state read at startup.
    pub fn new(original_state: u32) -> (m: Self)
        ensures
            m.original() == original_state,
    {
        TaskbarStateManager { original_state, enforced_state: original_state | ABS_AUTOHIDE }
    }

    /// The write that turns auto-hide on at startup, when the state read
    /// does not have it yet.
    pub fn startup_command(&self) -> (c: Option<TaskbarCommand>)
        ensures
            c == (if autohide_state(self.original()) != self.original() {
                Some(TaskbarCommand::WriteAppbarState(autohide_state(self.original())))
            } else {
                None
            }),
    {
        proof {
            use_type_invariant(self);
        }
        if self.enforced_state != self.original_state {
            Some(TaskbarCommand::WriteAppbarState(self.enforced_state))
        } else {
            None
        }
    }

    /// The write that forces auto-hide on.
    pub fn enforce(&self) -> (c: TaskbarCommand)
        ensures
            c == TaskbarCommand::WriteAppbarState(autohide_state(self.original())),
    {
        proof {
            use_type_invariant(self);
        }
        TaskbarCommand::WriteAppbarState(self.enforced_state)
    }

    /// The write that puts back the appbar state found at startup.
    pub fn restore(&self) -> (c: TaskbarCommand)
        ensures
            c == TaskbarCommand::WriteAppbarState(self.original()),
    {
        TaskbarCommand::WriteAppbarState(self.original_state)
    }

    /// The appbar state found at startup.
    pub fn original_state(&self) -> (s: u32)
        ensures
            s == self.original(),
    {
        self.original_state
    }
}

/// What showing the taskbar writes: the original appbar state, then the
/// windows shown.
pub open spec fn show_commands(original: u32) -> Seq<TaskbarCommand> {
    seq![TaskbarCommand::WriteAppbarState(original), TaskbarCommand::SetTaskbarsVisible(true)]
}

/// What hiding the taskbar writes: auto-hide forced on, then the windows
/// hidden.
pub open spec fn hide_commands(original: u32) -> Seq<TaskbarCommand> {
    seq![
        TaskbarCommand::WriteAppbarState(autohide_state(original)),
        TaskbarCommand::SetTaskbarsVisible(false),
    ]
}

/// What to do with a window found while walking the windows of a taskbar
/// class.
#[derive(Clone, Copy, Debug, PartialEq, Eq, Structural)]
pub struct TaskbarWalkStep {
    /// The window is one of Explorer's taskbars.
    pub keep: bool,
    /// Stop walking this class.
    pub stop: bool,
}

/// Judges a window of a taskbar class: it is kept when its process is
/// Explorer (ASCII case ignored); the walk of the primary class
/// (`Shell_TrayWnd`) stops at the first window kept, that of the secondary
/// class goes on to the end.
pub fn taskbar_walk_step(primary_class: bool, process_name: Option<&str>) -> (s: TaskbarWalkStep)
    ensures
        s.keep == (match process_name {
            Some(n) => ascii_ci_eq(n@, "explorer.exe"@),
            None => false,
        }),
        s.stop == (s.keep && primary_class),
{
    let keep = match process_name {
        Some(name) => is_explorer_process(name),
        None => false,
    };
    TaskbarWalkStep { keep, stop: keep && primary_class }
}

/// Marks the taskbar shown; the caller restores the appbar state and shows
/// the taskbar windows.
pub fn taskbar_show(should_hide: &mut bool, manager: &TaskbarStateManager) -> (cmds: Vec<TaskbarCommand>)
    ensures
        *final(should_hide) == false,
        cmds@ == show_commands(manager.original()),
{
    *should_hide = false;
    let mut cmds: Vec<TaskbarCommand> = Vec::new();
    cmds.push(manager.restore());
    cmds.push(TaskbarCommand::SetTaskbarsVisible(true));
    cmds
}

/// Marks the taskbar hidden; the caller forces auto-hide on and hides the
/// taskbar windows.
pub fn taskbar_hide(should_hide: &mut bool, manager: &TaskbarStateManager) -> (cmds: Vec<TaskbarCommand>)
    ensures
        *final(should_hide) == true,
        cmds@ == hide_commands(manager.original()),
{
    *should_hide = true;
    let mut cmds: Vec<TaskbarCommand> = Vec::new();
    cmds.push(manager.enforce());
    cmds.push(TaskbarCommand::SetTaskbarsVisible(false));
    cmds
}

/// The state after reconciling: shown when wanted and hidden, hidden when
/// unwanted and shown, untouched otherwise.
pub open spec fn reconciled(v: VisibilityState) -> VisibilityState {
    VisibilityState { should_hide: !v.spec_wants_visible(), ..v }
}

/// The commands reconciling issues.
pub open spec fn reconcile_commands(v: VisibilityState, original: u32) -> Seq<TaskbarCommand> {
    if v.spec_wants_visible() && v.should_hide {
        show_commands(original)
    } else if !v.spec_wants_visible() && !v.should_hide {
        hide_commands(original)
    } else {
        seq![]
    }
}

/// Brings the taskbar in line with what is wanted: shows it when something
/// wants it and it is hidden, hides it when nothing wants it and it is
/// shown, and does nothing otherwise.
pub fn reconcile_taskbar(state: &mut VisibilityState, manager: &TaskbarStateManager) -> (cmds: Vec<TaskbarCommand>)
    ensures
        *final(state) == reconciled(*old(state)),
        cmds@ == reconcile_commands(*old(state), manager.original()),
{
    let wants_visible = state.wants_visible();
    let is_hidden = state.should_hide;
    if wants_visible && is_hidden {
        taskbar_show(&mut state.should_hide, manager)
    } else if !wants_visible && !is_hidden {
        taskbar_hide(&mut state.should_hide, manager)
    } else {
        Vec::new()
    }
}

/// The state a toggle reconciles: a hidden taskbar is shown by the user's
/// request, a shown one loses both the user's request and the hover.
pub open spec fn toggled(v: VisibilityState) -> VisibilityState {
    VisibilityState { manual_override: v.should_hide, hover_visible: false, ..v }
}

/// Toggles the taskbar: when it is hidden the user asks for it shown, when
/// it is shown the user's request and the hover are dropped; then
/// reconciles.
pub fn taskbar_toggle(state: &mut VisibilityState, manager: &TaskbarStateManager) -> (cmds: Vec<TaskbarCommand>)
    ensures
        *final(state) == reconciled(toggled(*old(state))),
        cmds@ == reconcile_commands(toggled(*old(state)), manager.original()),
{
    if state.should_hide {
        state.manual_override = true;
        state.hover_visible = false;
    } else {
        state.manual_override = false;
        state.hover_visible = false;
    }
    reconcile_taskbar(state, manager)
}

/// Reconciling leaves the taskbar hidden exactly when nothing wants it
/// shown, and reconciling again changes nothing.
pub proof fn lemma_reconcile_consistent_and_idempotent(v: VisibilityState, original: u32)
    ensures
        reconciled(v).consistent(),
        reconciled(reconciled(v)) == reconciled(v),
        reconcile_commands(reconciled(v), original) == Seq::<TaskbarCommand>::empty(),
        v.consistent() ==> reconciled(v) == v && reconcile_commands(v, original) == Seq::<TaskbarCommand>::empty(),
{
}

/// Toggling a hidden taskbar shows it; toggling a shown taskbar hides it
/// unless the Start menu is open.
pub proof fn lemma_toggle_flips_visibility(v: VisibilityState, original: u32)
    requires
        v.consistent(),
    ensures
        v.should_hide ==> !reconciled(toggled(v)).should_hide
            && reconcile_commands(toggled(v), original) == show_commands(original),
        !v.should_hide && !v.start_menu_visible ==> reconciled(toggled(v)).should_hide
            && reconcile_commands(toggled(v), original) == hide_commands(original),
        !v.should_hide && v.start_menu_visible ==> !reconciled(toggled(v)).should_hide,
{
}

/// Forcing auto-hide on sets the auto-hide bit and changes no other bit.
pub proof fn lemma_autohide_changes_one_bit(original: u32)
    ensures
        autohide_state(original) & ABS_AUTOHIDE == ABS_AUTOHIDE,
        autohide_state(original) & !ABS_AUTOHIDE == original & !ABS_AUTOHIDE,
        original & ABS_AUTOHIDE == ABS_AUTOHIDE ==> autohide_state(original) == original,
{
    assert((original | 1u32) & 1u32 == 1u32) by (bit_vector);
    assert((original | 1u32) & !1u32 == original & !1u32) by (bit_vector);
    assert(original & 1u32 == 1u32 ==> (original | 1u32) == original) by (bit_vector);
}

} // verus!
