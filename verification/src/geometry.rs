//! Taskbar and monitor geometry: which screen edge a taskbar is docked to,
//! and whether the cursor stands in the zone that reveals it.

use vstd::prelude::*;

verus! {

/// Width in pixels of the strip along a monitor edge that reveals a hidden
/// taskbar.
pub const HOVER_EDGE_WIDTH: i32 = 4;

/// Largest distance in pixels between a taskbar side and a monitor side for
/// the taskbar to count as docked to that side.
pub const HOVER_EDGE_TOLERANCE: i32 = 32;

/// A screen rectangle; `right` and `bottom` are exclusive.
#[derive(Clone, Copy, Debug, PartialEq, Eq, Structural)]
pub struct Rect {
    pub left: i32,
    pub top: i32,
    pub right: i32,
    pub bottom: i32,
}

/// A screen position.
#[derive(Clone, Copy, Debug, PartialEq, Eq, Structural)]
pub struct Point {
    pub x: i32,
    pub y: i32,
}

/// The monitor edge a taskbar is docked to.
#[derive(Clone, Copy, Debug, PartialEq, Eq, Structural)]
pub enum TaskbarEdge {
    Left,
    Top,
    Right,
    Bottom,
}

pub open spec fn abs_int(x: int) -> int {
    if x < 0 { -x } else { x }
}

pub open spec fn rect_width(r: Rect) -> int {
    r.right - r.left
}

pub open spec fn rect_height(r: Rect) -> int {
    r.bottom - r.top
}

/// The edge a taskbar rectangle is docked to on its monitor, if any.
pub open spec fn spec_taskbar_edge(taskbar: Rect, monitor: Rect) -> Option<TaskbarEdge> {
    let width = rect_width(taskbar);
    let height = rect_height(taskbar);
    if width <= 0 || height <= 0 {
        None
    } else if width >= height {
        if abs_int(taskbar.top - monitor.top) <= HOVER_EDGE_TOLERANCE {
            Some(TaskbarEdge::Top)
        } else if abs_int(monitor.bottom - taskbar.bottom) <= HOVER_EDGE_TOLERANCE {
            Some(TaskbarEdge::Bottom)
        } else {
            None
        }
    } else if abs_int(taskbar.left - monitor.left) <= HOVER_EDGE_TOLERANCE {
        Some(TaskbarEdge::Left)
    } else if abs_int(monitor.right - taskbar.right) <= HOVER_EDGE_TOLERANCE {
        Some(TaskbarEdge::Right)
    } else {
        None
    }
}

/// Whether a point lies inside a rectangle (right and bottom exclusive).
pub open spec fn spec_rect_contains(r: Rect, p: Point) -> bool {
    r.left <= p.x < r.right && r.top <= p.y < r.bottom
}

/// Whether a point lies in the reveal strip of a monitor edge.
pub open spec fn spec_on_edge(point: Point, monitor: Rect, edge: TaskbarEdge) -> bool {
    spec_rect_contains(monitor, point) && match edge {
        TaskbarEdge::Left => point.x < monitor.left + HOVER_EDGE_WIDTH,
        TaskbarEdge::Top => point.y < monitor.top + HOVER_EDGE_WIDTH,
        TaskbarEdge::Right => point.x >= monitor.right - HOVER_EDGE_WIDTH,
        TaskbarEdge::Bottom => point.y >= monitor.bottom - HOVER_EDGE_WIDTH,
    }
}

fn abs_diff_within_tolerance(a: i32, b: i32) -> (r: bool)
    ensures
        r == (abs_int(a - b) <= HOVER_EDGE_TOLERANCE),
{
    let d: i64 = (a as i64) - (b as i64);
    if d < 0 {
        -d <= HOVER_EDGE_TOLERANCE as i64
    } else {
        d <= HOVER_EDGE_TOLERANCE as i64
    }
}

/// Classifies a taskbar rectangle by the monitor edge it is docked to.
/// A taskbar at least as wide as tall is horizontal (top or bottom), any
/// other is vertical (left or right); a side counts as docked when it lies
/// within `HOVER_EDGE_TOLERANCE` pixels of the monitor's side. Empty
/// rectangles are docked nowhere.
pub fn taskbar_edge_for_rect(taskbar_rect: Rect, monitor_rect: Rect) -> (r: Option<TaskbarEdge>)
    ensures
        r == spec_taskbar_edge(taskbar_rect, monitor_rect),
{
    let width: i64 = (taskbar_rect.right as i64) - (taskbar_rect.left as i64);
    let height: i64 = (taskbar_rect.bottom as i64) - (taskbar_rect.top as i64);
    if width <= 0 || height <= 0 {
        return None;
    }
    if width >= height {
        if abs_diff_within_tolerance(taskbar_rect.top, monitor_rect.top) {
            Some(TaskbarEdge::Top)
        } else if abs_diff_within_tolerance(monitor_rect.bottom, taskbar_rect.bottom) {
            Some(TaskbarEdge::Bottom)
        } else {
            None
        }
    } else if abs_diff_within_tolerance(taskbar_rect.left, monitor_rect.left) {
        Some(TaskbarEdge::Left)
    } else if abs_diff_within_tolerance(monitor_rect.right, taskbar_rect.right) {
        Some(TaskbarEdge::Right)
    } else {
        None
    }
}

/// Whether `point` lies inside `rect`.
pub fn rect_contains(rect: Rect, point: Point) -> (r: bool)
    ensures
        r == spec_rect_contains(rect, point),
{
    point.x >= rect.left && point.x < rect.right && point.y >= rect.top && point.y < rect.bottom
}

/// Whether the cursor is inside the monitor and within `HOVER_EDGE_WIDTH`
/// pixels of the given edge.
pub fn cursor_is_on_taskbar_edge(point: Point, monitor_rect: Rect, edge: TaskbarEdge) -> (r: bool)
    ensures
        r == spec_on_edge(point, monitor_rect, edge),
{
    if !rect_contains(monitor_rect, point) {
        return false;
    }
    match edge {
        TaskbarEdge::Left => (point.x as i64) < (monitor_rect.left as i64) + (HOVER_EDGE_WIDTH as i64),
        TaskbarEdge::Top => (point.y as i64) < (monitor_rect.top as i64) + (HOVER_EDGE_WIDTH as i64),
        TaskbarEdge::Right => (point.x as i64) >= (monitor_rect.right as i64) - (HOVER_EDGE_WIDTH as i64),
        TaskbarEdge::Bottom => (point.y as i64) >= (monitor_rect.bottom as i64) - (HOVER_EDGE_WIDTH as i64),
    }
}

/// What the operating system reported about one taskbar window at one
/// moment: whether it is visible, its rectangle (absent when the query
/// failed) and the rectangle of its monitor (absent when no monitor could be
/// found or queried).
#[derive(Clone, Copy, Debug, PartialEq, Eq, Structural)]
pub struct TaskbarWindow {
    pub visible: bool,
    pub rect: Option<Rect>,
    pub monitor: Option<Rect>,
}

/// The cursor is inside this taskbar, which is visible.
pub open spec fn spec_in_visible_taskbar(point: Point, w: TaskbarWindow) -> bool {
    w.visible && match w.rect {
        Some(r) => spec_rect_contains(r, point),
        None => false,
    }
}

/// The cursor is on the reveal strip of the edge this taskbar is docked to.
pub open spec fn spec_at_taskbar_edge(point: Point, w: TaskbarWindow) -> bool {
    match (w.rect, w.monitor) {
        (Some(r), Some(m)) => match spec_taskbar_edge(r, m) {
            Some(edge) => spec_on_edge(point, m, edge),
            None => false,
        },
        _ => false,
    }
}

/// Whether the cursor lies inside one of the visible taskbars.
pub fn cursor_is_in_visible_taskbar(point: Point, taskbars: &[TaskbarWindow]) -> (r: bool)
    ensures
        r == exists|i: int| 0 <= i < taskbars@.len() && spec_in_visible_taskbar(point, #[trigger] taskbars@[i]),
{
    let n = taskbars.len();
    let mut i: usize = 0;
    while i < n
        invariant
            n == taskbars@.len(),
            i <= n,
            forall|j: int| 0 <= j < i ==> !spec_in_visible_taskbar(point, #[trigger] taskbars@[j]),
        decreases n - i,
    {
        let w = taskbars[i];
        if w.visible {
            if let Some(rect) = w.rect {
                if rect_contains(rect, point) {
                    assert(spec_in_visible_taskbar(point, taskbars@[i as int]));
                    return true;
                }
            }
        }
        i = i + 1;
    }
    false
}

/// Whether the cursor lies on the reveal strip of the monitor edge that one
/// of the taskbars is docked to (hidden taskbars count too).
pub fn cursor_is_at_taskbar_edge(point: Point, taskbars: &[TaskbarWindow]) -> (r: bool)
    ensures
        r == exists|i: int| 0 <= i < taskbars@.len() && spec_at_taskbar_edge(point, #[trigger] taskbars@[i]),
{
    let n = taskbars.len();
    let mut i: usize = 0;
    while i < n
        invariant
            n == taskbars@.len(),
            i <= n,
            forall|j: int| 0 <= j < i ==> !spec_at_taskbar_edge(point, #[trigger] taskbars@[j]),
        decreases n - i,
    {
        let w = taskbars[i];
        if let Some(rect) = w.rect {
            if let Some(monitor) = w.monitor {
                if let Some(edge) = taskbar_edge_for_rect(rect, monitor) {
                    if cursor_is_on_taskbar_edge(point, monitor, edge) {
                        assert(spec_at_taskbar_edge(point, taskbars@[i as int]));
                        return true;
                    }
                }
            }
        }
        i = i + 1;
    }
    false
}

/// The cursor reveals the taskbar when it is on a docked edge's strip or
/// inside a visible taskbar.
pub open spec fn spec_in_reveal_zone(point: Point, taskbars: Seq<TaskbarWindow>) -> bool {
    (exists|i: int| 0 <= i < taskbars.len() && spec_at_taskbar_edge(point, #[trigger] taskbars[i]))
        || (exists|i: int| 0 <= i < taskbars.len() && spec_in_visible_taskbar(point, #[trigger] taskbars[i]))
}

/// Whether the cursor stands where a hidden taskbar should be revealed, or
/// a shown one kept.
pub fn cursor_is_in_reveal_zone(point: Point, taskbars: &[TaskbarWindow]) -> (r: bool)
    ensures
        r == spec_in_reveal_zone(point, taskbars@),
{
    cursor_is_at_taskbar_edge(point, taskbars) || cursor_is_in_visible_taskbar(point, taskbars)
}

/// A taskbar is docked to the top or bottom only when it is at least as wide
/// as tall, to the left or right only when it is taller than wide, and an
/// empty rectangle is docked nowhere.
pub proof fn lemma_edge_follows_orientation(taskbar: Rect, monitor: Rect)
    ensures
        spec_taskbar_edge(taskbar, monitor) is Some ==> rect_width(taskbar) > 0 && rect_height(taskbar) > 0,
        spec_taskbar_edge(taskbar, monitor) == Some(TaskbarEdge::Top) || spec_taskbar_edge(taskbar, monitor) == Some(TaskbarEdge::Bottom)
            ==> rect_width(taskbar) >= rect_height(taskbar),
        spec_taskbar_edge(taskbar, monitor) == Some(TaskbarEdge::Left) || spec_taskbar_edge(taskbar, monitor) == Some(TaskbarEdge::Right)
            ==> rect_width(taskbar) < rect_height(taskbar),
{
}

/// The reveal strip of an edge lies inside the monitor, and a point on it is
/// within `HOVER_EDGE_WIDTH` pixels of that edge of the monitor.
pub proof fn lemma_edge_strip_inside_monitor(point: Point, monitor: Rect, edge: TaskbarEdge)
    requires
        spec_on_edge(point, monitor, edge),
    ensures
        spec_rect_contains(monitor, point),
        edge == TaskbarEdge::Left ==> point.x - monitor.left < HOVER_EDGE_WIDTH,
        edge == TaskbarEdge::Top ==> point.y - monitor.top < HOVER_EDGE_WIDTH,
        edge == TaskbarEdge::Right ==> monitor.right - point.x <= HOVER_EDGE_WIDTH,
        edge == TaskbarEdge::Bottom ==> monitor.bottom - point.y <= HOVER_EDGE_WIDTH,
{
}

/// A visible taskbar keeps the cursor in the reveal zone while the cursor is
/// over it.
pub proof fn lemma_visible_taskbar_is_reveal_zone(point: Point, taskbars: Seq<TaskbarWindow>, i: int)
    requires
        0 <= i < taskbars.len(),
        taskbars[i].visible,
        taskbars[i].rect matches Some(r) && spec_rect_contains(r, point),
    ensures
        spec_in_reveal_zone(point, taskbars),
{
    assert(spec_in_visible_taskbar(point, taskbars[i]));
}

/// The reveal strip of every taskbar's docked edge is in the reveal zone,
/// whichever taskbar of the list it belongs to and whether it is shown or
/// hidden: a point inside the monitor within `HOVER_EDGE_WIDTH` pixels of
/// the edge the taskbar is docked to.
pub proof fn lemma_edge_strip_is_reveal_zone(point: Point, taskbars: Seq<TaskbarWindow>, i: int, r: Rect, m: Rect, edge: TaskbarEdge)
    requires
        0 <= i < taskbars.len(),
        taskbars[i].rect == Some(r),
        taskbars[i].monitor == Some(m),
        spec_taskbar_edge(r, m) == Some(edge),
        m.left <= point.x < m.right,
        m.top <= point.y < m.bottom,
        edge == TaskbarEdge::Left ==> point.x < m.left + HOVER_EDGE_WIDTH,
        edge == TaskbarEdge::Top ==> point.y < m.top + HOVER_EDGE_WIDTH,
        edge == TaskbarEdge::Right ==> point.x >= m.right - HOVER_EDGE_WIDTH,
        edge == TaskbarEdge::Bottom ==> point.y >= m.bottom - HOVER_EDGE_WIDTH,
    ensures
        spec_in_reveal_zone(point, taskbars),
{
    assert(spec_at_taskbar_edge(point, taskbars[i]));
}

/// Where a taskbar is docked: one at least as wide as tall, with its top
/// within `HOVER_EDGE_TOLERANCE` of the monitor's top, is at the top;
/// failing that, with its bottom within the tolerance of the monitor's
/// bottom, at the bottom; likewise left then right for one taller than
/// wide; and one near neither of its two candidate sides is docked nowhere.
pub proof fn lemma_docking_rules(t: Rect, m: Rect)
    requires
        t.right - t.left > 0,
        t.bottom - t.top > 0,
    ensures
        t.right - t.left >= t.bottom - t.top && -HOVER_EDGE_TOLERANCE <= t.top - m.top <= HOVER_EDGE_TOLERANCE
            ==> spec_taskbar_edge(t, m) == Some(TaskbarEdge::Top),
        t.right - t.left >= t.bottom - t.top && !(-HOVER_EDGE_TOLERANCE <= t.top - m.top <= HOVER_EDGE_TOLERANCE)
            && -HOVER_EDGE_TOLERANCE <= m.bottom - t.bottom <= HOVER_EDGE_TOLERANCE
            ==> spec_taskbar_edge(t, m) == Some(TaskbarEdge::Bottom),
        t.right - t.left >= t.bottom - t.top && !(-HOVER_EDGE_TOLERANCE <= t.top - m.top <= HOVER_EDGE_TOLERANCE)
            && !(-HOVER_EDGE_TOLERANCE <= m.bottom - t.bottom <= HOVER_EDGE_TOLERANCE)
            ==> spec_taskbar_edge(t, m) is None,
        t.right - t.left < t.bottom - t.top && -HOVER_EDGE_TOLERANCE <= t.left - m.left <= HOVER_EDGE_TOLERANCE
            ==> spec_taskbar_edge(t, m) == Some(TaskbarEdge::Left),
        t.right - t.left < t.bottom - t.top && !(-HOVER_EDGE_TOLERANCE <= t.left - m.left <= HOVER_EDGE_TOLERANCE)
            && -HOVER_EDGE_TOLERANCE <= m.right - t.right <= HOVER_EDGE_TOLERANCE
            ==> spec_taskbar_edge(t, m) == Some(TaskbarEdge::Right),
        t.right - t.left < t.bottom - t.top && !(-HOVER_EDGE_TOLERANCE <= t.left - m.left <= HOVER_EDGE_TOLERANCE)
            && !(-HOVER_EDGE_TOLERANCE <= m.right - t.right <= HOVER_EDGE_TOLERANCE)
            ==> spec_taskbar_edge(t, m) is None,
{
}

/// The cursor is in the reveal zone only on a docked edge's strip or inside
/// a visible taskbar of the list.
pub proof fn lemma_reveal_zone_has_a_cause(point: Point, taskbars: Seq<TaskbarWindow>)
    requires
        spec_in_reveal_zone(point, taskbars),
    ensures
        exists|i: int| 0 <= i < taskbars.len() && (#[trigger] taskbars[i].rect) is Some && (
            (taskbars[i].visible && spec_rect_contains(taskbars[i].rect->0, point))
            || (taskbars[i].monitor is Some && spec_rect_contains(taskbars[i].monitor->0, point)
                && spec_taskbar_edge(taskbars[i].rect->0, taskbars[i].monitor->0) is Some)),
{
    if exists|i: int| 0 <= i < taskbars.len() && spec_at_taskbar_edge(point, #[trigger] taskbars[i]) {
        let i = choose|i: int| 0 <= i < taskbars.len() && spec_at_taskbar_edge(point, #[trigger] taskbars[i]);
        assert(taskbars[i].rect is Some);
    } else {
        let i = choose|i: int| 0 <= i < taskbars.len() && spec_in_visible_taskbar(point, #[trigger] taskbars[i]);
        assert(taskbars[i].rect is Some);
    }
}

} // verus!
