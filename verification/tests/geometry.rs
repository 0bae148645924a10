use thide::geometry::{
    cursor_is_at_taskbar_edge, cursor_is_in_reveal_zone, cursor_is_in_visible_taskbar,
    cursor_is_on_taskbar_edge, rect_contains, taskbar_edge_for_rect, Point, Rect, TaskbarEdge,
    TaskbarWindow,
};

const MONITOR: Rect = Rect { left: 0, top: 0, right: 1920, bottom: 1080 };

#[test]
fn detects_horizontal_taskbars() {
    assert_eq!(
        taskbar_edge_for_rect(Rect { left: 0, top: 0, right: 1920, bottom: 48 }, MONITOR),
        Some(TaskbarEdge::Top)
    );
    assert_eq!(
        taskbar_edge_for_rect(Rect { left: 0, top: 1032, right: 1920, bottom: 1080 }, MONITOR),
        Some(TaskbarEdge::Bottom)
    );
}

#[test]
fn detects_vertical_taskbars() {
    assert_eq!(
        taskbar_edge_for_rect(Rect { left: 0, top: 0, right: 64, bottom: 1080 }, MONITOR),
        Some(TaskbarEdge::Left)
    );
    assert_eq!(
        taskbar_edge_for_rect(Rect { left: 1856, top: 0, right: 1920, bottom: 1080 }, MONITOR),
        Some(TaskbarEdge::Right)
    );
}

#[test]
fn rejects_rectangles_not_docked_to_an_edge() {
    assert_eq!(
        taskbar_edge_for_rect(Rect { left: 100, top: 100, right: 1820, bottom: 148 }, MONITOR),
        None
    );
}

#[test]
fn empty_rectangles_dock_nowhere() {
    assert_eq!(taskbar_edge_for_rect(Rect { left: 0, top: 0, right: 0, bottom: 48 }, MONITOR), None);
    assert_eq!(taskbar_edge_for_rect(Rect { left: 10, top: 0, right: 5, bottom: 48 }, MONITOR), None);
}

#[test]
fn tolerance_is_inclusive() {
    // 32 pixels off the top still counts, 33 does not.
    assert_eq!(
        taskbar_edge_for_rect(Rect { left: 0, top: 32, right: 1920, bottom: 80 }, MONITOR),
        Some(TaskbarEdge::Top)
    );
    assert_eq!(
        taskbar_edge_for_rect(Rect { left: 0, top: 33, right: 1920, bottom: 81 }, MONITOR),
        None
    );
}

#[test]
fn square_taskbar_counts_as_horizontal() {
    assert_eq!(
        taskbar_edge_for_rect(Rect { left: 0, top: 0, right: 48, bottom: 48 }, MONITOR),
        Some(TaskbarEdge::Top)
    );
}

#[test]
fn extreme_coordinates_do_not_overflow() {
    let huge = Rect { left: i32::MIN, top: i32::MIN, right: i32::MAX, bottom: i32::MAX };
    assert_eq!(taskbar_edge_for_rect(huge, MONITOR), None);
    assert!(!cursor_is_on_taskbar_edge(Point { x: i32::MAX, y: 0 }, huge, TaskbarEdge::Left));
    assert!(cursor_is_on_taskbar_edge(Point { x: i32::MAX - 1, y: 0 }, huge, TaskbarEdge::Right));
}

#[test]
fn edge_strips_are_four_pixels_wide() {
    assert!(cursor_is_on_taskbar_edge(Point { x: 500, y: 1079 }, MONITOR, TaskbarEdge::Bottom));
    assert!(cursor_is_on_taskbar_edge(Point { x: 500, y: 1076 }, MONITOR, TaskbarEdge::Bottom));
    assert!(!cursor_is_on_taskbar_edge(Point { x: 500, y: 1075 }, MONITOR, TaskbarEdge::Bottom));
    assert!(cursor_is_on_taskbar_edge(Point { x: 3, y: 500 }, MONITOR, TaskbarEdge::Left));
    assert!(!cursor_is_on_taskbar_edge(Point { x: 4, y: 500 }, MONITOR, TaskbarEdge::Left));
    assert!(cursor_is_on_taskbar_edge(Point { x: 500, y: 0 }, MONITOR, TaskbarEdge::Top));
    assert!(cursor_is_on_taskbar_edge(Point { x: 1916, y: 500 }, MONITOR, TaskbarEdge::Right));
    assert!(!cursor_is_on_taskbar_edge(Point { x: 1915, y: 500 }, MONITOR, TaskbarEdge::Right));
    // Outside the monitor nothing counts.
    assert!(!cursor_is_on_taskbar_edge(Point { x: 1920, y: 500 }, MONITOR, TaskbarEdge::Right));
    assert!(!cursor_is_on_taskbar_edge(Point { x: -1, y: 500 }, MONITOR, TaskbarEdge::Left));
}

#[test]
fn rectangles_exclude_right_and_bottom() {
    let r = Rect { left: 0, top: 1032, right: 1920, bottom: 1080 };
    assert!(rect_contains(r, Point { x: 0, y: 1032 }));
    assert!(!rect_contains(r, Point { x: 1920, y: 1040 }));
    assert!(!rect_contains(r, Point { x: 10, y: 1080 }));
}

#[test]
fn reveal_zone_combines_edges_and_visible_taskbars() {
    let bottom = Rect { left: 0, top: 1032, right: 1920, bottom: 1080 };
    let hidden = TaskbarWindow { visible: false, rect: Some(bottom), monitor: Some(MONITOR) };
    let shown = TaskbarWindow { visible: true, rect: Some(bottom), monitor: Some(MONITOR) };
    let unknown = TaskbarWindow { visible: true, rect: None, monitor: Some(MONITOR) };
    let inside = Point { x: 500, y: 1040 };
    let edge = Point { x: 500, y: 1078 };

    assert!(cursor_is_at_taskbar_edge(edge, &[hidden]));
    assert!(!cursor_is_at_taskbar_edge(inside, &[hidden]));
    assert!(!cursor_is_in_visible_taskbar(inside, &[hidden]));
    assert!(cursor_is_in_visible_taskbar(inside, &[shown]));
    assert!(cursor_is_in_reveal_zone(inside, &[hidden, shown]));
    assert!(!cursor_is_in_reveal_zone(inside, &[hidden, unknown]));
    assert!(cursor_is_in_reveal_zone(edge, &[unknown, hidden]));
    assert!(!cursor_is_in_reveal_zone(edge, &[]));
    let no_monitor = TaskbarWindow { visible: false, rect: Some(bottom), monitor: None };
    assert!(!cursor_is_at_taskbar_edge(edge, &[no_monitor]));
}
