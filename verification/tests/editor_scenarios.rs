//! End-to-end event scenarios against the editor model.

use sketchpad::components::Entity;
use sketchpad::geometry::{Geometry, Point};
use sketchpad::keyboard_event_args::{KeyboardEventArgs, VirtualKeyCode};
use sketchpad::model::Model;
use sketchpad::modes::{MouseButtons, MouseEventArgs, State, StateKind};
use sketchpad::msg::ButtonType;

fn args(x: i64, y: i64) -> MouseEventArgs {
    MouseEventArgs {
        location: Point { x, y },
        cursor: Point { x, y },
        button_state: MouseButtons::left_button(),
    }
}

fn entities(m: &Model) -> Vec<Entity> {
    let w = m.world();
    let mut v = Vec::new();
    for i in 0..w.num_entities() {
        v.push(w.entity_at(i).unwrap());
    }
    v
}

fn points(m: &Model) -> Vec<(i64, i64)> {
    entities(m)
        .into_iter()
        .filter_map(|e| match e.drawing_object {
            Some(obj) => match obj.geometry {
                Geometry::Point(p) => Some((p.x, p.y)),
                _ => None,
            },
            None => None,
        })
        .collect()
}

fn lines(m: &Model) -> Vec<((i64, i64), (i64, i64))> {
    entities(m)
        .into_iter()
        .filter_map(|e| match e.drawing_object {
            Some(obj) => match obj.geometry {
                Geometry::Line(a, b) => Some(((a.x, a.y), (b.x, b.y))),
                _ => None,
            },
            None => None,
        })
        .collect()
}

fn no_markers(m: &Model) -> bool {
    entities(m).into_iter().all(|e| {
        e.add_point.is_none() && e.add_line.is_none() && e.add_arc.is_none() && !e.delete
    })
}

fn selected_count(m: &Model) -> usize {
    entities(m).into_iter().filter(|e| e.selected).count()
}

#[test]
fn starts_idle_with_empty_drawing() {
    let m = Model::new();
    assert!(matches!(m.current_state(), State::Idle(_)));
    assert_eq!(points(&m).len(), 0);
    assert_eq!(lines(&m).len(), 0);
    assert!(no_markers(&m));
    assert!(!m.snap_enabled());
}

#[test]
fn point_button_then_click_places_one_point() {
    // start in idle; click "Point"; a press places a point; release keeps it
    let mut m = Model::new();
    m.on_button_clicked(&ButtonType::Point);
    match m.current_state() {
        State::AddPoint(ap) => assert_eq!(
            ap.nested,
            sketchpad::add_point_mode::AddPointSubstate::WaitingToPlace
        ),
        other => panic!("expected point mode, got {:?}", other),
    }
    m.on_mouse_down(&args(10, 10));
    assert_eq!(points(&m), vec![(10, 10)]);
    match m.current_state() {
        State::AddPoint(ap) => assert_eq!(
            ap.nested,
            sketchpad::add_point_mode::AddPointSubstate::PlacingPoint
        ),
        other => panic!("expected point mode, got {:?}", other),
    }
    m.on_mouse_up(&args(10, 10));
    match m.current_state() {
        State::AddPoint(ap) => assert_eq!(
            ap.nested,
            sketchpad::add_point_mode::AddPointSubstate::WaitingToPlace
        ),
        other => panic!("expected point mode, got {:?}", other),
    }
    assert_eq!(points(&m), vec![(10, 10)]);
    assert_eq!(selected_count(&m), 0);
    assert!(no_markers(&m));
}

#[test]
fn each_completed_pair_commits_one_point() {
    let mut m = Model::new();
    m.on_button_clicked(&ButtonType::Point);
    let spots = [(1, 2), (30, 40), (-7, 5), (0, 0)];
    for (x, y) in spots {
        m.on_mouse_down(&args(x, y));
        m.on_mouse_up(&args(x, y));
    }
    assert_eq!(points(&m), vec![(1, 2), (30, 40), (-7, 5), (0, 0)]);
    assert_eq!(selected_count(&m), 0);
    assert!(no_markers(&m));
}

#[test]
fn line_mode_anchors_then_extends() {
    // click "Line"; press at the origin places a provisional start vertex
    let mut m = Model::new();
    m.on_button_clicked(&ButtonType::Line);
    m.on_mouse_down(&args(0, 0));
    assert_eq!(points(&m), vec![(0, 0)]);
    assert_eq!(selected_count(&m), 1);
    // the pointer travels to (5,5) and releases: the vertex is replaced by
    // a line from the start to the cursor
    m.on_mouse_move(&args(5, 5));
    m.on_mouse_up(&args(5, 5));
    assert_eq!(points(&m).len(), 0);
    assert_eq!(lines(&m), vec![((0, 0), (5, 5))]);
    assert!(no_markers(&m));
    // moving further extends the line's end live
    m.on_mouse_move(&args(9, 2));
    assert_eq!(lines(&m), vec![((0, 0), (9, 2))]);
    // pressing again starts the end placement; escape cleans the segment up
    m.on_mouse_down(&args(9, 2));
    m.on_key_pressed(&KeyboardEventArgs::pressing(VirtualKeyCode::Escape));
    assert!(matches!(m.current_state(), State::Idle(_)));
    assert_eq!(lines(&m).len(), 0);
    assert_eq!(points(&m).len(), 0);
    assert!(no_markers(&m));
}

#[test]
fn line_commit_then_new_segment_escape_keeps_the_line() {
    let mut m = Model::new();
    m.on_button_clicked(&ButtonType::Line);
    m.on_mouse_down(&args(0, 0));
    m.on_mouse_move(&args(5, 5));
    m.on_mouse_up(&args(5, 5));
    // second press commits the end; release restarts the cycle
    m.on_mouse_down(&args(5, 5));
    m.on_mouse_up(&args(5, 5));
    assert_eq!(lines(&m), vec![((0, 0), (5, 5))]);
    assert_eq!(selected_count(&m), 0);
    // begin a new segment, then abandon it: the placed line remains
    m.on_mouse_down(&args(8, 8));
    assert_eq!(points(&m), vec![(8, 8)]);
    m.on_key_pressed(&KeyboardEventArgs::pressing(VirtualKeyCode::Escape));
    assert!(matches!(m.current_state(), State::Idle(_)));
    assert_eq!(lines(&m), vec![((0, 0), (5, 5))]);
    assert_eq!(points(&m).len(), 0);
    assert!(no_markers(&m));
}

#[test]
fn escape_before_release_removes_the_provisional_vertex() {
    let mut m = Model::new();
    m.on_button_clicked(&ButtonType::Line);
    let before = points(&m).len();
    m.on_mouse_down(&args(3, 4));
    m.on_key_pressed(&KeyboardEventArgs::pressing(VirtualKeyCode::Escape));
    assert!(matches!(m.current_state(), State::Idle(_)));
    assert_eq!(points(&m).len(), before);
    assert_eq!(selected_count(&m), 0);
    assert!(no_markers(&m));
}

#[test]
fn escape_mid_press_removes_the_unfinished_point() {
    let mut m = Model::new();
    m.on_button_clicked(&ButtonType::Point);
    m.on_mouse_down(&args(10, 10));
    assert_eq!(points(&m).len(), 1);
    // the pair was never completed, so the point does not count
    m.on_key_pressed(&KeyboardEventArgs::pressing(VirtualKeyCode::Escape));
    assert!(matches!(m.current_state(), State::Idle(_)));
    assert_eq!(points(&m).len(), 0);
    assert!(no_markers(&m));
}

#[test]
fn no_marker_survives_any_event() {
    let mut m = Model::new();
    m.on_button_clicked(&ButtonType::Line);
    assert!(no_markers(&m));
    m.on_mouse_down(&args(1, 1));
    assert!(no_markers(&m));
    m.on_mouse_move(&args(2, 2));
    assert!(no_markers(&m));
    m.on_mouse_up(&args(2, 2));
    assert!(no_markers(&m));
    m.on_button_clicked(&ButtonType::Snap);
    assert!(no_markers(&m));
    m.on_key_pressed(&KeyboardEventArgs::pressing(VirtualKeyCode::Escape));
    assert!(no_markers(&m));
}

#[test]
fn arc_mode_places_three_vertices() {
    let mut m = Model::new();
    m.on_button_clicked(&ButtonType::Arc);
    match m.current_state() {
        State::AddArc(aa) => assert_eq!(
            aa.nested,
            sketchpad::add_arc_mode::AddArcSubstate::WaitingToPlaceStart
        ),
        other => panic!("expected arc mode, got {:?}", other),
    }
    // start vertex
    m.on_mouse_down(&args(0, 0));
    m.on_mouse_up(&args(0, 0));
    // end vertex: the provisional geometry is a line until the end commits
    m.on_mouse_move(&args(10, 0));
    m.on_mouse_down(&args(10, 0));
    m.on_mouse_up(&args(10, 0));
    // control vertex bends the arc
    m.on_mouse_move(&args(5, 7));
    m.on_mouse_down(&args(5, 7));
    m.on_mouse_up(&args(5, 7));
    let arcs: Vec<_> = entities(&m)
        .into_iter()
        .filter_map(|e| match e.drawing_object {
            Some(obj) => match obj.geometry {
                Geometry::Arc(a, b, c) => Some(((a.x, a.y), (b.x, b.y), (c.x, c.y))),
                _ => None,
            },
            None => None,
        })
        .collect();
    assert_eq!(arcs, vec![((0, 0), (10, 0), (5, 7))]);
    assert_eq!(selected_count(&m), 0);
    assert!(no_markers(&m));
}

#[test]
fn switching_modes_cancels_the_edit_in_progress() {
    let mut m = Model::new();
    m.on_button_clicked(&ButtonType::Point);
    m.on_mouse_down(&args(6, 6));
    assert_eq!(points(&m).len(), 1);
    // the point is still provisional; switching to line mode tears it down
    m.on_button_clicked(&ButtonType::Line);
    assert_eq!(points(&m).len(), 0);
    match m.current_state() {
        State::AddLine(al) => assert_eq!(
            al.nested,
            sketchpad::add_line_mode::AddLineSubstate::WaitingToPlaceStart
        ),
        other => panic!("expected line mode, got {:?}", other),
    }
}

#[test]
fn select_button_returns_to_idle() {
    let mut m = Model::new();
    m.on_button_clicked(&ButtonType::Point);
    m.on_button_clicked(&ButtonType::Select);
    assert!(matches!(m.current_state(), State::Idle(_)));
    assert_eq!(m.current_state().kind_at(), StateKind::Idle);
}

#[test]
fn unmatched_release_is_ignored() {
    // a pointer-up with no matching pointer-down is a protocol violation
    // resolved as a no-op
    let mut m = Model::new();
    m.on_button_clicked(&ButtonType::Point);
    m.on_mouse_up(&args(4, 4));
    assert_eq!(points(&m).len(), 0);
    match m.current_state() {
        State::AddPoint(ap) => assert_eq!(
            ap.nested,
            sketchpad::add_point_mode::AddPointSubstate::WaitingToPlace
        ),
        other => panic!("expected point mode, got {:?}", other),
    }
}

#[test]
fn move_in_waiting_state_suppresses_redraw() {
    let mut m = Model::new();
    let render = m.on_mouse_move(&args(2, 3));
    assert!(!render);
    m.on_button_clicked(&ButtonType::Point);
    let render = m.on_mouse_move(&args(2, 3));
    assert!(!render);
    m.on_mouse_down(&args(2, 3));
    let render = m.on_mouse_move(&args(4, 4));
    assert!(render);
}
