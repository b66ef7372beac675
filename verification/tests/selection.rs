//! Selection, translation, panning and the spatial query on the
//! application context.

use sketchpad::geometry::{Geometry, Point, Vector};
use sketchpad::model::Model;
use sketchpad::modes::{MouseButtons, MouseEventArgs};
use sketchpad::msg::ButtonType;

fn args(x: i64, y: i64) -> MouseEventArgs {
    MouseEventArgs {
        location: Point { x, y },
        cursor: Point { x, y },
        button_state: MouseButtons::left_button(),
    }
}

/// Places one committed point at (x, y) and returns its entity id.
fn place_point(m: &mut Model, x: i64, y: i64) -> u64 {
    m.on_button_clicked(&ButtonType::Point);
    m.on_mouse_down(&args(x, y));
    m.on_mouse_up(&args(x, y));
    let w = m.world();
    let mut found = None;
    for i in 0..w.num_entities() {
        if let Some(e) = w.entity_at(i) {
            if let Some(obj) = e.drawing_object {
                if let Geometry::Point(p) = obj.geometry {
                    if p.x == x && p.y == y {
                        found = Some(e.id);
                    }
                }
            }
        }
    }
    found.expect("the placed point should exist")
}

fn scene_digest(m: &Model) -> String {
    let w = m.world();
    let mut out = String::new();
    for i in 0..w.num_entities() {
        out.push_str(&format!("{:?};", w.entity_at(i).unwrap()));
    }
    out
}

#[test]
fn select_then_query_round_trip() {
    let mut m = Model::new();
    let id = place_point(&mut m, 3, 4);
    assert!(!m.world().is_selected(id));
    m.ctx.select(id);
    assert!(m.ctx.store.is_selected(id));
    m.ctx.unselect_all();
    assert!(!m.ctx.store.is_selected(id));
}

#[test]
fn unselect_all_twice_equals_once() {
    let mut m = Model::new();
    let id = place_point(&mut m, 3, 4);
    m.ctx.select(id);
    m.ctx.unselect_all();
    let once = scene_digest(&m);
    m.ctx.unselect_all();
    let twice = scene_digest(&m);
    assert_eq!(once, twice);
}

#[test]
fn translate_selection_moves_only_selected_geometry() {
    let mut m = Model::new();
    let a = place_point(&mut m, 1, 1);
    let b = place_point(&mut m, 5, 5);
    m.ctx.select(a);
    m.ctx.translate_selection(Vector { dx: 10, dy: -2 });
    let w = m.world();
    let mut locs = Vec::new();
    for i in 0..w.num_entities() {
        if let Some(e) = w.entity_at(i) {
            if let Some(obj) = e.drawing_object {
                if let Geometry::Point(p) = obj.geometry {
                    locs.push((e.id, p.x, p.y));
                }
            }
        }
    }
    assert!(locs.contains(&(a, 11, -1)));
    assert!(locs.contains(&(b, 5, 5)));
}

#[test]
fn entities_under_point_respects_the_pick_box() {
    let mut m = Model::new();
    let id = place_point(&mut m, 10, 10);
    // at scale 1, anything within 3 drawing units on each axis is under
    assert!(m.ctx.entities_under_point(Point { x: 10, y: 10 }).contains(&id));
    assert!(m.ctx.entities_under_point(Point { x: 13, y: 10 }).contains(&id));
    assert!(!m.ctx.entities_under_point(Point { x: 14, y: 10 }).contains(&id));
    assert!(!m.ctx.entities_under_point(Point { x: 10, y: 20 }).contains(&id));
}

#[test]
fn pan_viewport_moves_the_centre() {
    let mut m = Model::new();
    let window = m.ctx.viewport();
    m.ctx.pan_viewport(Vector { dx: 7, dy: -3 });
    let vp = m
        .world()
        .entity(window)
        .expect("window entity exists")
        .viewport
        .expect("window carries the viewport");
    assert_eq!((vp.centre.x, vp.centre.y), (7, -3));
}

#[test]
fn suppress_redraw_is_a_one_shot_hint() {
    let mut m = Model::new();
    assert!(!m.ctx.suppress_redraw);
    m.ctx.suppress_redraw();
    assert!(m.ctx.suppress_redraw);
    // the next processed event resets the hint
    let render = m.on_mouse_down(&args(0, 0));
    assert!(render);
    assert!(!m.ctx.suppress_redraw);
}
