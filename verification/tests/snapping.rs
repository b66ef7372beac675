//! Grid snapping: the arithmetic, the toggle, and command resolution.

use sketchpad::geometry::{Geometry, Point, snap_coord, snap_point, sat_add_i64, GRID_SPACING};
use sketchpad::model::Model;
use sketchpad::modes::{MouseButtons, MouseEventArgs};
use sketchpad::msg::ButtonType;

fn args(x: i64, y: i64) -> MouseEventArgs {
    MouseEventArgs {
        location: Point { x, y },
        cursor: Point { x, y },
        button_state: MouseButtons::left_button(),
    }
}

fn point_locations(m: &Model) -> Vec<(i64, i64)> {
    let w = m.world();
    let mut v = Vec::new();
    for i in 0..w.num_entities() {
        if let Some(e) = w.entity_at(i) {
            if let Some(obj) = e.drawing_object {
                if let Geometry::Point(p) = obj.geometry {
                    v.push((p.x, p.y));
                }
            }
        }
    }
    v
}

#[test]
fn snap_coord_rounds_to_nearest_multiple() {
    assert_eq!(snap_coord(0, 20), 0);
    assert_eq!(snap_coord(9, 20), 0);
    assert_eq!(snap_coord(10, 20), 20); // a tie rounds away from zero
    assert_eq!(snap_coord(11, 20), 20);
    assert_eq!(snap_coord(31, 20), 40);
    assert_eq!(snap_coord(49, 20), 40);
    assert_eq!(snap_coord(-9, 20), 0);
    assert_eq!(snap_coord(-10, 20), -20);
    assert_eq!(snap_coord(-31, 20), -40);
    assert_eq!(snap_coord(40, 20), 40);
}

#[test]
fn snap_point_snaps_both_coordinates() {
    let p = snap_point(Point { x: 13, y: 27 }, GRID_SPACING);
    assert_eq!((p.x, p.y), (20, 20));
}

#[test]
fn saturating_add_clamps_at_the_bounds() {
    assert_eq!(sat_add_i64(1, 2), 3);
    assert_eq!(sat_add_i64(i64::MAX, 1), i64::MAX);
    assert_eq!(sat_add_i64(i64::MIN, -1), i64::MIN);
    assert_eq!(sat_add_i64(i64::MAX, -1), i64::MAX - 1);
}

#[test]
fn snap_button_flips_the_toggle_and_the_grid_flag() {
    let mut m = Model::new();
    assert!(!m.snap_enabled());
    m.on_button_clicked(&ButtonType::Snap);
    assert!(m.snap_enabled());
    let w = m.world();
    let mut grid_flags = Vec::new();
    for i in 0..w.num_entities() {
        if let Some(e) = w.entity_at(i) {
            if let Some(obj) = e.drawing_object {
                if let Geometry::Grid(g) = obj.geometry {
                    grid_flags.push(g.snap);
                }
            }
        }
    }
    assert_eq!(grid_flags, vec![true]);
    m.on_button_clicked(&ButtonType::Snap);
    assert!(!m.snap_enabled());
}

#[test]
fn point_placement_snaps_only_when_enabled() {
    // with snapping on, a point requested at (10,10) lands on the grid
    let mut m = Model::new();
    m.on_button_clicked(&ButtonType::Snap);
    m.on_button_clicked(&ButtonType::Point);
    m.on_mouse_down(&args(10, 10));
    m.on_mouse_up(&args(10, 10));
    assert_eq!(point_locations(&m), vec![(20, 20)]);

    // with snapping off, the same request lands exactly where asked
    let mut m2 = Model::new();
    m2.on_button_clicked(&ButtonType::Point);
    m2.on_mouse_down(&args(10, 10));
    m2.on_mouse_up(&args(10, 10));
    assert_eq!(point_locations(&m2), vec![(10, 10)]);
}

#[test]
fn line_start_snaps_but_free_end_follows_the_pointer() {
    let mut m = Model::new();
    m.on_button_clicked(&ButtonType::Snap);
    m.on_button_clicked(&ButtonType::Line);
    m.on_mouse_down(&args(13, 27));
    assert_eq!(point_locations(&m), vec![(20, 20)]);
    m.on_mouse_move(&args(45, 33));
    m.on_mouse_up(&args(45, 33));
    let w = m.world();
    let mut lines = Vec::new();
    for i in 0..w.num_entities() {
        if let Some(e) = w.entity_at(i) {
            if let Some(obj) = e.drawing_object {
                if let Geometry::Line(a, b) = obj.geometry {
                    lines.push(((a.x, a.y), (b.x, b.y)));
                }
            }
        }
    }
    assert_eq!(lines, vec![((20, 20), (45, 33))]);
}
