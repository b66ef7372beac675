//! The laws the editor keeps. Each public proof function states one of
//! them over the same spec functions the executable contracts use.

use vstd::prelude::*;
use vstd::arithmetic::div_mod::{
    lemma_fundamental_div_mod, lemma_mod_bound, lemma_mod_multiples_basic,
};
use crate::components::{AddPointCmd, Entity};
use crate::geometry::{
    GRID_SPACING, Geometry, Point, nearest_multiple_mag, spec_snap_coord, spec_snap_point,
};
use crate::keyboard_event_args::KeyboardEventArgs;
use crate::model::{ModelView, command_ok, selected_have_geometry, spec_step_button, spec_step_key, spec_step_mouse_down, spec_step_mouse_move, spec_step_mouse_up};
use crate::modes::{Idle, MouseEventArgs, State, sv_add_point, sv_cursor, sv_delete, sv_unselect};
use crate::store::{
    StoreView, has_id, spec_is_selected, spec_put_add_point, spec_put_delete, spec_set_selected,
    spec_unselect_entities,
};
use crate::systems::{
    lemma_first_add_arc_none, lemma_first_add_line_none, lemma_first_add_point_after_put,
    lemma_first_add_point_none, lemma_pipeline_consumes_markers, lemma_surviving_all_kept,
    lemma_surviving_members, lemma_surviving_push, lemma_surviving_put_delete,
    spec_any_add_point, spec_clear_add_markers, spec_delete_pass, spec_delete_requested,
    spec_draw_pass, spec_first_add_arc, spec_first_add_line, spec_first_add_point,
    spec_follow_cursor, spec_follow_entity, spec_point_entity, spec_run_systems, spec_snap_markers,
    spec_snap_pass, spec_surviving_entities, spec_without_add_markers, spec_without_delete,
};

verus! {

/// The absolute value of an integer.
pub open spec fn abs_int(x: int) -> int {
    if x >= 0 {
        x
    } else {
        -x
    }
}

/// Clearing the selection twice leaves the same scene as clearing it once.
pub proof fn lemma_unselect_all_idempotent(s: Seq<Entity>)
    ensures
        spec_unselect_entities(spec_unselect_entities(s)) =~= spec_unselect_entities(s),
{
}

/// Selecting an existing entity makes it selected; clearing the selection
/// makes every entity unselected, whatever the scene was.
pub proof fn lemma_select_round_trip(s: Seq<Entity>, e: u64)
    requires
        has_id(s, e),
    ensures
        spec_is_selected(spec_set_selected(s, e, true), e),
        !spec_is_selected(spec_unselect_entities(s), e),
{
    let i = choose|i: int| 0 <= i < s.len() && s[i].id == e;
    assert(spec_set_selected(s, e, true)[i].id == e && spec_set_selected(s, e, true)[i].selected);
}

/// What the snap arithmetic returns is a grid point, it lies within half a
/// grid spacing of the requested coordinate, and no grid point lies closer.
/// A coordinate already on the grid stays put.
pub proof fn lemma_snap_coord_is_nearest(v: int, g: nat)
    requires
        1 <= g,
        -(i64::MAX - g) <= v <= i64::MAX - g,
    ensures
        spec_snap_coord(v, g) % (g as int) == 0,
        2 * abs_int(spec_snap_coord(v, g) - v) <= g,
        forall|m: int|
            #[trigger] (m % (g as int)) == 0 ==> abs_int(spec_snap_coord(v, g) - v) <= abs_int(
                m - v,
            ),
        v % (g as int) == 0 ==> spec_snap_coord(v, g) == v,
{
    let gi = g as int;
    if v >= 0 {
        lemma_nearest_mag_props(v as nat, g);
    } else {
        lemma_nearest_mag_props((-v) as nat, g);
        let u = (-v) as nat;
        let s = nearest_multiple_mag(u, g) as int;
        assert((-s) % gi == 0) by {
            lemma_fundamental_div_mod(s, gi);
            lemma_fundamental_div_mod_neg(s, gi);
        }
    }
    let s = spec_snap_coord(v, g);
    assert forall|m: int| #[trigger] (m % gi) == 0 implies abs_int(s - v) <= abs_int(m - v) by {
        if m != s {
            assert((m - s) % gi == 0) by {
                lemma_mod_diff_zero(m, s, gi);
            }
            let t = (m - s) / gi;
            lemma_fundamental_div_mod(m - s, gi);
            assert(m - s == gi * t);
            assert(t != 0) by {
                if t == 0 {
                    assert(m - s == gi * 0);
                }
            }
            assert(abs_int(gi * t) >= gi) by (nonlinear_arith)
                requires
                    gi >= 1,
                    t != 0,
            ;
        }
    }
}

/// A difference of two multiples of `g` is a multiple of `g`.
proof fn lemma_mod_diff_zero(a: int, b: int, g: int)
    requires
        g >= 1,
        a % g == 0,
        b % g == 0,
    ensures
        (a - b) % g == 0,
{
    lemma_fundamental_div_mod(a, g);
    lemma_fundamental_div_mod(b, g);
    let qa = a / g;
    let qb = b / g;
    assert(a - b == g * qa - g * qb);
    assert(g * qa - g * qb == g * (qa - qb)) by (nonlinear_arith);
    lemma_mod_multiples_basic(qa - qb, g);
}

/// The negation of a multiple of `g` is a multiple of `g`.
proof fn lemma_fundamental_div_mod_neg(s: int, g: int)
    requires
        g >= 1,
        s % g == 0,
    ensures
        (-s) % g == 0,
{
    lemma_fundamental_div_mod(s, g);
    let q = s / g;
    assert(-s == g * (-q)) by (nonlinear_arith)
        requires
            s == g * q + s % g,
            s % g == 0,
    ;
    lemma_mod_multiples_basic(-q, g);
}

/// Snapping an already snapped coordinate changes nothing.
pub proof fn lemma_snap_coord_idempotent(v: int, g: nat)
    requires
        1 <= g,
        -(i64::MAX - 2 * g) <= v <= i64::MAX - 2 * g,
    ensures
        spec_snap_coord(spec_snap_coord(v, g), g) == spec_snap_coord(v, g),
{
    lemma_snap_coord_is_nearest(v, g);
    let s = spec_snap_coord(v, g);
    lemma_snap_coord_is_nearest(s, g);
}

/// Snapping an already snapped point changes nothing.
pub proof fn lemma_snap_point_idempotent(p: Point, g: nat)
    requires
        1 <= g,
        -(i64::MAX - 2 * g) <= p.x <= i64::MAX - 2 * g,
        -(i64::MAX - 2 * g) <= p.y <= i64::MAX - 2 * g,
    ensures
        spec_snap_point(spec_snap_point(p, g), g) == spec_snap_point(p, g),
{
    lemma_snap_coord_idempotent(p.x as int, g);
    lemma_snap_coord_idempotent(p.y as int, g);
}

/// Whether `e` carries point geometry.
pub open spec fn is_point_entity(e: Entity) -> bool {
    match e.drawing_object {
        Some(o) => o.geometry is Point,
        None => false,
    }
}

/// How many committed-or-provisional point entities the scene holds.
pub open spec fn count_points(s: Seq<Entity>) -> nat
    decreases s.len(),
{
    if s.len() == 0 {
        0
    } else {
        count_points(s.drop_last()) + (if is_point_entity(s.last()) {
            1nat
        } else {
            0nat
        })
    }
}

/// Appending one entity raises the point count by one exactly when it is a
/// point.
pub proof fn lemma_count_points_push(s: Seq<Entity>, e: Entity)
    ensures
        count_points(s.push(e)) == count_points(s) + (if is_point_entity(e) {
            1nat
        } else {
            0nat
        }),
{
    assert(s.push(e).drop_last() =~= s);
    assert(s.push(e).last() == e);
}

/// Stores that agree pointwise on which entities are points have the same
/// point count.
pub proof fn lemma_count_points_pointwise(s1: Seq<Entity>, s2: Seq<Entity>)
    requires
        s1.len() == s2.len(),
        forall|i: int| 0 <= i < s1.len() ==> is_point_entity(#[trigger] s2[i]) == is_point_entity(
            s1[i],
        ),
    ensures
        count_points(s1) == count_points(s2),
    decreases s1.len(),
{
    if s1.len() > 0 {
        lemma_count_points_pointwise(s1.drop_last(), s2.drop_last());
    }
}

/// The one scene change a pointer press makes from a waiting state: the
/// selection is cleared and one fresh, selected point vertex appears at the
/// (possibly snapped) press location, which also becomes the cursor.
pub proof fn lemma_place_start_down(
    sv: StoreView,
    command: u64,
    layer: u64,
    loc: Point,
    snap: bool,
)
    requires
        sv.no_markers(),
        command_ok(sv.entities, command),
        sv.next_id < u64::MAX,
    ensures
        ({
            let eff = if snap {
                spec_snap_point(loc, GRID_SPACING as nat)
            } else {
                loc
            };
            let sv1 = sv_add_point(sv_cursor(sv_unselect(sv), loc), command, layer);
            let r = spec_run_systems(sv1, snap);
            &&& r.entities =~= spec_unselect_entities(sv.entities).push(
                spec_point_entity(sv.next_id, eff, layer),
            )
            &&& r.next_id == sv.next_id + 1
            &&& r.cursor == eff
        }),
{
    let g = GRID_SPACING as nat;
    let eff = if snap {
        spec_snap_point(loc, g)
    } else {
        loc
    };
    let u = spec_unselect_entities(sv.entities);
    let cmd = AddPointCmd { layer };
    let e1 = spec_put_add_point(u, command, cmd);
    let sv1 = sv_add_point(sv_cursor(sv_unselect(sv), loc), command, layer);
    assert(sv1.entities =~= e1);
    assert(sv1.cursor == loc);
    assert(sv1.next_id == sv.next_id);

    // the staged command is visible
    let wi = choose|i: int|
        0 <= i < sv.entities.len() && sv.entities[i].id == command && sv.entities[i].drawing_object
            is None;
    assert(u[wi].id == command);
    assert(e1[wi].add_point == Some(cmd));

    // snap pass: marker bodies carry no location, so only the cursor moves
    let v1 = spec_snap_pass(sv1, snap, g);
    assert(v1.entities =~= e1) by {
        if snap {
            assert forall|i: int| 0 <= i < e1.len() implies spec_snap_markers(e1[i], g)
                == e1[i] by {
                assert(e1[i].add_line is None && e1[i].add_arc is None);
            }
        }
    }
    assert(v1.cursor == eff) by {
        if snap {
            assert(spec_any_add_point(e1));
        }
    }
    assert(v1.next_id == sv.next_id);

    // no deletion was requested
    let v2 = spec_delete_pass(v1);
    assert(v2 == v1) by {
        assert(!spec_delete_requested(v1.entities)) by {
            assert(forall|i: int| 0 <= i < e1.len() ==> !(#[trigger] e1[i]).delete);
        }
    }

    // the draw pass creates exactly the one point and consumes the command
    let ap = spec_first_add_point(v2.entities);
    assert(ap == Some(cmd)) by {
        assert(forall|i: int| 0 <= i < u.len() ==> (#[trigger] u[i]).add_point is None);
        lemma_first_add_point_after_put(u, command, cmd);
        assert(has_id(u, command));
        assert(spec_first_add_point(e1) == spec_first_add_point(v2.entities));
    }
    assert(spec_first_add_line(v2.entities) is None) by {
        lemma_first_add_line_none(v2.entities);
    }
    assert(spec_first_add_arc(v2.entities) is None) by {
        lemma_first_add_arc_none(v2.entities);
    }
    let pt = spec_point_entity(sv.next_id, eff, layer);
    let s3 = v2.entities.push(pt);
    let r = spec_run_systems(sv1, snap);
    assert(r == spec_draw_pass(v2));
    assert(r.entities =~= u.push(pt)) by {
        assert forall|i: int| 0 <= i < s3.len() implies spec_follow_entity(
            spec_without_add_markers(s3[i]),
            eff,
        ) == u.push(pt)[i] by {
            if i < e1.len() {
                assert(s3[i] == e1[i]);
                assert(spec_without_add_markers(e1[i]) == u[i]);
                assert(!u[i].selected);
            } else {
                assert(s3[i] == pt);
                assert(spec_without_add_markers(pt) == pt);
            }
        }
    }
    assert(r.next_id == sv.next_id + 1);
    assert(r.cursor == eff);
}

/// With snapping enabled, a point requested at `loc` is created on the
/// grid, within half a spacing of `loc` on each axis and closer than any
/// other grid point; with snapping disabled it is created exactly at
/// `loc`.
pub proof fn lemma_add_point_resolution(
    sv: StoreView,
    command: u64,
    layer: u64,
    loc: Point,
    snap: bool,
)
    requires
        sv.no_markers(),
        command_ok(sv.entities, command),
        sv.next_id < u64::MAX,
        -(i64::MAX - GRID_SPACING) <= loc.x <= i64::MAX - GRID_SPACING,
        -(i64::MAX - GRID_SPACING) <= loc.y <= i64::MAX - GRID_SPACING,
    ensures
        ({
            let r = spec_run_systems(
                sv_add_point(sv_cursor(sv_unselect(sv), loc), command, layer),
                snap,
            );
            let g = GRID_SPACING as int;
            &&& r.entities.len() == sv.entities.len() + 1
            &&& r.entities.last().drawing_object is Some
            &&& !snap ==> r.entities.last().drawing_object->0.geometry == Geometry::Point(loc)
            &&& snap ==> (r.entities.last().drawing_object->0.geometry matches Geometry::Point(p)
                && (p.x as int) % g == 0 && (p.y as int) % g == 0 && 2 * abs_int(
                p.x - loc.x,
            ) <= g && 2 * abs_int(p.y - loc.y) <= g)
        }),
{
    lemma_place_start_down(sv, command, layer, loc, snap);
    let g = GRID_SPACING as nat;
    if snap {
        lemma_snap_coord_is_nearest(loc.x as int, g);
        lemma_snap_coord_is_nearest(loc.y as int, g);
        let p = spec_snap_point(loc, g);
        assert(-(i64::MAX as int) <= spec_snap_coord(loc.x as int, g) <= i64::MAX);
        assert(p.x == spec_snap_coord(loc.x as int, g) && p.y == spec_snap_coord(loc.y as int, g));
    }
}

/// The one scene change a cancellation makes: every provisional entity is
/// torn down and the staged `Delete` command is consumed; the survivors
/// keep their places and nothing remains selected.
pub proof fn lemma_cancel_cleanup(sv: StoreView, command: u64, snap: bool)
    requires
        sv.no_markers(),
        selected_have_geometry(sv.entities),
        command_ok(sv.entities, command),
    ensures
        ({
            let r = spec_run_systems(sv_delete(sv, command), snap);
            &&& r.entities =~= spec_surviving_entities(sv.entities)
            &&& r.next_id == sv.next_id
            &&& r.cursor == sv.cursor
            &&& r.nothing_selected()
            &&& r.no_markers()
        }),
{
    let g = GRID_SPACING as nat;
    let d = spec_put_delete(sv.entities, command);
    let sv1 = sv_delete(sv, command);
    assert(sv1.entities =~= d);

    // snap pass: no creation command is pending, so nothing moves
    let v1 = spec_snap_pass(sv1, snap, g);
    assert(v1 =~= sv1) by {
        if snap {
            assert forall|i: int| 0 <= i < d.len() implies spec_snap_markers(d[i], g) == d[i] by {
                assert(d[i].add_line is None && d[i].add_arc is None);
            }
            assert(!spec_any_add_point(d)) by {
                assert(forall|i: int| 0 <= i < d.len() ==> (#[trigger] d[i]).add_point is None);
            }
        }
    }

    // the deletion pass runs and removes exactly the provisional entities
    let wi = choose|i: int|
        0 <= i < sv.entities.len() && sv.entities[i].id == command && sv.entities[i].drawing_object
            is None;
    assert(d[wi].delete);
    assert(spec_delete_requested(v1.entities));
    let v2 = spec_delete_pass(v1);
    let surv = spec_surviving_entities(sv.entities);
    assert(v2.entities =~= surv) by {
        lemma_surviving_put_delete(sv.entities, command);
        assert(spec_surviving_entities(v1.entities) == spec_surviving_entities(d));
    }

    // the survivors are unselected and unmarked
    lemma_surviving_members(sv.entities);
    assert forall|k: int| 0 <= k < surv.len() implies !(#[trigger] surv[k]).selected
        && !surv[k].has_marker() by {
        let j = choose|j: int|
            0 <= j < sv.entities.len() && #[trigger] surv[k] == spec_without_delete(
                sv.entities[j],
            ) && !sv.entities[j].is_provisional();
        assert(!sv.entities[j].has_marker());
        if sv.entities[j].selected {
            assert(sv.entities[j].drawing_object is Some);
        }
    }

    // the draw pass has nothing to create and nothing follows the cursor
    assert(spec_first_add_point(v2.entities) is None) by {
        lemma_first_add_point_none(v2.entities);
    }
    assert(spec_first_add_line(v2.entities) is None) by {
        lemma_first_add_line_none(v2.entities);
    }
    assert(spec_first_add_arc(v2.entities) is None) by {
        lemma_first_add_arc_none(v2.entities);
    }
    let r = spec_run_systems(sv1, snap);
    assert(r == spec_draw_pass(v2));
    assert(r.entities =~= surv) by {
        assert forall|i: int| 0 <= i < surv.len() implies spec_follow_entity(
            spec_without_add_markers(surv[i]),
            v2.cursor,
        ) == surv[i] by {
            assert(spec_without_add_markers(surv[i]) == surv[i]);
            assert(!surv[i].selected);
        }
    }
    assert(r.nothing_selected());
    assert(r.no_markers());
}

/// After any single fully processed event, the command entity carries no
/// `AddPoint`, `AddLine`, `AddArc` or `Delete` marker: the systems consume
/// every marker within the event that staged it.
pub proof fn lemma_no_marker_after_mouse_down(m: ModelView, args: MouseEventArgs)
    ensures
        spec_step_mouse_down(m, args).store.no_markers(),
{
    let r = crate::model::spec_state_mouse_down(m.state, m.store, m.command, m.default_layer, args.location);
    lemma_pipeline_consumes_markers(r.1, m.snap);
}

/// After a pointer release is fully processed, no command marker remains.
pub proof fn lemma_no_marker_after_mouse_up(m: ModelView, args: MouseEventArgs)
    ensures
        spec_step_mouse_up(m, args).store.no_markers(),
{
    let r = crate::model::spec_state_mouse_up(m.state, m.store, m.command, m.default_layer);
    lemma_pipeline_consumes_markers(r.1, m.snap);
}

/// After a pointer move is fully processed, no command marker remains.
pub proof fn lemma_no_marker_after_mouse_move(m: ModelView, args: MouseEventArgs)
    ensures
        spec_step_mouse_move(m, args).store.no_markers(),
{
    let r = crate::model::spec_state_mouse_move(m.state, m.store, args.location);
    lemma_pipeline_consumes_markers(r.0, m.snap);
}

/// After a key press is fully processed, no command marker remains.
pub proof fn lemma_no_marker_after_key(m: ModelView, args: KeyboardEventArgs)
    ensures
        spec_step_key(m, args).store.no_markers(),
{
    let r = crate::model::spec_state_key(m.state, m.store, m.command, args);
    lemma_pipeline_consumes_markers(r.1, m.snap);
}

/// After a toolbar click is fully processed, no command marker remains.
pub proof fn lemma_no_marker_after_button(m: ModelView, b: crate::msg::ButtonType)
    ensures
        spec_step_button(m, b).store.no_markers(),
{
    let snap2 = if b == crate::msg::ButtonType::Snap {
        !m.snap
    } else {
        m.snap
    };
    let sv0 = if b == crate::msg::ButtonType::Snap {
        StoreView {
            entities: crate::model::spec_set_grid_snap(m.store.entities, snap2),
            ..m.store
        }
    } else {
        m.store
    };
    let r = crate::model::spec_state_button(m.state, sv0, m.command, b);
    lemma_pipeline_consumes_markers(r.1, snap2);
}

/// A store that keeps every entity's identity, layer and geometry, and
/// appends one fresh non-grid object on a valid layer, is well formed
/// again under the advanced identifier counter.
proof fn lemma_store_shape_after_create(
    sv: StoreView,
    e2: Seq<Entity>,
    default_layer: u64,
    command: u64,
    b: bool,
)
    requires
        sv.wf(),
        sv.next_id < u64::MAX,
        crate::store::is_layer_entity(sv.entities, default_layer),
        command_ok(sv.entities, command),
        crate::model::grids_mirror(sv.entities, b),
        e2.len() == sv.entities.len() + 1,
        forall|i: int|
            0 <= i < sv.entities.len() ==> {
                &&& (#[trigger] e2[i]).id == sv.entities[i].id
                &&& e2[i].layer == sv.entities[i].layer
                &&& e2[i].drawing_object == sv.entities[i].drawing_object
            },
        e2[sv.entities.len() as int].id == sv.next_id,
        e2[sv.entities.len() as int].layer is None,
        e2[sv.entities.len() as int].drawing_object matches Some(o) && o.layer == default_layer
            && !(o.geometry is Grid),
    ensures
        (StoreView { entities: e2, next_id: (sv.next_id + 1) as u64, cursor: sv.cursor }).wf(),
        crate::store::is_layer_entity(e2, default_layer),
        command_ok(e2, command),
        crate::model::grids_mirror(e2, b),
{
    let n = sv.entities.len() as int;
    let v2 = StoreView { entities: e2, next_id: (sv.next_id + 1) as u64, cursor: sv.cursor };
    assert forall|i: int, j: int| 0 <= i < j < e2.len() implies e2[i].id < e2[j].id by {
        if j < n {
        } else {
            assert(e2[j].id == sv.next_id);
            assert(e2[i].id == sv.entities[i].id < sv.next_id);
        }
    }
    assert forall|i: int| 0 <= i < e2.len() implies #[trigger] e2[i].id < v2.next_id by {
        if i < n {
            assert(e2[i].id == sv.entities[i].id < sv.next_id);
        }
    }
    assert(crate::store::is_layer_entity(e2, default_layer)) by {
        let w = choose|w: int|
            0 <= w < sv.entities.len() && sv.entities[w].id == default_layer && sv.entities[w].layer
                is Some && sv.entities[w].drawing_object is None;
        assert(e2[w].id == default_layer && e2[w].layer is Some && e2[w].drawing_object is None);
    }
    assert forall|i: int|
        0 <= i < e2.len() && (#[trigger] e2[i].drawing_object) is Some implies
        crate::store::is_layer_entity(e2, e2[i].drawing_object->0.layer) by {
        if i < n {
            assert(sv.entities[i].drawing_object is Some);
            let l = sv.entities[i].drawing_object->0.layer;
            assert(crate::store::is_layer_entity(sv.entities, l));
            let w = choose|w: int|
                0 <= w < sv.entities.len() && sv.entities[w].id == l && sv.entities[w].layer is Some
                    && sv.entities[w].drawing_object is None;
            assert(e2[w].id == l && e2[w].layer is Some && e2[w].drawing_object is None);
        }
    }
    assert(command_ok(e2, command)) by {
        let w = choose|w: int|
            0 <= w < sv.entities.len() && sv.entities[w].id == command
                && sv.entities[w].drawing_object is None;
        assert(e2[w].id == command && e2[w].drawing_object is None);
    }
    assert forall|i: int|
        0 <= i < e2.len() implies (crate::model::grid_flag_of(#[trigger] e2[i]) is Some
        ==> crate::model::grid_flag_of(e2[i])->0 == b) by {
        if i < n {
            assert(crate::model::grid_flag_of(e2[i]) == crate::model::grid_flag_of(
                sv.entities[i],
            ));
        }
    }
}

/// In point-placement mode, one completed press/release pair commits
/// exactly one new point entity, and leaves no provisional entity and no
/// marker behind: the waiting state and the editor's invariant return.
pub proof fn lemma_add_point_pair(m: ModelView, ad: MouseEventArgs, au: MouseEventArgs)
    requires
        m.inv(),
        m.state == State::AddPoint(
            crate::add_point_mode::AddPointMode {
                nested: crate::add_point_mode::AddPointSubstate::WaitingToPlace,
            },
        ),
        m.store.next_id < u64::MAX,
    ensures
        ({
            let m2 = spec_step_mouse_up(spec_step_mouse_down(m, ad), au);
            &&& m2.state == m.state
            &&& m2.inv()
            &&& count_points(m2.store.entities) == count_points(m.store.entities) + 1
            &&& m2.store.nothing_selected()
            &&& m2.store.no_markers()
            &&& m2.store.next_id == m.store.next_id + 1
            &&& m2.snap == m.snap
        }),
{
    let sv = m.store;
    let g = GRID_SPACING as nat;
    let eff = if m.snap {
        spec_snap_point(ad.location, g)
    } else {
        ad.location
    };
    let u = spec_unselect_entities(sv.entities);
    let pt = spec_point_entity(sv.next_id, eff, m.default_layer);
    let m1 = spec_step_mouse_down(m, ad);
    lemma_place_start_down(sv, m.command, m.default_layer, ad.location, m.snap);
    assert(m1.store.entities =~= u.push(pt));
    assert(m1.store.next_id == sv.next_id + 1);
    assert(m1.state == State::AddPoint(
        crate::add_point_mode::AddPointMode {
            nested: crate::add_point_mode::AddPointSubstate::PlacingPoint,
        },
    ));

    let m2 = spec_step_mouse_up(m1, au);
    let sv2 = sv_unselect(m1.store);
    assert(m2.state == m.state);
    assert(m2.store == spec_run_systems(sv2, m.snap));
    assert(sv2.no_markers()) by {
        assert forall|i: int| 0 <= i < sv2.entities.len() implies !(#[trigger] sv2.entities[i]).has_marker() by {
            assert(sv2.entities[i] == m1.store.entities[i].with_selected(false));
            if i < u.len() {
                assert(m1.store.entities[i] == u[i]);
                assert(!sv.entities[i].has_marker());
            } else {
                assert(m1.store.entities[i] == pt);
            }
        }
    }
    crate::systems::lemma_pipeline_idle(sv2, m.snap);
    let pt2 = pt.with_selected(false);
    let e2 = m2.store.entities;
    assert(e2 =~= u.push(pt2)) by {
        assert forall|i: int| 0 <= i < e2.len() implies e2[i] == u.push(pt2)[i] by {
            assert(sv2.entities[i] == m1.store.entities[i].with_selected(false));
            assert(!sv2.entities[i].selected);
            assert(e2[i] == spec_follow_entity(sv2.entities[i], sv2.cursor));
            if i < u.len() {
                assert(m1.store.entities[i] == u[i]);
                assert(u[i].with_selected(false) == u[i]);
            } else {
                assert(m1.store.entities[i] == pt);
            }
        }
    }
    assert(m2.store.next_id == sv.next_id + 1);
    assert(m2.store.nothing_selected()) by {
        assert forall|i: int| 0 <= i < e2.len() implies !(#[trigger] e2[i]).selected by {
            assert(e2[i] == u.push(pt2)[i]);
        }
    }
    assert(m2.store.no_markers()) by {
        assert forall|i: int| 0 <= i < e2.len() implies !(#[trigger] e2[i]).has_marker() by {
            assert(e2[i] == u.push(pt2)[i]);
            if i < u.len() {
                assert(!sv.entities[i].has_marker());
            }
        }
    }

    // the count went up by exactly one
    assert(count_points(e2) == count_points(sv.entities) + 1) by {
        lemma_count_points_pointwise(sv.entities, u);
        lemma_count_points_push(u, pt2);
        assert(is_point_entity(pt2));
        assert(count_points(e2) == count_points(u.push(pt2)));
    }

    // the invariant returns
    assert(m2.inv()) by {
        lemma_store_shape_after_create(sv, e2, m.default_layer, m.command, m.snap);
        assert(m2.store.wf()) by {
            assert(m2.store == (StoreView {
                entities: e2,
                next_id: (sv.next_id + 1) as u64,
                cursor: m2.store.cursor,
            }));
            assert((StoreView { entities: e2, next_id: (sv.next_id + 1) as u64, cursor: sv.cursor }).wf());
        }
        assert(selected_have_geometry(e2));
    }
}

/// For every sequence of press/release pairs handled in point-placement
/// mode, the number of committed point entities grows by exactly the
/// number of completed pairs, and no provisional entity or marker remains.
pub open spec fn spec_click_pairs(m: ModelView, locs: Seq<Point>) -> ModelView
    decreases locs.len(),
{
    if locs.len() == 0 {
        m
    } else {
        let a = MouseEventArgs {
            location: locs[0],
            cursor: locs[0],
            button_state: crate::modes::MouseButtons { left: true, right: false, middle: false },
        };
        spec_click_pairs(
            spec_step_mouse_up(spec_step_mouse_down(m, a), a),
            locs.subrange(1, locs.len() as int),
        )
    }
}

/// See [`spec_click_pairs`]: `n` completed pairs commit exactly `n` points.
pub proof fn lemma_add_point_pairs(m: ModelView, locs: Seq<Point>)
    requires
        m.inv(),
        m.state == State::AddPoint(
            crate::add_point_mode::AddPointMode {
                nested: crate::add_point_mode::AddPointSubstate::WaitingToPlace,
            },
        ),
        m.store.next_id + locs.len() <= u64::MAX,
    ensures
        ({
            let r = spec_click_pairs(m, locs);
            &&& count_points(r.store.entities) == count_points(m.store.entities) + locs.len()
            &&& r.store.nothing_selected()
            &&& r.store.no_markers()
            &&& r.state == m.state
            &&& r.inv()
            &&& r.store.next_id == m.store.next_id + locs.len()
        }),
    decreases locs.len(),
{
    if locs.len() == 0 {
    } else {
        let a = MouseEventArgs {
            location: locs[0],
            cursor: locs[0],
            button_state: crate::modes::MouseButtons { left: true, right: false, middle: false },
        };
        lemma_add_point_pair(m, a, a);
        let m2 = spec_step_mouse_up(spec_step_mouse_down(m, a), a);
        lemma_add_point_pairs(m2, locs.subrange(1, locs.len() as int));
    }
}

/// An in-progress line edit holds a provisional start vertex; releasing the
/// press anchors a provisional line at the vertex's effective location and
/// tears the vertex down, leaving the survivors in place.
proof fn lemma_anchor_line_up(
    sv: StoreView,
    base: Seq<Entity>,
    ptid: u64,
    eff: Point,
    ptlayer: u64,
    command: u64,
    layer: u64,
    snap: bool,
)
    requires
        sv.entities == base.push(spec_point_entity(ptid, eff, ptlayer)),
        forall|i: int|
            0 <= i < base.len() ==> !(#[trigger] base[i]).selected && !base[i].has_marker(),
        command_ok(sv.entities, command),
        ptid != command,
        sv.next_id < u64::MAX,
        snap ==> spec_snap_point(eff, GRID_SPACING as nat) == eff,
    ensures
        crate::add_line_mode::spec_effective_start(sv) == eff,
        ({
            let r = spec_run_systems(
                sv_delete(crate::modes::sv_add_line(sv, command, eff, layer), command),
                snap,
            );
            &&& r.entities =~= base.push(
                crate::systems::spec_line_entity(sv.next_id, eff, sv.cursor, layer),
            )
            &&& r.next_id == sv.next_id + 1
            &&& r.cursor == sv.cursor
        }),
{
    let g = GRID_SPACING as nat;
    let pt = spec_point_entity(ptid, eff, ptlayer);
    let cmd = crate::components::AddLineCmd { location: eff, layer };

    // the provisional vertex is the first (and only) selected point
    assert(crate::add_line_mode::spec_effective_start(sv) == eff) by {
        assert forall|i: int|
            0 <= i < base.len() implies crate::store::selected_point_of(#[trigger] base[i])
            is None by {
            assert(!base[i].selected);
        }
        crate::store::lemma_first_selected_point_push(base, pt);
        assert(crate::store::selected_point_of(pt) == Some(eff));
    }

    let albase = crate::store::spec_put_add_line(base, command, cmd);
    let al = crate::store::spec_put_add_line(sv.entities, command, cmd);
    assert(al =~= albase.push(pt));
    let x = spec_put_delete(al, command);
    let sv1 = sv_delete(crate::modes::sv_add_line(sv, command, eff, layer), command);
    assert(sv1.entities =~= x);
    assert(sv1.next_id == sv.next_id && sv1.cursor == sv.cursor);

    // the snap pass leaves the already snapped command location in place
    let v1 = spec_snap_pass(sv1, snap, g);
    assert(v1 =~= sv1) by {
        if snap {
            assert forall|i: int| 0 <= i < x.len() implies spec_snap_markers(x[i], g) == x[i] by {
                assert(x[i].add_arc is None);
                if x[i].add_line is Some {
                    assert(x[i].add_line == Some(cmd));
                    assert(spec_snap_point(cmd.location, g) == cmd.location);
                }
            }
            assert(!spec_any_add_point(x)) by {
                assert(forall|i: int| 0 <= i < x.len() ==> (#[trigger] x[i]).add_point is None);
            }
        }
    }

    // the deletion pass removes exactly the provisional vertex
    let w = choose|w: int|
        0 <= w < sv.entities.len() && sv.entities[w].id == command && sv.entities[w].drawing_object
            is None;
    assert(w < base.len()) by {
        assert(pt.drawing_object is Some);
    }
    assert(x[w].delete);
    assert(spec_delete_requested(v1.entities));
    let v2 = spec_delete_pass(v1);
    assert(v2.entities =~= albase) by {
        lemma_surviving_put_delete(al, command);
        assert(spec_surviving_entities(v1.entities) == spec_surviving_entities(x));
        assert(spec_surviving_entities(al) == spec_surviving_entities(albase.push(pt)));
        lemma_surviving_push(albase, pt);
        assert(pt.is_provisional());
        lemma_surviving_all_kept(albase);
        assert forall|i: int|
            0 <= i < albase.len() implies spec_without_delete(#[trigger] albase[i])
            == albase[i] by {
            assert(!base[i].has_marker());
        }
        assert(Seq::new(albase.len(), |i: int| spec_without_delete(albase[i])) =~= albase);
    }

    // the draw pass creates the anchored line and consumes the command
    assert(spec_first_add_point(v2.entities) is None) by {
        assert(forall|i: int|
            0 <= i < v2.entities.len() ==> (#[trigger] v2.entities[i]).add_point is None);
        lemma_first_add_point_none(v2.entities);
    }
    assert(spec_first_add_line(v2.entities) == Some(cmd)) by {
        assert(forall|i: int| 0 <= i < base.len() ==> (#[trigger] base[i]).add_line is None);
        crate::systems::lemma_first_add_line_after_put(base, command, cmd);
        assert(has_id(base, command)) by {
            assert(base[w].id == command);
        }
        assert(spec_first_add_line(v2.entities) == spec_first_add_line(albase));
    }
    assert(spec_first_add_arc(v2.entities) is None) by {
        assert(forall|i: int|
            0 <= i < v2.entities.len() ==> (#[trigger] v2.entities[i]).add_arc is None);
        lemma_first_add_arc_none(v2.entities);
    }
    let line = crate::systems::spec_line_entity(sv.next_id, eff, sv.cursor, layer);
    let r = spec_run_systems(sv1, snap);
    assert(r == spec_draw_pass(v2));
    let s2 = v2.entities.push(line);
    assert(r.entities =~= base.push(line)) by {
        assert forall|i: int| 0 <= i < s2.len() implies spec_follow_entity(
            spec_without_add_markers(s2[i]),
            v2.cursor,
        ) == base.push(line)[i] by {
            if i < albase.len() {
                assert(s2[i] == albase[i]);
                assert(spec_without_add_markers(albase[i]) == base[i]) by {
                    assert(!base[i].has_marker());
                }
                assert(!base[i].selected);
            } else {
                assert(s2[i] == line);
                assert(spec_without_add_markers(line) == line);
            }
        }
    }
    assert(r.next_id == sv.next_id + 1);
    assert(r.cursor == sv.cursor);
}

/// Escaping an in-progress line edit before the first release removes the
/// provisional start vertex and its command: the scene returns exactly to
/// what it was before the edit began, and the editor returns to idle.
pub proof fn lemma_line_escape_restores_scene(m: ModelView, ad: MouseEventArgs, esc: KeyboardEventArgs)
    requires
        m.inv(),
        m.state == State::AddLine(
            crate::add_line_mode::AddLineMode {
                nested: crate::add_line_mode::AddLineSubstate::WaitingToPlaceStart,
            },
        ),
        m.store.next_id < u64::MAX,
        esc.key == Some(crate::keyboard_event_args::VirtualKeyCode::Escape),
    ensures
        ({
            let m2 = spec_step_key(spec_step_mouse_down(m, ad), esc);
            &&& m2.state == State::Idle(Idle)
            &&& m2.store.entities =~= m.store.entities
            &&& m2.store.no_markers()
            &&& m2.inv()
        }),
{
    let sv = m.store;
    let g = GRID_SPACING as nat;
    let eff = if m.snap {
        spec_snap_point(ad.location, g)
    } else {
        ad.location
    };
    let u = spec_unselect_entities(sv.entities);
    let pt = spec_point_entity(sv.next_id, eff, m.default_layer);
    let m1 = spec_step_mouse_down(m, ad);
    lemma_place_start_down(sv, m.command, m.default_layer, ad.location, m.snap);
    assert(m1.store.entities =~= u.push(pt));
    assert(u =~= sv.entities) by {
        assert forall|i: int| 0 <= i < sv.entities.len() implies u[i] == sv.entities[i] by {
            assert(!sv.entities[i].selected);
        }
    }
    assert(m1.state == State::AddLine(
        crate::add_line_mode::AddLineMode {
            nested: crate::add_line_mode::AddLineSubstate::PlacingStart,
        },
    ));

    let m2 = spec_step_key(m1, esc);
    assert(m2.state == State::Idle(Idle));
    assert(m2.store == spec_run_systems(sv_delete(m1.store, m.command), m.snap));
    assert(m1.store.no_markers()) by {
        assert forall|i: int|
            0 <= i < m1.store.entities.len() implies !(#[trigger] m1.store.entities[i]).has_marker()
            by {
            assert(m1.store.entities[i] == sv.entities.push(pt)[i]);
            if i < sv.entities.len() {
                assert(!sv.entities[i].has_marker());
            }
        }
    }
    assert(selected_have_geometry(m1.store.entities)) by {
        assert forall|i: int|
            0 <= i < m1.store.entities.len() implies ((#[trigger] m1.store.entities[i]).selected
            ==> m1.store.entities[i].drawing_object is Some) by {
            assert(m1.store.entities[i] == sv.entities.push(pt)[i]);
        }
    }
    assert(command_ok(m1.store.entities, m.command)) by {
        let w = choose|w: int|
            0 <= w < sv.entities.len() && sv.entities[w].id == m.command
                && sv.entities[w].drawing_object is None;
        assert(m1.store.entities[w] == sv.entities.push(pt)[w]);
    }
    lemma_cancel_cleanup(m1.store, m.command, m.snap);
    assert(m2.store.entities =~= m.store.entities) by {
        assert(spec_surviving_entities(m1.store.entities) == spec_surviving_entities(
            sv.entities.push(pt),
        ));
        lemma_surviving_push(sv.entities, pt);
        assert(pt.is_provisional());
        lemma_surviving_all_kept(sv.entities);
        assert forall|i: int|
            0 <= i < sv.entities.len() implies spec_without_delete(#[trigger] sv.entities[i])
            == sv.entities[i] by {
            assert(!sv.entities[i].has_marker());
        }
        assert(Seq::new(sv.entities.len(), |i: int| spec_without_delete(sv.entities[i]))
            =~= sv.entities);
    }
    assert(m2.store.no_markers());
    assert(m2.inv()) by {
        assert(m2.store.next_id == sv.next_id + 1);
        assert(m2.store.wf()) by {
            assert forall|i: int| 0 <= i < m2.store.entities.len() implies #[trigger] m2.store.entities[i].id
                < m2.store.next_id by {
                assert(m2.store.entities[i] == sv.entities[i]);
            }
            assert forall|i: int, j: int|
                0 <= i < j < m2.store.entities.len() implies m2.store.entities[i].id
                < m2.store.entities[j].id by {
                assert(m2.store.entities[i] == sv.entities[i]);
                assert(m2.store.entities[j] == sv.entities[j]);
            }
            assert forall|i: int|
                0 <= i < m2.store.entities.len() && (#[trigger] m2.store.entities[i].drawing_object)
                    is Some implies crate::store::is_layer_entity(
                m2.store.entities,
                m2.store.entities[i].drawing_object->0.layer,
            ) by {
                assert(m2.store.entities[i] == sv.entities[i]);
                let l = sv.entities[i].drawing_object->0.layer;
                assert(crate::store::is_layer_entity(sv.entities, l));
                let w = choose|w: int|
                    0 <= w < sv.entities.len() && sv.entities[w].id == l && sv.entities[w].layer
                        is Some && sv.entities[w].drawing_object is None;
                assert(m2.store.entities[w] == sv.entities[w]);
            }
        }
        assert(selected_have_geometry(m2.store.entities));
        assert(crate::store::is_layer_entity(m2.store.entities, m.default_layer)) by {
            let w = choose|w: int|
                0 <= w < sv.entities.len() && sv.entities[w].id == m.default_layer
                    && sv.entities[w].layer is Some && sv.entities[w].drawing_object is None;
            assert(m2.store.entities[w] == sv.entities[w]);
        }
        assert(command_ok(m2.store.entities, m.command)) by {
            let w = choose|w: int|
                0 <= w < sv.entities.len() && sv.entities[w].id == m.command
                    && sv.entities[w].drawing_object is None;
            assert(m2.store.entities[w] == sv.entities[w]);
        }
        assert forall|i: int|
            0 <= i < m2.store.entities.len() implies (crate::model::grid_flag_of(
            #[trigger] m2.store.entities[i],
        ) is Some ==> crate::model::grid_flag_of(m2.store.entities[i])->0 == m2.snap) by {
            assert(m2.store.entities[i] == sv.entities[i]);
        }
    }
}

/// Escaping an in-progress line edit after the start was anchored (one
/// press and one release into the edit) removes the provisional line that
/// replaced the start vertex: the scene returns exactly to what it was
/// before the edit began, and the editor returns to idle.
pub proof fn lemma_line_escape_after_anchor(
    m: ModelView,
    ad: MouseEventArgs,
    au: MouseEventArgs,
    esc: KeyboardEventArgs,
)
    requires
        m.inv(),
        m.state == State::AddLine(
            crate::add_line_mode::AddLineMode {
                nested: crate::add_line_mode::AddLineSubstate::WaitingToPlaceStart,
            },
        ),
        m.store.next_id + 2 <= u64::MAX,
        esc.key == Some(crate::keyboard_event_args::VirtualKeyCode::Escape),
        -(i64::MAX - 2 * GRID_SPACING) <= ad.location.x <= i64::MAX - 2 * GRID_SPACING,
        -(i64::MAX - 2 * GRID_SPACING) <= ad.location.y <= i64::MAX - 2 * GRID_SPACING,
    ensures
        ({
            let m3 = spec_step_key(
                spec_step_mouse_up(spec_step_mouse_down(m, ad), au),
                esc,
            );
            &&& m3.state == State::Idle(Idle)
            &&& m3.store.entities =~= m.store.entities
            &&& m3.store.no_markers()
        }),
{
    let sv = m.store;
    let g = GRID_SPACING as nat;
    let eff = if m.snap {
        spec_snap_point(ad.location, g)
    } else {
        ad.location
    };
    let u = spec_unselect_entities(sv.entities);
    let pt = spec_point_entity(sv.next_id, eff, m.default_layer);

    // the press stages and the pipeline creates the provisional start vertex
    let m1 = spec_step_mouse_down(m, ad);
    lemma_place_start_down(sv, m.command, m.default_layer, ad.location, m.snap);
    assert(u =~= sv.entities) by {
        assert forall|i: int| 0 <= i < sv.entities.len() implies u[i] == sv.entities[i] by {
            assert(!sv.entities[i].selected);
        }
    }
    assert(m1.store.entities =~= sv.entities.push(pt));
    assert(m1.store.next_id == sv.next_id + 1);
    assert(m1.store.cursor == eff);
    assert(m1.state == State::AddLine(
        crate::add_line_mode::AddLineMode {
            nested: crate::add_line_mode::AddLineSubstate::PlacingStart,
        },
    ));

    // the release anchors the provisional line at the effective start
    let m2 = spec_step_mouse_up(m1, au);
    assert(command_ok(m1.store.entities, m.command)) by {
        let w = choose|w: int|
            0 <= w < sv.entities.len() && sv.entities[w].id == m.command
                && sv.entities[w].drawing_object is None;
        assert(m1.store.entities[w] == sv.entities.push(pt)[w]);
    }
    assert(sv.next_id != m.command) by {
        let w = choose|w: int|
            0 <= w < sv.entities.len() && sv.entities[w].id == m.command
                && sv.entities[w].drawing_object is None;
        assert(sv.entities[w].id < sv.next_id);
    }
    if m.snap {
        lemma_snap_point_idempotent(ad.location, g);
        assert(spec_snap_point(eff, g) == eff);
    }
    assert(m1.store.entities == sv.entities.push(pt));
    lemma_anchor_line_up(
        m1.store,
        sv.entities,
        sv.next_id,
        eff,
        m.default_layer,
        m.command,
        m.default_layer,
        m.snap,
    );
    assert(crate::add_line_mode::spec_effective_start(m1.store) == eff);
    let line = crate::systems::spec_line_entity(m1.store.next_id, eff, m1.store.cursor, m.default_layer);
    assert(m2.store.entities =~= sv.entities.push(line));
    assert(m2.store.next_id == sv.next_id + 2);
    assert(m2.state == State::AddLine(
        crate::add_line_mode::AddLineMode {
            nested: crate::add_line_mode::AddLineSubstate::WaitingToPlaceEnd,
        },
    ));

    // escape tears the provisional line down and returns to idle
    let m3 = spec_step_key(m2, esc);
    assert(m3.state == State::Idle(Idle));
    assert(m3.store == spec_run_systems(sv_delete(m2.store, m.command), m.snap));
    assert(m2.store.no_markers()) by {
        assert forall|i: int|
            0 <= i < m2.store.entities.len() implies !(#[trigger] m2.store.entities[i]).has_marker()
            by {
            assert(m2.store.entities[i] == sv.entities.push(line)[i]);
            if i < sv.entities.len() {
                assert(!sv.entities[i].has_marker());
            }
        }
    }
    assert(selected_have_geometry(m2.store.entities)) by {
        assert forall|i: int|
            0 <= i < m2.store.entities.len() implies ((#[trigger] m2.store.entities[i]).selected
            ==> m2.store.entities[i].drawing_object is Some) by {
            assert(m2.store.entities[i] == sv.entities.push(line)[i]);
        }
    }
    assert(command_ok(m2.store.entities, m.command)) by {
        let w = choose|w: int|
            0 <= w < sv.entities.len() && sv.entities[w].id == m.command
                && sv.entities[w].drawing_object is None;
        assert(m2.store.entities[w] == sv.entities.push(line)[w]);
    }
    lemma_cancel_cleanup(m2.store, m.command, m.snap);
    assert(m3.store.entities =~= m.store.entities) by {
        assert(spec_surviving_entities(m2.store.entities) == spec_surviving_entities(
            sv.entities.push(line),
        ));
        lemma_surviving_push(sv.entities, line);
        assert(line.is_provisional());
        lemma_surviving_all_kept(sv.entities);
        assert forall|i: int|
            0 <= i < sv.entities.len() implies spec_without_delete(#[trigger] sv.entities[i])
            == sv.entities[i] by {
            assert(!sv.entities[i].has_marker());
        }
        assert(Seq::new(sv.entities.len(), |i: int| spec_without_delete(sv.entities[i]))
            =~= sv.entities);
    }
    assert(m3.store.no_markers());
}

/// No creation command is pending anywhere.
pub open spec fn no_add_markers(s: Seq<Entity>) -> bool {
    forall|i: int|
        0 <= i < s.len() ==> {
            &&& (#[trigger] s[i]).add_point is None
            &&& s[i].add_line is None
            &&& s[i].add_arc is None
        }
}

/// Every pending creation command targets the given layer.
pub open spec fn markers_on_layer(s: Seq<Entity>, layer: u64) -> bool {
    forall|i: int|
        0 <= i < s.len() ==> {
            &&& ((#[trigger] s[i]).add_point is Some ==> s[i].add_point->0.layer == layer)
            &&& (s[i].add_line is Some ==> s[i].add_line->0.layer == layer)
            &&& (s[i].add_arc is Some ==> s[i].add_arc->0.layer == layer)
        }
}

/// Whatever a mode handler staged, one pipeline run keeps the scene store
/// well formed: identifiers stay strictly increasing and fresh, drawing
/// objects keep valid layers, only geometry can be selected, the layer and
/// command entities survive, grid flags keep mirroring the toggle, no
/// marker is left, and a store that held no provisional state (or whose
/// provisional state a `Delete` command removed) ends with no selection.
#[verifier::rlimit(60)]
#[verifier::spinoff_prover]
pub proof fn lemma_pipeline_preserves_store_inv(
    v: StoreView,
    snap: bool,
    default_layer: u64,
    command: u64,
    b: bool,
)
    requires
        v.wf(),
        selected_have_geometry(v.entities),
        crate::store::is_layer_entity(v.entities, default_layer),
        command_ok(v.entities, command),
        crate::model::grids_mirror(v.entities, b),
        markers_on_layer(v.entities, default_layer),
        v.next_id + 3 <= u64::MAX,
    ensures
        ({
            let r = spec_run_systems(v, snap);
            &&& r.wf()
            &&& selected_have_geometry(r.entities)
            &&& crate::store::is_layer_entity(r.entities, default_layer)
            &&& command_ok(r.entities, command)
            &&& crate::model::grids_mirror(r.entities, b)
            &&& r.no_markers()
            &&& r.next_id >= v.next_id
            &&& ((v.nothing_selected() && no_add_markers(v.entities)) ==> r.nothing_selected())
            &&& ((spec_delete_requested(v.entities) && no_add_markers(v.entities))
                ==> r.nothing_selected())
        }),
{
    let g = GRID_SPACING as nat;
    let v1 = spec_snap_pass(v, snap, g);
    let v2 = spec_delete_pass(v1);
    let r = spec_run_systems(v, snap);
    lemma_snap_pass_preserves(v, snap, default_layer, command, b);
    lemma_delete_pass_preserves(v1, default_layer, command, b);
    lemma_draw_pass_preserves(v2, default_layer, command, b);
    assert(r == spec_draw_pass(v2));
    lemma_pipeline_consumes_markers(v, snap);
    if no_add_markers(v.entities) && (v.nothing_selected() || spec_delete_requested(v.entities)) {
        assert(v2.nothing_selected());
        assert(no_add_markers(v2.entities));
        assert(r.nothing_selected());
    }
}

/// The snap pass keeps every structural property of the store; only
/// command target locations and the cursor move.
#[verifier::rlimit(60)]
#[verifier::spinoff_prover]
proof fn lemma_snap_pass_preserves(
    v: StoreView,
    snap: bool,
    default_layer: u64,
    command: u64,
    b: bool,
)
    requires
        v.wf(),
        selected_have_geometry(v.entities),
        crate::store::is_layer_entity(v.entities, default_layer),
        command_ok(v.entities, command),
        crate::model::grids_mirror(v.entities, b),
        markers_on_layer(v.entities, default_layer),
    ensures
        ({
            let v1 = spec_snap_pass(v, snap, GRID_SPACING as nat);
            &&& v1.wf()
            &&& selected_have_geometry(v1.entities)
            &&& crate::store::is_layer_entity(v1.entities, default_layer)
            &&& command_ok(v1.entities, command)
            &&& crate::model::grids_mirror(v1.entities, b)
            &&& markers_on_layer(v1.entities, default_layer)
            &&& v1.next_id == v.next_id
            &&& (spec_delete_requested(v1.entities) == spec_delete_requested(v.entities))
            &&& (no_add_markers(v.entities) ==> no_add_markers(v1.entities))
            &&& (v.nothing_selected() ==> v1.nothing_selected())
        }),
{
    let g = GRID_SPACING as nat;
    let n = v.entities.len() as int;
    let v1 = spec_snap_pass(v, snap, g);
    assert(v1.entities.len() == n && v1.next_id == v.next_id);
    assert forall|i: int| 0 <= i < n implies {
        &&& (#[trigger] v1.entities[i]).id == v.entities[i].id
        &&& v1.entities[i].selected == v.entities[i].selected
        &&& v1.entities[i].drawing_object == v.entities[i].drawing_object
        &&& v1.entities[i].layer == v.entities[i].layer
        &&& v1.entities[i].delete == v.entities[i].delete
        &&& v1.entities[i].add_point == v.entities[i].add_point
        &&& (v1.entities[i].add_line is Some <==> v.entities[i].add_line is Some)
        &&& (v1.entities[i].add_line is Some ==> v1.entities[i].add_line->0.layer
            == v.entities[i].add_line->0.layer)
        &&& (v1.entities[i].add_arc is Some <==> v.entities[i].add_arc is Some)
        &&& (v1.entities[i].add_arc is Some ==> v1.entities[i].add_arc->0.layer
            == v.entities[i].add_arc->0.layer)
    } by {
        if snap {
            assert(v1.entities[i] == spec_snap_markers(v.entities[i], g));
        }
    }
    assert(v1.wf()) by {
        assert forall|i: int|
            0 <= i < n && (#[trigger] v1.entities[i].drawing_object) is Some implies
            crate::store::is_layer_entity(v1.entities, v1.entities[i].drawing_object->0.layer) by {
            let l = v.entities[i].drawing_object->0.layer;
            let w = choose|w: int|
                0 <= w < v.entities.len() && v.entities[w].id == l && v.entities[w].layer is Some
                    && v.entities[w].drawing_object is None;
            assert(v1.entities[w].id == l && v1.entities[w].layer is Some
                && v1.entities[w].drawing_object is None);
        }
    }
    assert(selected_have_geometry(v1.entities));
    assert(crate::store::is_layer_entity(v1.entities, default_layer)) by {
        let w = choose|w: int|
            0 <= w < v.entities.len() && v.entities[w].id == default_layer && v.entities[w].layer
                is Some && v.entities[w].drawing_object is None;
        assert(v1.entities[w].id == default_layer && v1.entities[w].layer is Some
            && v1.entities[w].drawing_object is None);
    }
    assert(command_ok(v1.entities, command)) by {
        let w = choose|w: int|
            0 <= w < v.entities.len() && v.entities[w].id == command && v.entities[w].drawing_object
                is None;
        assert(v1.entities[w].id == command && v1.entities[w].drawing_object is None);
    }
    assert(crate::model::grids_mirror(v1.entities, b)) by {
        assert forall|i: int|
            0 <= i < n implies (crate::model::grid_flag_of(#[trigger] v1.entities[i]) is Some
            ==> crate::model::grid_flag_of(v1.entities[i])->0 == b) by {
            assert(crate::model::grid_flag_of(v1.entities[i]) == crate::model::grid_flag_of(
                v.entities[i],
            ));
        }
    }
    assert(markers_on_layer(v1.entities, default_layer));
    assert(spec_delete_requested(v1.entities) == spec_delete_requested(v.entities)) by {
        if spec_delete_requested(v.entities) {
            let w = choose|w: int| 0 <= w < n && (#[trigger] v.entities[w]).delete;
            assert(v1.entities[w].delete);
        }
        if spec_delete_requested(v1.entities) {
            let w = choose|w: int| 0 <= w < n && (#[trigger] v1.entities[w]).delete;
            assert(v.entities[w].delete);
        }
    }
    assert(no_add_markers(v.entities) ==> no_add_markers(v1.entities));
    assert(v.nothing_selected() ==> v1.nothing_selected());
}

/// The deletion pass keeps a sorted subsequence of unmarked survivors; a
/// requested deletion leaves nothing selected.
#[verifier::rlimit(60)]
#[verifier::spinoff_prover]
proof fn lemma_delete_pass_preserves(v1: StoreView, default_layer: u64, command: u64, b: bool)
    requires
        v1.wf(),
        selected_have_geometry(v1.entities),
        crate::store::is_layer_entity(v1.entities, default_layer),
        command_ok(v1.entities, command),
        crate::model::grids_mirror(v1.entities, b),
        markers_on_layer(v1.entities, default_layer),
    ensures
        ({
            let v2 = spec_delete_pass(v1);
            &&& v2.wf()
            &&& selected_have_geometry(v2.entities)
            &&& crate::store::is_layer_entity(v2.entities, default_layer)
            &&& command_ok(v2.entities, command)
            &&& crate::model::grids_mirror(v2.entities, b)
            &&& markers_on_layer(v2.entities, default_layer)
            &&& v2.next_id == v1.next_id
            &&& v2.cursor == v1.cursor
            &&& (no_add_markers(v1.entities) ==> no_add_markers(v2.entities))
            &&& (v1.nothing_selected() ==> v2.nothing_selected())
            &&& (spec_delete_requested(v1.entities) ==> v2.nothing_selected())
        }),
{
    let v2 = spec_delete_pass(v1);
    assert(v2.next_id == v1.next_id && v2.cursor == v1.cursor);
    if spec_delete_requested(v1.entities) {
        assert(v2.entities == spec_surviving_entities(v1.entities));
        lemma_surviving_members(v1.entities);
        crate::systems::lemma_surviving_sorted(v1.entities);
        assert(v2.wf()) by {
            assert forall|i: int|
                0 <= i < v2.entities.len() implies #[trigger] v2.entities[i].id < v2.next_id by {
                let j = choose|j: int|
                    0 <= j < v1.entities.len() && #[trigger] v2.entities[i] == spec_without_delete(
                        v1.entities[j],
                    ) && !v1.entities[j].is_provisional();
                assert(v1.entities[j].id < v1.next_id);
            }
            assert forall|i: int|
                0 <= i < v2.entities.len() && (#[trigger] v2.entities[i].drawing_object) is Some
                implies crate::store::is_layer_entity(
                v2.entities,
                v2.entities[i].drawing_object->0.layer,
            ) by {
                let j = choose|j: int|
                    0 <= j < v1.entities.len() && #[trigger] v2.entities[i] == spec_without_delete(
                        v1.entities[j],
                    ) && !v1.entities[j].is_provisional();
                let l = v1.entities[j].drawing_object->0.layer;
                assert(v2.entities[i].drawing_object->0.layer == l);
                assert(crate::store::is_layer_entity(v1.entities, l));
                let w = choose|w: int|
                    0 <= w < v1.entities.len() && v1.entities[w].id == l && v1.entities[w].layer
                        is Some && v1.entities[w].drawing_object is None;
                assert(!v1.entities[w].is_provisional());
                crate::systems::lemma_surviving_contains(v1.entities, w);
                let k = choose|k: int|
                    0 <= k < spec_surviving_entities(v1.entities).len()
                        && #[trigger] spec_surviving_entities(v1.entities)[k]
                        == spec_without_delete(v1.entities[w]);
                assert(v2.entities[k].id == l && v2.entities[k].layer is Some
                    && v2.entities[k].drawing_object is None);
            }
        }
        assert(selected_have_geometry(v2.entities)) by {
            assert forall|i: int|
                0 <= i < v2.entities.len() implies ((#[trigger] v2.entities[i]).selected
                ==> v2.entities[i].drawing_object is Some) by {
                let j = choose|j: int|
                    0 <= j < v1.entities.len() && #[trigger] v2.entities[i] == spec_without_delete(
                        v1.entities[j],
                    ) && !v1.entities[j].is_provisional();
            }
        }
        assert(crate::store::is_layer_entity(v2.entities, default_layer)) by {
            let w = choose|w: int|
                0 <= w < v1.entities.len() && v1.entities[w].id == default_layer
                    && v1.entities[w].layer is Some && v1.entities[w].drawing_object is None;
            assert(!v1.entities[w].is_provisional());
            crate::systems::lemma_surviving_contains(v1.entities, w);
            let k = choose|k: int|
                0 <= k < spec_surviving_entities(v1.entities).len()
                    && #[trigger] spec_surviving_entities(v1.entities)[k] == spec_without_delete(
                    v1.entities[w],
                );
            assert(v2.entities[k].id == default_layer && v2.entities[k].layer is Some
                && v2.entities[k].drawing_object is None);
        }
        assert(command_ok(v2.entities, command)) by {
            let w = choose|w: int|
                0 <= w < v1.entities.len() && v1.entities[w].id == command
                    && v1.entities[w].drawing_object is None;
            assert(!v1.entities[w].is_provisional());
            crate::systems::lemma_surviving_contains(v1.entities, w);
            let k = choose|k: int|
                0 <= k < spec_surviving_entities(v1.entities).len()
                    && #[trigger] spec_surviving_entities(v1.entities)[k] == spec_without_delete(
                    v1.entities[w],
                );
            assert(v2.entities[k].id == command && v2.entities[k].drawing_object is None);
        }
        assert(crate::model::grids_mirror(v2.entities, b)) by {
            assert forall|i: int|
                0 <= i < v2.entities.len() implies (crate::model::grid_flag_of(
                #[trigger] v2.entities[i],
            ) is Some ==> crate::model::grid_flag_of(v2.entities[i])->0 == b) by {
                let j = choose|j: int|
                    0 <= j < v1.entities.len() && #[trigger] v2.entities[i] == spec_without_delete(
                        v1.entities[j],
                    ) && !v1.entities[j].is_provisional();
                assert(crate::model::grid_flag_of(v2.entities[i]) == crate::model::grid_flag_of(
                    v1.entities[j],
                ));
            }
        }
        assert(markers_on_layer(v2.entities, default_layer)) by {
            assert forall|i: int| 0 <= i < v2.entities.len() implies {
                &&& ((#[trigger] v2.entities[i]).add_point is Some ==> v2.entities[i].add_point->0.layer == default_layer)
                &&& (v2.entities[i].add_line is Some ==> v2.entities[i].add_line->0.layer == default_layer)
                &&& (v2.entities[i].add_arc is Some ==> v2.entities[i].add_arc->0.layer == default_layer)
            } by {
                let j = choose|j: int|
                    0 <= j < v1.entities.len() && #[trigger] v2.entities[i] == spec_without_delete(
                        v1.entities[j],
                    ) && !v1.entities[j].is_provisional();
            }
        }
        assert(selected_have_geometry(v1.entities) ==> v2.nothing_selected()) by {
            assert forall|i: int| 0 <= i < v2.entities.len() implies !(
            #[trigger] v2.entities[i]).selected by {
                let j = choose|j: int|
                    0 <= j < v1.entities.len() && #[trigger] v2.entities[i] == spec_without_delete(
                        v1.entities[j],
                    ) && !v1.entities[j].is_provisional();
                if v1.entities[j].selected {
                    assert(v1.entities[j].drawing_object is Some);
                }
            }
        }
        assert(no_add_markers(v1.entities) ==> no_add_markers(v2.entities)) by {
            if no_add_markers(v1.entities) {
                assert forall|i: int| 0 <= i < v2.entities.len() implies {
                    &&& (#[trigger] v2.entities[i]).add_point is None
                    &&& v2.entities[i].add_line is None
                    &&& v2.entities[i].add_arc is None
                } by {
                    let j = choose|j: int|
                        0 <= j < v1.entities.len() && #[trigger] v2.entities[i]
                            == spec_without_delete(v1.entities[j]) && !v1.entities[j].is_provisional();
                }
            }
        }
        assert(v1.nothing_selected() ==> v2.nothing_selected()) by {
            if v1.nothing_selected() {
                assert forall|i: int| 0 <= i < v2.entities.len() implies !(
                #[trigger] v2.entities[i]).selected by {
                    let j = choose|j: int|
                        0 <= j < v1.entities.len() && #[trigger] v2.entities[i]
                            == spec_without_delete(v1.entities[j]) && !v1.entities[j].is_provisional();
                }
            }
        }
    } else {
        assert(v2 == v1);
    }
}

/// The draw pass appends fresh, selected objects on the default layer,
/// consumes the creation commands, and keeps every structural property.
#[verifier::rlimit(100)]
#[verifier::spinoff_prover]
proof fn lemma_draw_pass_preserves(v2: StoreView, default_layer: u64, command: u64, b: bool)
    requires
        v2.wf(),
        selected_have_geometry(v2.entities),
        crate::store::is_layer_entity(v2.entities, default_layer),
        command_ok(v2.entities, command),
        crate::model::grids_mirror(v2.entities, b),
        markers_on_layer(v2.entities, default_layer),
        v2.next_id + 3 <= u64::MAX,
    ensures
        ({
            let r = spec_draw_pass(v2);
            &&& r.wf()
            &&& selected_have_geometry(r.entities)
            &&& crate::store::is_layer_entity(r.entities, default_layer)
            &&& command_ok(r.entities, command)
            &&& crate::model::grids_mirror(r.entities, b)
            &&& r.next_id >= v2.next_id
            &&& ((no_add_markers(v2.entities) && v2.nothing_selected()) ==> r.nothing_selected())
        }),
{
    let ap = spec_first_add_point(v2.entities);
    let al = spec_first_add_line(v2.entities);
    let aa = spec_first_add_arc(v2.entities);
    let n0 = v2.next_id as int;
    let s1 = if ap is Some {
        v2.entities.push(spec_point_entity(n0 as u64, v2.cursor, ap->0.layer))
    } else {
        v2.entities
    };
    let n1 = if ap is Some {
        n0 + 1
    } else {
        n0
    };
    let s2 = if al is Some {
        s1.push(crate::systems::spec_line_entity(n1 as u64, al->0.location, v2.cursor, al->0.layer))
    } else {
        s1
    };
    let n2 = if al is Some {
        n1 + 1
    } else {
        n1
    };
    let s3 = if aa is Some {
        s2.push(
            crate::systems::spec_arc_entity(
                n2 as u64,
                aa->0.start,
                aa->0.end,
                v2.cursor,
                aa->0.layer,
            ),
        )
    } else {
        s2
    };
    let n3 = if aa is Some {
        n2 + 1
    } else {
        n2
    };
    let r = spec_draw_pass(v2);
    assert(r.entities == spec_follow_cursor(spec_clear_add_markers(s3), v2.cursor));
    assert(r.next_id == n3 as u64 && n3 <= v2.next_id + 3);

    // every created object sits on the default layer
    if ap is Some {
        crate::systems::lemma_first_add_point_member(v2.entities);
        assert(ap->0.layer == default_layer);
    }
    if al is Some {
        crate::systems::lemma_first_add_line_member(v2.entities);
        assert(al->0.layer == default_layer);
    }
    if aa is Some {
        crate::systems::lemma_first_add_arc_member(v2.entities);
        assert(aa->0.layer == default_layer);
    }

    // shape of the appended part
    let m2 = v2.entities.len() as int;
    assert(s3.len() == m2 + (n3 - n0));
    assert forall|i: int| m2 <= i < s3.len() implies {
        &&& (#[trigger] s3[i]).id == n0 + (i - m2)
        &&& s3[i].selected
        &&& s3[i].drawing_object is Some
        &&& s3[i].drawing_object->0.layer == default_layer
        &&& !(s3[i].drawing_object->0.geometry is Grid)
        &&& s3[i].layer is None
    } by {}
    assert(forall|i: int| 0 <= i < m2 ==> #[trigger] s3[i] == v2.entities[i]);

    // the final pointwise pass keeps identity, layers and geometry kind
    assert forall|i: int| 0 <= i < s3.len() implies {
        &&& (#[trigger] r.entities[i]).id == s3[i].id
        &&& r.entities[i].selected == s3[i].selected
        &&& r.entities[i].layer == s3[i].layer
        &&& (r.entities[i].drawing_object is Some <==> s3[i].drawing_object is Some)
        &&& (r.entities[i].drawing_object is Some ==> r.entities[i].drawing_object->0.layer
            == s3[i].drawing_object->0.layer)
        &&& (crate::model::grid_flag_of(r.entities[i]) == crate::model::grid_flag_of(s3[i]))
    } by {
        assert(r.entities[i] == spec_follow_entity(spec_without_add_markers(s3[i]), v2.cursor));
    }

    assert(r.wf()) by {
        assert forall|i: int, j: int| 0 <= i < j < r.entities.len() implies r.entities[i].id
            < r.entities[j].id by {
            if j < m2 {
            } else if i < m2 {
                assert(r.entities[i].id == v2.entities[i].id < v2.next_id);
                assert(r.entities[j].id == n0 + (j - m2));
            } else {
                assert(r.entities[i].id == n0 + (i - m2));
                assert(r.entities[j].id == n0 + (j - m2));
            }
        }
        assert forall|i: int| 0 <= i < r.entities.len() implies #[trigger] r.entities[i].id
            < r.next_id by {
            if i < m2 {
                assert(r.entities[i].id == v2.entities[i].id < v2.next_id);
            } else {
                assert(r.entities[i].id == n0 + (i - m2) < n3);
            }
        }
        assert forall|i: int|
            0 <= i < r.entities.len() && (#[trigger] r.entities[i].drawing_object) is Some implies
            crate::store::is_layer_entity(r.entities, r.entities[i].drawing_object->0.layer) by {
            let l = r.entities[i].drawing_object->0.layer;
            if i < m2 {
                assert(l == v2.entities[i].drawing_object->0.layer);
                assert(crate::store::is_layer_entity(v2.entities, l));
                let w = choose|w: int|
                    0 <= w < v2.entities.len() && v2.entities[w].id == l && v2.entities[w].layer
                        is Some && v2.entities[w].drawing_object is None;
                assert(r.entities[w].id == l && r.entities[w].layer is Some
                    && r.entities[w].drawing_object is None);
            } else {
                assert(l == default_layer);
                let w = choose|w: int|
                    0 <= w < v2.entities.len() && v2.entities[w].id == default_layer
                        && v2.entities[w].layer is Some && v2.entities[w].drawing_object is None;
                assert(r.entities[w].id == default_layer && r.entities[w].layer is Some
                    && r.entities[w].drawing_object is None);
            }
        }
    }
    assert(selected_have_geometry(r.entities)) by {
        assert forall|i: int|
            0 <= i < r.entities.len() implies ((#[trigger] r.entities[i]).selected
            ==> r.entities[i].drawing_object is Some) by {
            if i < m2 {
                assert(r.entities[i].selected == v2.entities[i].selected);
            }
        }
    }
    assert(crate::store::is_layer_entity(r.entities, default_layer)) by {
        let w = choose|w: int|
            0 <= w < v2.entities.len() && v2.entities[w].id == default_layer && v2.entities[w].layer
                is Some && v2.entities[w].drawing_object is None;
        assert(r.entities[w].id == default_layer && r.entities[w].layer is Some
            && r.entities[w].drawing_object is None);
    }
    assert(command_ok(r.entities, command)) by {
        let w = choose|w: int|
            0 <= w < v2.entities.len() && v2.entities[w].id == command && v2.entities[w].drawing_object
                is None;
        assert(r.entities[w].id == command && r.entities[w].drawing_object is None);
    }
    assert(crate::model::grids_mirror(r.entities, b)) by {
        assert forall|i: int|
            0 <= i < r.entities.len() implies (crate::model::grid_flag_of(#[trigger] r.entities[i])
            is Some ==> crate::model::grid_flag_of(r.entities[i])->0 == b) by {
            if i < m2 {
                assert(crate::model::grid_flag_of(s3[i]) == crate::model::grid_flag_of(
                    v2.entities[i],
                ));
            } else {
                assert(crate::model::grid_flag_of(s3[i]) is None) by {
                    assert(!(s3[i].drawing_object->0.geometry is Grid));
                }
            }
        }
    }
    assert(r.next_id >= v2.next_id);

    // with no creation pending and no provisional state, nothing ends
    // selected
    if no_add_markers(v2.entities) {
        assert(ap is None) by {
            if ap is Some {
                crate::systems::lemma_first_add_point_member(v2.entities);
            }
        }
        assert(al is None) by {
            if al is Some {
                crate::systems::lemma_first_add_line_member(v2.entities);
            }
        }
        assert(aa is None) by {
            if aa is Some {
                crate::systems::lemma_first_add_arc_member(v2.entities);
            }
        }
        assert(s3 == v2.entities);
        if v2.nothing_selected() {
            assert forall|i: int| 0 <= i < r.entities.len() implies !(
            #[trigger] r.entities[i]).selected by {
                assert(r.entities[i].selected == s3[i].selected);
            }
        }
    }
}

/// The structural store properties the editor's invariant asks for.
pub open spec fn store_props(v: StoreView, default_layer: u64, command: u64, b: bool) -> bool {
    &&& v.wf()
    &&& selected_have_geometry(v.entities)
    &&& crate::store::is_layer_entity(v.entities, default_layer)
    &&& command_ok(v.entities, command)
    &&& crate::model::grids_mirror(v.entities, b)
}

/// Entities that agree on identity, layer and geometry, select no more
/// than before, and stage commands only for the default layer, inherit the
/// structural properties.
proof fn lemma_store_props_transport(
    v1: StoreView,
    v2: StoreView,
    default_layer: u64,
    command: u64,
    b: bool,
)
    requires
        store_props(v1, default_layer, command, b),
        v2.entities.len() == v1.entities.len(),
        v2.next_id == v1.next_id,
        forall|i: int|
            0 <= i < v1.entities.len() ==> {
                &&& (#[trigger] v2.entities[i]).id == v1.entities[i].id
                &&& v2.entities[i].layer == v1.entities[i].layer
                &&& v2.entities[i].drawing_object == v1.entities[i].drawing_object
                &&& (v2.entities[i].selected ==> v1.entities[i].selected)
            },
        markers_on_layer(v2.entities, default_layer),
    ensures
        store_props(v2, default_layer, command, b),
{
    let n = v1.entities.len() as int;
    assert forall|i: int|
        0 <= i < n && (#[trigger] v2.entities[i].drawing_object) is Some implies
        crate::store::is_layer_entity(v2.entities, v2.entities[i].drawing_object->0.layer) by {
        let l = v1.entities[i].drawing_object->0.layer;
        let w = choose|w: int|
            0 <= w < v1.entities.len() && v1.entities[w].id == l && v1.entities[w].layer is Some
                && v1.entities[w].drawing_object is None;
        assert(v2.entities[w].id == l && v2.entities[w].layer is Some
            && v2.entities[w].drawing_object is None);
    }
    assert(crate::store::is_layer_entity(v2.entities, default_layer)) by {
        let w = choose|w: int|
            0 <= w < v1.entities.len() && v1.entities[w].id == default_layer && v1.entities[w].layer
                is Some && v1.entities[w].drawing_object is None;
        assert(v2.entities[w].id == default_layer && v2.entities[w].layer is Some
            && v2.entities[w].drawing_object is None);
    }
    assert(command_ok(v2.entities, command)) by {
        let w = choose|w: int|
            0 <= w < v1.entities.len() && v1.entities[w].id == command && v1.entities[w].drawing_object
                is None;
        assert(v2.entities[w].id == command && v2.entities[w].drawing_object is None);
    }
    assert forall|i: int|
        0 <= i < n implies (crate::model::grid_flag_of(#[trigger] v2.entities[i]) is Some
        ==> crate::model::grid_flag_of(v2.entities[i])->0 == b) by {
        assert(crate::model::grid_flag_of(v2.entities[i]) == crate::model::grid_flag_of(
            v1.entities[i],
        ));
    }
}

/// Running the pipeline on an untouched, unmarked store keeps the
/// structural properties; with nothing selected, nothing becomes selected.
proof fn lemma_step_store_plain(sv: StoreView, snap: bool, default_layer: u64, command: u64, b: bool)
    requires
        store_props(sv, default_layer, command, b),
        sv.no_markers(),
        sv.next_id + 3 <= u64::MAX,
    ensures
        ({
            let r = spec_run_systems(sv, snap);
            &&& store_props(r, default_layer, command, b)
            &&& r.no_markers()
            &&& (sv.nothing_selected() ==> r.nothing_selected())
        }),
{
    assert(markers_on_layer(sv.entities, default_layer)) by {
        assert(forall|i: int|
            0 <= i < sv.entities.len() ==> !(#[trigger] sv.entities[i]).has_marker());
    }
    assert(no_add_markers(sv.entities)) by {
        assert(forall|i: int|
            0 <= i < sv.entities.len() ==> !(#[trigger] sv.entities[i]).has_marker());
    }
    lemma_pipeline_preserves_store_inv(sv, snap, default_layer, command, b);
}

/// Clearing the selection and then running the pipeline keeps the
/// structural properties and ends with nothing selected.
proof fn lemma_step_store_unselect(
    sv: StoreView,
    snap: bool,
    default_layer: u64,
    command: u64,
    b: bool,
)
    requires
        store_props(sv, default_layer, command, b),
        sv.no_markers(),
        sv.next_id + 3 <= u64::MAX,
    ensures
        ({
            let r = spec_run_systems(sv_unselect(sv), snap);
            &&& store_props(r, default_layer, command, b)
            &&& r.no_markers()
            &&& r.nothing_selected()
        }),
{
    let sv1 = sv_unselect(sv);
    assert(markers_on_layer(sv1.entities, default_layer) && no_add_markers(sv1.entities)
        && sv1.no_markers()) by {
        assert forall|i: int| 0 <= i < sv1.entities.len() implies !(
        #[trigger] sv1.entities[i]).has_marker() by {
            assert(sv1.entities[i] == sv.entities[i].with_selected(false));
            assert(!sv.entities[i].has_marker());
        }
    }
    lemma_store_props_transport(sv, sv1, default_layer, command, b);
    lemma_pipeline_preserves_store_inv(sv1, snap, default_layer, command, b);
    assert(sv1.nothing_selected()) by {
        assert forall|i: int| 0 <= i < sv1.entities.len() implies !(
        #[trigger] sv1.entities[i]).selected by {
            assert(sv1.entities[i] == sv.entities[i].with_selected(false));
        }
    }
}

/// Staging a `Delete` command and running the pipeline keeps the
/// structural properties and ends with nothing selected.
proof fn lemma_step_store_cancel(
    sv: StoreView,
    snap: bool,
    default_layer: u64,
    command: u64,
    b: bool,
)
    requires
        store_props(sv, default_layer, command, b),
        sv.no_markers(),
        sv.next_id + 3 <= u64::MAX,
    ensures
        ({
            let r = spec_run_systems(sv_delete(sv, command), snap);
            &&& store_props(r, default_layer, command, b)
            &&& r.no_markers()
            &&& r.nothing_selected()
        }),
{
    let sv1 = sv_delete(sv, command);
    assert(markers_on_layer(sv1.entities, default_layer) && no_add_markers(sv1.entities)) by {
        assert forall|i: int| 0 <= i < sv1.entities.len() implies {
            &&& (#[trigger] sv1.entities[i]).add_point is None
            &&& sv1.entities[i].add_line is None
            &&& sv1.entities[i].add_arc is None
        } by {
            assert(!sv.entities[i].has_marker());
        }
    }
    lemma_store_props_transport(sv, sv1, default_layer, command, b);
    lemma_pipeline_preserves_store_inv(sv1, snap, default_layer, command, b);
    assert(spec_delete_requested(sv1.entities)) by {
        let w = choose|w: int|
            0 <= w < sv.entities.len() && sv.entities[w].id == command && sv.entities[w].drawing_object
                is None;
        assert(sv1.entities[w].delete);
    }
}

/// Staging an `AddPoint` command (after clearing the selection and moving
/// the cursor) and running the pipeline keeps the structural properties.
proof fn lemma_step_store_stage_point(
    sv: StoreView,
    snap: bool,
    default_layer: u64,
    command: u64,
    b: bool,
    loc: Point,
)
    requires
        store_props(sv, default_layer, command, b),
        sv.no_markers(),
        sv.next_id + 3 <= u64::MAX,
    ensures
        ({
            let r = spec_run_systems(
                sv_add_point(sv_cursor(sv_unselect(sv), loc), command, default_layer),
                snap,
            );
            &&& store_props(r, default_layer, command, b)
            &&& r.no_markers()
        }),
{
    let sv1 = sv_add_point(sv_cursor(sv_unselect(sv), loc), command, default_layer);
    assert(markers_on_layer(sv1.entities, default_layer)) by {
        assert forall|i: int| 0 <= i < sv1.entities.len() implies {
            &&& ((#[trigger] sv1.entities[i]).add_point is Some ==> sv1.entities[i].add_point->0.layer
                == default_layer)
            &&& (sv1.entities[i].add_line is Some ==> sv1.entities[i].add_line->0.layer
                == default_layer)
            &&& (sv1.entities[i].add_arc is Some ==> sv1.entities[i].add_arc->0.layer
                == default_layer)
        } by {
            assert(!sv.entities[i].has_marker());
        }
    }
    lemma_store_props_transport(sv, sv1, default_layer, command, b);
    lemma_pipeline_preserves_store_inv(sv1, snap, default_layer, command, b);
}

/// Staging an `AddLine` command together with the `Delete` of its start
/// vertex and running the pipeline keeps the structural properties.
proof fn lemma_step_store_stage_line(
    sv: StoreView,
    snap: bool,
    default_layer: u64,
    command: u64,
    b: bool,
    loc: Point,
)
    requires
        store_props(sv, default_layer, command, b),
        sv.no_markers(),
        sv.next_id + 3 <= u64::MAX,
    ensures
        ({
            let r = spec_run_systems(
                sv_delete(crate::modes::sv_add_line(sv, command, loc, default_layer), command),
                snap,
            );
            &&& store_props(r, default_layer, command, b)
            &&& r.no_markers()
        }),
{
    let sv1 = sv_delete(crate::modes::sv_add_line(sv, command, loc, default_layer), command);
    assert(markers_on_layer(sv1.entities, default_layer)) by {
        assert forall|i: int| 0 <= i < sv1.entities.len() implies {
            &&& ((#[trigger] sv1.entities[i]).add_point is Some ==> sv1.entities[i].add_point->0.layer
                == default_layer)
            &&& (sv1.entities[i].add_line is Some ==> sv1.entities[i].add_line->0.layer
                == default_layer)
            &&& (sv1.entities[i].add_arc is Some ==> sv1.entities[i].add_arc->0.layer
                == default_layer)
        } by {
            assert(!sv.entities[i].has_marker());
        }
    }
    lemma_store_props_transport(sv, sv1, default_layer, command, b);
    lemma_pipeline_preserves_store_inv(sv1, snap, default_layer, command, b);
}

/// Staging an `AddArc` command together with the `Delete` of its
/// provisional line and running the pipeline keeps the structural
/// properties.
proof fn lemma_step_store_stage_arc(
    sv: StoreView,
    snap: bool,
    default_layer: u64,
    command: u64,
    b: bool,
    start: Point,
    end: Point,
)
    requires
        store_props(sv, default_layer, command, b),
        sv.no_markers(),
        sv.next_id + 3 <= u64::MAX,
    ensures
        ({
            let r = spec_run_systems(
                sv_delete(
                    crate::modes::sv_add_arc(sv, command, start, end, default_layer),
                    command,
                ),
                snap,
            );
            &&& store_props(r, default_layer, command, b)
            &&& r.no_markers()
        }),
{
    let sv1 = sv_delete(
        crate::modes::sv_add_arc(sv, command, start, end, default_layer),
        command,
    );
    assert(markers_on_layer(sv1.entities, default_layer)) by {
        assert forall|i: int| 0 <= i < sv1.entities.len() implies {
            &&& ((#[trigger] sv1.entities[i]).add_point is Some ==> sv1.entities[i].add_point->0.layer
                == default_layer)
            &&& (sv1.entities[i].add_line is Some ==> sv1.entities[i].add_line->0.layer
                == default_layer)
            &&& (sv1.entities[i].add_arc is Some ==> sv1.entities[i].add_arc->0.layer
                == default_layer)
        } by {
            assert(!sv.entities[i].has_marker());
        }
    }
    lemma_store_props_transport(sv, sv1, default_layer, command, b);
    lemma_pipeline_preserves_store_inv(sv1, snap, default_layer, command, b);
}

/// A fully processed pointer press preserves the editor's invariant: no
/// provisional entity or marker ever leaks across an event boundary.
pub proof fn lemma_mouse_down_preserves_inv(m: ModelView, args: MouseEventArgs)
    requires
        m.inv(),
        m.store.next_id + 3 <= u64::MAX,
    ensures
        spec_step_mouse_down(m, args).inv(),
{
    let sv = m.store;
    let out = spec_step_mouse_down(m, args);
    match m.state {
        State::Idle(_) => {
            lemma_step_store_plain(sv, m.snap, m.default_layer, m.command, m.snap);
        },
        State::AddPoint(md) => {
            match md.nested {
                crate::add_point_mode::AddPointSubstate::WaitingToPlace => {
                    lemma_step_store_stage_point(
                        sv,
                        m.snap,
                        m.default_layer,
                        m.command,
                        m.snap,
                        args.location,
                    );
                },
                crate::add_point_mode::AddPointSubstate::PlacingPoint => {
                    lemma_step_store_plain(sv, m.snap, m.default_layer, m.command, m.snap);
                },
            }
        },
        State::AddLine(md) => {
            match md.nested {
                crate::add_line_mode::AddLineSubstate::WaitingToPlaceStart => {
                    lemma_step_store_stage_point(
                        sv,
                        m.snap,
                        m.default_layer,
                        m.command,
                        m.snap,
                        args.location,
                    );
                },
                _ => {
                    lemma_step_store_plain(sv, m.snap, m.default_layer, m.command, m.snap);
                },
            }
        },
        State::AddArc(md) => {
            match md.nested {
                crate::add_arc_mode::AddArcSubstate::WaitingToPlaceStart => {
                    lemma_step_store_stage_point(
                        sv,
                        m.snap,
                        m.default_layer,
                        m.command,
                        m.snap,
                        args.location,
                    );
                },
                _ => {
                    lemma_step_store_plain(sv, m.snap, m.default_layer, m.command, m.snap);
                },
            }
        },
    }
    assert(out.at_rest_selection()) by {
        if m.state is Idle {
            assert(sv.nothing_selected());
        }
    }
}

/// A fully processed pointer release preserves the editor's invariant.
pub proof fn lemma_mouse_up_preserves_inv(m: ModelView, args: MouseEventArgs)
    requires
        m.inv(),
        m.store.next_id + 3 <= u64::MAX,
    ensures
        spec_step_mouse_up(m, args).inv(),
{
    let sv = m.store;
    let out = spec_step_mouse_up(m, args);
    match m.state {
        State::Idle(_) => {
            lemma_step_store_plain(sv, m.snap, m.default_layer, m.command, m.snap);
            assert(sv.nothing_selected());
        },
        State::AddPoint(md) => {
            match md.nested {
                crate::add_point_mode::AddPointSubstate::WaitingToPlace => {
                    lemma_step_store_plain(sv, m.snap, m.default_layer, m.command, m.snap);
                    assert(sv.nothing_selected());
                },
                crate::add_point_mode::AddPointSubstate::PlacingPoint => {
                    lemma_step_store_unselect(sv, m.snap, m.default_layer, m.command, m.snap);
                },
            }
        },
        State::AddLine(md) => {
            match md.nested {
                crate::add_line_mode::AddLineSubstate::WaitingToPlaceStart => {
                    lemma_step_store_plain(sv, m.snap, m.default_layer, m.command, m.snap);
                    assert(sv.nothing_selected());
                },
                crate::add_line_mode::AddLineSubstate::PlacingStart => {
                    lemma_step_store_stage_line(
                        sv,
                        m.snap,
                        m.default_layer,
                        m.command,
                        m.snap,
                        crate::add_line_mode::spec_effective_start(sv),
                    );
                },
                crate::add_line_mode::AddLineSubstate::WaitingToPlaceEnd => {
                    lemma_step_store_plain(sv, m.snap, m.default_layer, m.command, m.snap);
                },
                crate::add_line_mode::AddLineSubstate::PlacingEnd => {
                    lemma_step_store_unselect(sv, m.snap, m.default_layer, m.command, m.snap);
                },
            }
        },
        State::AddArc(md) => {
            match md.nested {
                crate::add_arc_mode::AddArcSubstate::WaitingToPlaceStart => {
                    lemma_step_store_plain(sv, m.snap, m.default_layer, m.command, m.snap);
                    assert(sv.nothing_selected());
                },
                crate::add_arc_mode::AddArcSubstate::PlacingStart => {
                    lemma_step_store_stage_line(
                        sv,
                        m.snap,
                        m.default_layer,
                        m.command,
                        m.snap,
                        crate::add_arc_mode::spec_arc_effective_start(sv),
                    );
                },
                crate::add_arc_mode::AddArcSubstate::PlacingEnd => {
                    lemma_step_store_stage_arc(
                        sv,
                        m.snap,
                        m.default_layer,
                        m.command,
                        m.snap,
                        crate::add_arc_mode::spec_arc_effective_line(sv).0,
                        crate::add_arc_mode::spec_arc_effective_line(sv).1,
                    );
                },
                crate::add_arc_mode::AddArcSubstate::PlacingControl => {
                    lemma_step_store_unselect(sv, m.snap, m.default_layer, m.command, m.snap);
                },
                _ => {
                    lemma_step_store_plain(sv, m.snap, m.default_layer, m.command, m.snap);
                },
            }
        },
    }
    assert(out.inv());
}

/// A fully processed pointer move preserves the editor's invariant.
pub proof fn lemma_mouse_move_preserves_inv(m: ModelView, args: MouseEventArgs)
    requires
        m.inv(),
        m.store.next_id + 3 <= u64::MAX,
    ensures
        spec_step_mouse_move(m, args).inv(),
{
    let sv = m.store;
    let svc = sv_cursor(sv, args.location);
    let out = spec_step_mouse_move(m, args);
    assert(store_props(svc, m.default_layer, m.command, m.snap));
    assert(svc.no_markers());
    lemma_step_store_plain(sv, m.snap, m.default_layer, m.command, m.snap);
    lemma_step_store_plain(svc, m.snap, m.default_layer, m.command, m.snap);
    assert(sv.nothing_selected() ==> svc.nothing_selected());
    assert(out.at_rest_selection()) by {
        match m.state {
            State::Idle(_) => {
                assert(sv.nothing_selected());
            },
            State::AddPoint(md) => {
                if md.nested == crate::add_point_mode::AddPointSubstate::WaitingToPlace {
                    assert(sv.nothing_selected());
                }
            },
            State::AddLine(md) => {
                if md.nested == crate::add_line_mode::AddLineSubstate::WaitingToPlaceStart {
                    assert(sv.nothing_selected());
                }
            },
            State::AddArc(md) => {
                if md.nested == crate::add_arc_mode::AddArcSubstate::WaitingToPlaceStart {
                    assert(sv.nothing_selected());
                }
            },
        }
    }
    assert(out.inv());
}

/// A fully processed key press preserves the editor's invariant;
/// cancellation is total, so escape never leaves provisional state behind.
pub proof fn lemma_key_preserves_inv(m: ModelView, args: KeyboardEventArgs)
    requires
        m.inv(),
        m.store.next_id + 3 <= u64::MAX,
    ensures
        spec_step_key(m, args).inv(),
{
    let sv = m.store;
    let out = spec_step_key(m, args);
    lemma_step_store_plain(sv, m.snap, m.default_layer, m.command, m.snap);
    lemma_step_store_cancel(sv, m.snap, m.default_layer, m.command, m.snap);
    assert(out.at_rest_selection()) by {
        if args.key == Some(crate::keyboard_event_args::VirtualKeyCode::Escape) {
            match m.state {
                State::Idle(_) => {
                    assert(sv.nothing_selected());
                },
                State::AddPoint(md) => {
                    if md.nested == crate::add_point_mode::AddPointSubstate::WaitingToPlace {
                        assert(sv.nothing_selected());
                    }
                },
                State::AddLine(md) => {
                    if md.nested == crate::add_line_mode::AddLineSubstate::WaitingToPlaceStart {
                        assert(sv.nothing_selected());
                    }
                },
                State::AddArc(md) => {
                    if md.nested == crate::add_arc_mode::AddArcSubstate::WaitingToPlaceStart {
                        assert(sv.nothing_selected());
                    }
                },
            }
        } else {
            match m.state {
                State::Idle(_) => {
                    assert(sv.nothing_selected());
                },
                State::AddPoint(md) => {
                    if md.nested == crate::add_point_mode::AddPointSubstate::WaitingToPlace {
                        assert(sv.nothing_selected());
                    }
                },
                State::AddLine(md) => {
                    if md.nested == crate::add_line_mode::AddLineSubstate::WaitingToPlaceStart {
                        assert(sv.nothing_selected());
                    }
                },
                State::AddArc(md) => {
                    if md.nested == crate::add_arc_mode::AddArcSubstate::WaitingToPlaceStart {
                        assert(sv.nothing_selected());
                    }
                },
            }
        }
    }
    assert(out.inv());
}

/// A fully processed toolbar click preserves the editor's invariant: the
/// snap toggle re-mirrors the grid, and a mode switch first cancels the
/// edit in progress.
pub proof fn lemma_button_preserves_inv(m: ModelView, b: crate::msg::ButtonType)
    requires
        m.inv(),
        m.store.next_id + 3 <= u64::MAX,
    ensures
        spec_step_button(m, b).inv(),
{
    let sv = m.store;
    let out = spec_step_button(m, b);
    if b == crate::msg::ButtonType::Snap {
        let snap2 = !m.snap;
        let sv0 = StoreView {
            entities: crate::model::spec_set_grid_snap(sv.entities, snap2),
            ..sv
        };
        let n = sv.entities.len() as int;
        assert forall|i: int| 0 <= i < n implies {
            &&& (#[trigger] sv0.entities[i]).id == sv.entities[i].id
            &&& sv0.entities[i].layer == sv.entities[i].layer
            &&& sv0.entities[i].selected == sv.entities[i].selected
            &&& !sv0.entities[i].has_marker()
            &&& (sv0.entities[i].drawing_object is Some <==> sv.entities[i].drawing_object is Some)
            &&& (sv0.entities[i].drawing_object is Some ==> sv0.entities[i].drawing_object->0.layer
                == sv.entities[i].drawing_object->0.layer)
            &&& (crate::model::grid_flag_of(sv0.entities[i]) is Some ==> crate::model::grid_flag_of(
                sv0.entities[i],
            )->0 == snap2)
        } by {
            assert(!sv.entities[i].has_marker());
        }
        assert(store_props(sv0, m.default_layer, m.command, snap2)) by {
            assert forall|i: int|
                0 <= i < n && (#[trigger] sv0.entities[i].drawing_object) is Some implies
                crate::store::is_layer_entity(sv0.entities, sv0.entities[i].drawing_object->0.layer)
                by {
                let l = sv.entities[i].drawing_object->0.layer;
                let w = choose|w: int|
                    0 <= w < sv.entities.len() && sv.entities[w].id == l && sv.entities[w].layer
                        is Some && sv.entities[w].drawing_object is None;
                assert(sv0.entities[w].id == l && sv0.entities[w].layer is Some
                    && sv0.entities[w].drawing_object is None);
            }
            assert(crate::store::is_layer_entity(sv0.entities, m.default_layer)) by {
                let w = choose|w: int|
                    0 <= w < sv.entities.len() && sv.entities[w].id == m.default_layer
                        && sv.entities[w].layer is Some && sv.entities[w].drawing_object is None;
                assert(sv0.entities[w].id == m.default_layer && sv0.entities[w].layer is Some
                    && sv0.entities[w].drawing_object is None);
            }
            assert(command_ok(sv0.entities, m.command)) by {
                let w = choose|w: int|
                    0 <= w < sv.entities.len() && sv.entities[w].id == m.command
                        && sv.entities[w].drawing_object is None;
                assert(sv0.entities[w].id == m.command && sv0.entities[w].drawing_object is None);
            }
        }
        assert(sv0.no_markers());
        lemma_step_store_plain(sv0, snap2, m.default_layer, m.command, snap2);
        assert(sv.nothing_selected() ==> sv0.nothing_selected());
        assert(out.at_rest_selection()) by {
            match m.state {
                State::Idle(_) => {
                    assert(sv.nothing_selected());
                },
                State::AddPoint(md) => {
                    if md.nested == crate::add_point_mode::AddPointSubstate::WaitingToPlace {
                        assert(sv.nothing_selected());
                    }
                },
                State::AddLine(md) => {
                    if md.nested == crate::add_line_mode::AddLineSubstate::WaitingToPlaceStart {
                        assert(sv.nothing_selected());
                    }
                },
                State::AddArc(md) => {
                    if md.nested == crate::add_arc_mode::AddArcSubstate::WaitingToPlaceStart {
                        assert(sv.nothing_selected());
                    }
                },
            }
        }
        assert(out.inv());
    } else {
        lemma_step_store_plain(sv, m.snap, m.default_layer, m.command, m.snap);
        lemma_step_store_cancel(sv, m.snap, m.default_layer, m.command, m.snap);
        assert(out.at_rest_selection()) by {
            match m.state {
                State::Idle(_) => {
                    assert(sv.nothing_selected());
                },
                State::AddPoint(md) => {
                    if md.nested == crate::add_point_mode::AddPointSubstate::WaitingToPlace {
                        assert(sv.nothing_selected());
                    }
                },
                State::AddLine(md) => {
                    if md.nested == crate::add_line_mode::AddLineSubstate::WaitingToPlaceStart {
                        assert(sv.nothing_selected());
                    }
                },
                State::AddArc(md) => {
                    if md.nested == crate::add_arc_mode::AddArcSubstate::WaitingToPlaceStart {
                        assert(sv.nothing_selected());
                    }
                },
            }
        }
        assert(out.inv());
    }
}

/// The nearest-multiple arithmetic on magnitudes: the result is a multiple
/// of `g` within half a spacing of `u`, and a multiple stays put.
proof fn lemma_nearest_mag_props(u: nat, g: nat)
    requires
        1 <= g,
    ensures
        (nearest_multiple_mag(u, g) as int) % (g as int) == 0,
        2 * abs_int(nearest_multiple_mag(u, g) as int - u) <= g,
        u % g == 0 ==> nearest_multiple_mag(u, g) == u,
{
    let gi = g as int;
    let ui = u as int;
    lemma_mod_bound(ui, gi);
    let r = ui % gi;
    lemma_fundamental_div_mod(ui, gi);
    let q = ui / gi;
    assert(ui - r == gi * q);
    lemma_mod_multiples_basic(q, gi);
    assert((gi * q) % gi == 0) by {
        assert(gi * q == q * gi) by (nonlinear_arith);
    }
    if 2 * r < gi {
    } else {
        assert(ui - r + gi == gi * (q + 1)) by (nonlinear_arith)
            requires
                ui - r == gi * q,
        ;
        lemma_mod_multiples_basic(q + 1, gi);
        assert((gi * (q + 1)) % gi == 0) by {
            assert(gi * (q + 1) == (q + 1) * gi) by (nonlinear_arith);
        }
    }
}

} // verus!
