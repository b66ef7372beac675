//! The command systems: a fixed pipeline of three passes run once per
//! processed event, in dependency order. The snap pass adjusts pending
//! command target locations to the grid; the deletion pass tears down the
//! provisional entities when a `Delete` command is staged; the draw pass
//! applies pending `AddPoint`/`AddLine`/`AddArc` commands by creating
//! drawing objects and keeps selected geometry following the live cursor.
//! Every marker is consumed within the pass that reads it, so no marker
//! survives into the next event.

use vstd::prelude::*;
use crate::components::{AddArcCmd, AddLineCmd, AddPointCmd, DrawingObject, Entity};
use crate::geometry::{
    GRID_SPACING, Geometry, Point, snap_point, spec_snap_point,
};
use crate::store::{Store, StoreView};

verus! {

/// `e` with the target locations of its pending commands snapped to the
/// grid. The point command's target is the cursor resource, handled by the
/// pass itself.
pub open spec fn spec_snap_markers(e: Entity, g: nat) -> Entity {
    Entity {
        add_line: match e.add_line {
            Some(c) => Some(AddLineCmd { location: spec_snap_point(c.location, g), layer: c.layer }),
            None => None,
        },
        add_arc: match e.add_arc {
            Some(c) => Some(
                AddArcCmd {
                    start: spec_snap_point(c.start, g),
                    end: spec_snap_point(c.end, g),
                    layer: c.layer,
                },
            ),
            None => None,
        },
        ..e
    }
}

/// Whether an `AddPoint` command is pending anywhere.
pub open spec fn spec_any_add_point(s: Seq<Entity>) -> bool {
    exists|i: int| 0 <= i < s.len() && (#[trigger] s[i]).add_point is Some
}

/// The snap pass: with snapping enabled, every pending command's target
/// location moves to the nearest grid point; the cursor itself snaps when a
/// pending `AddPoint` is about to consume it. With snapping disabled the
/// store is untouched.
pub open spec fn spec_snap_pass(v: StoreView, snap: bool, g: nat) -> StoreView {
    if !snap {
        v
    } else {
        StoreView {
            entities: Seq::new(v.entities.len(), |i: int| spec_snap_markers(v.entities[i], g)),
            next_id: v.next_id,
            cursor: if spec_any_add_point(v.entities) {
                spec_snap_point(v.cursor, g)
            } else {
                v.cursor
            },
        }
    }
}

/// Whether a `Delete` command is pending anywhere.
pub open spec fn spec_delete_requested(s: Seq<Entity>) -> bool {
    exists|i: int| 0 <= i < s.len() && (#[trigger] s[i]).delete
}

/// `e` with the `Delete` marker removed.
pub open spec fn spec_without_delete(e: Entity) -> Entity {
    Entity { delete: false, ..e }
}

/// The entities that survive the deletion pass, with the consumed marker
/// removed: everything but the provisional (selected, geometry-bearing)
/// entities.
pub open spec fn spec_surviving_entities(s: Seq<Entity>) -> Seq<Entity> {
    s.filter(|e: Entity| !e.is_provisional()).map_values(|e: Entity| spec_without_delete(e))
}

/// The deletion pass: a pending `Delete` command removes every provisional
/// entity and is then consumed; with none pending the store is untouched.
pub open spec fn spec_delete_pass(v: StoreView) -> StoreView {
    if spec_delete_requested(v.entities) {
        StoreView { entities: spec_surviving_entities(v.entities), ..v }
    } else {
        v
    }
}

/// The first pending `AddPoint` command in store order.
pub open spec fn spec_first_add_point(s: Seq<Entity>) -> Option<AddPointCmd>
    decreases s.len(),
{
    if s.len() == 0 {
        None
    } else if s[0].add_point is Some {
        s[0].add_point
    } else {
        spec_first_add_point(s.subrange(1, s.len() as int))
    }
}

/// The first pending `AddLine` command in store order.
pub open spec fn spec_first_add_line(s: Seq<Entity>) -> Option<AddLineCmd>
    decreases s.len(),
{
    if s.len() == 0 {
        None
    } else if s[0].add_line is Some {
        s[0].add_line
    } else {
        spec_first_add_line(s.subrange(1, s.len() as int))
    }
}

/// The first pending `AddArc` command in store order.
pub open spec fn spec_first_add_arc(s: Seq<Entity>) -> Option<AddArcCmd>
    decreases s.len(),
{
    if s.len() == 0 {
        None
    } else if s[0].add_arc is Some {
        s[0].add_arc
    } else {
        spec_first_add_arc(s.subrange(1, s.len() as int))
    }
}

/// A freshly created, selected point vertex at `at`.
pub open spec fn spec_point_entity(id: u64, at: Point, layer: u64) -> Entity {
    Entity {
        drawing_object: Some(DrawingObject { geometry: Geometry::Point(at), layer }),
        selected: true,
        ..Entity::spec_empty(id)
    }
}

/// A freshly created, selected line from `a` to `b`.
pub open spec fn spec_line_entity(id: u64, a: Point, b: Point, layer: u64) -> Entity {
    Entity {
        drawing_object: Some(DrawingObject { geometry: Geometry::Line(a, b), layer }),
        selected: true,
        ..Entity::spec_empty(id)
    }
}

/// A freshly created, selected arc from `a` to `b` with control vertex `c`.
pub open spec fn spec_arc_entity(id: u64, a: Point, b: Point, c: Point, layer: u64) -> Entity {
    Entity {
        drawing_object: Some(DrawingObject { geometry: Geometry::Arc(a, b, c), layer }),
        selected: true,
        ..Entity::spec_empty(id)
    }
}

/// `e` with every creation marker removed.
pub open spec fn spec_without_add_markers(e: Entity) -> Entity {
    Entity { add_point: None, add_line: None, add_arc: None, ..e }
}

/// Every entity with its creation markers removed.
pub open spec fn spec_clear_add_markers(s: Seq<Entity>) -> Seq<Entity> {
    Seq::new(s.len(), |i: int| spec_without_add_markers(s[i]))
}

/// `e` with its geometry's free vertex moved to the cursor, if `e` is
/// selected: a line's end and an arc's control vertex follow the live
/// cursor; a placed point vertex and the grid stay put.
pub open spec fn spec_follow_entity(e: Entity, cursor: Point) -> Entity {
    match e.drawing_object {
        Some(obj) => if e.selected {
            let moved = match obj.geometry {
                Geometry::Point(p) => Geometry::Point(p),
                Geometry::Line(a, _) => Geometry::Line(a, cursor),
                Geometry::Arc(a, b, _) => Geometry::Arc(a, b, cursor),
                Geometry::Grid(g) => Geometry::Grid(g),
            };
            Entity { drawing_object: Some(DrawingObject { geometry: moved, layer: obj.layer }), ..e }
        } else {
            e
        },
        None => e,
    }
}

/// Every selected entity's free vertex moved to the cursor.
pub open spec fn spec_follow_cursor(s: Seq<Entity>, cursor: Point) -> Seq<Entity> {
    Seq::new(s.len(), |i: int| spec_follow_entity(s[i], cursor))
}

/// The draw pass: pending creation commands produce fresh selected
/// entities (point, then line, then arc), the commands are consumed, and
/// every selected geometry's free vertex then follows the live cursor.
pub open spec fn spec_draw_pass(v: StoreView) -> StoreView {
    let ap = spec_first_add_point(v.entities);
    let al = spec_first_add_line(v.entities);
    let aa = spec_first_add_arc(v.entities);
    let n0 = v.next_id as int;
    let s1 = if ap is Some {
        v.entities.push(spec_point_entity(n0 as u64, v.cursor, ap->0.layer))
    } else {
        v.entities
    };
    let n1 = if ap is Some {
        n0 + 1
    } else {
        n0
    };
    let s2 = if al is Some {
        s1.push(spec_line_entity(n1 as u64, al->0.location, v.cursor, al->0.layer))
    } else {
        s1
    };
    let n2 = if al is Some {
        n1 + 1
    } else {
        n1
    };
    let s3 = if aa is Some {
        s2.push(spec_arc_entity(n2 as u64, aa->0.start, aa->0.end, v.cursor, aa->0.layer))
    } else {
        s2
    };
    let n3 = if aa is Some {
        n2 + 1
    } else {
        n2
    };
    StoreView {
        entities: spec_follow_cursor(spec_clear_add_markers(s3), v.cursor),
        next_id: n3 as u64,
        cursor: v.cursor,
    }
}

/// The whole pipeline in dependency order: snap, then deletion, then draw.
pub open spec fn spec_run_systems(v: StoreView, snap: bool) -> StoreView {
    spec_draw_pass(spec_delete_pass(spec_snap_pass(v, snap, GRID_SPACING as nat)))
}

/// Appending an entity extends the surviving entities by its cleared image
/// exactly when it is not provisional.
pub proof fn lemma_surviving_push(s: Seq<Entity>, e: Entity)
    ensures
        spec_surviving_entities(s.push(e)) == if !e.is_provisional() {
            spec_surviving_entities(s).push(spec_without_delete(e))
        } else {
            spec_surviving_entities(s)
        },
{
    reveal(Seq::filter);
    let pred = |x: Entity| !x.is_provisional();
    assert(s.push(e).drop_last() =~= s);
    assert(s.push(e).last() == e);
    if pred(e) {
        assert(s.push(e).filter(pred) =~= s.filter(pred).push(e));
        assert(s.filter(pred).push(e).map_values(|x: Entity| spec_without_delete(x)) =~= s.filter(
            pred,
        ).map_values(|x: Entity| spec_without_delete(x)).push(spec_without_delete(e)));
    } else {
        assert(s.push(e).filter(pred) =~= s.filter(pred));
    }
}

/// With no `AddPoint` marker anywhere, the lookup finds nothing.
pub proof fn lemma_first_add_point_none(s: Seq<Entity>)
    requires
        forall|i: int| 0 <= i < s.len() ==> (#[trigger] s[i]).add_point is None,
    ensures
        spec_first_add_point(s) is None,
    decreases s.len(),
{
    if s.len() > 0 {
        lemma_first_add_point_none(s.subrange(1, s.len() as int));
    }
}

/// With no `AddLine` marker anywhere, the lookup finds nothing.
pub proof fn lemma_first_add_line_none(s: Seq<Entity>)
    requires
        forall|i: int| 0 <= i < s.len() ==> (#[trigger] s[i]).add_line is None,
    ensures
        spec_first_add_line(s) is None,
    decreases s.len(),
{
    if s.len() > 0 {
        lemma_first_add_line_none(s.subrange(1, s.len() as int));
    }
}

/// With no `AddArc` marker anywhere, the lookup finds nothing.
pub proof fn lemma_first_add_arc_none(s: Seq<Entity>)
    requires
        forall|i: int| 0 <= i < s.len() ==> (#[trigger] s[i]).add_arc is None,
    ensures
        spec_first_add_arc(s) is None,
    decreases s.len(),
{
    if s.len() > 0 {
        lemma_first_add_arc_none(s.subrange(1, s.len() as int));
    }
}

/// Two stores that agree pointwise on the `AddPoint` slots agree on the
/// lookup.
pub proof fn lemma_first_add_point_agree(s1: Seq<Entity>, s2: Seq<Entity>)
    requires
        s1.len() == s2.len(),
        forall|i: int| 0 <= i < s1.len() ==> (#[trigger] s2[i]).add_point == s1[i].add_point,
    ensures
        spec_first_add_point(s1) == spec_first_add_point(s2),
    decreases s1.len(),
{
    if s1.len() > 0 {
        let t1 = s1.subrange(1, s1.len() as int);
        let t2 = s2.subrange(1, s2.len() as int);
        assert(forall|i: int| 0 <= i < t1.len() ==> (#[trigger] t2[i]).add_point == t1[i].add_point);
        lemma_first_add_point_agree(t1, t2);
    }
}

/// Two stores that agree pointwise on the `AddLine` slots agree on the
/// lookup.
pub proof fn lemma_first_add_line_agree(s1: Seq<Entity>, s2: Seq<Entity>)
    requires
        s1.len() == s2.len(),
        forall|i: int| 0 <= i < s1.len() ==> (#[trigger] s2[i]).add_line == s1[i].add_line,
    ensures
        spec_first_add_line(s1) == spec_first_add_line(s2),
    decreases s1.len(),
{
    if s1.len() > 0 {
        let t1 = s1.subrange(1, s1.len() as int);
        let t2 = s2.subrange(1, s2.len() as int);
        assert(forall|i: int| 0 <= i < t1.len() ==> (#[trigger] t2[i]).add_line == t1[i].add_line);
        lemma_first_add_line_agree(t1, t2);
    }
}

/// Two stores that agree pointwise on the `AddArc` slots agree on the
/// lookup.
pub proof fn lemma_first_add_arc_agree(s1: Seq<Entity>, s2: Seq<Entity>)
    requires
        s1.len() == s2.len(),
        forall|i: int| 0 <= i < s1.len() ==> (#[trigger] s2[i]).add_arc == s1[i].add_arc,
    ensures
        spec_first_add_arc(s1) == spec_first_add_arc(s2),
    decreases s1.len(),
{
    if s1.len() > 0 {
        let t1 = s1.subrange(1, s1.len() as int);
        let t2 = s2.subrange(1, s2.len() as int);
        assert(forall|i: int| 0 <= i < t1.len() ==> (#[trigger] t2[i]).add_arc == t1[i].add_arc);
        lemma_first_add_arc_agree(t1, t2);
    }
}

/// A found `AddPoint` command is carried by some entity.
pub proof fn lemma_first_add_point_member(s: Seq<Entity>)
    requires
        spec_first_add_point(s) is Some,
    ensures
        exists|i: int|
            0 <= i < s.len() && (#[trigger] s[i]).add_point == spec_first_add_point(s),
    decreases s.len(),
{
    if s[0].add_point is Some {
    } else {
        let t = s.subrange(1, s.len() as int);
        lemma_first_add_point_member(t);
        let i = choose|i: int| 0 <= i < t.len() && (#[trigger] t[i]).add_point == spec_first_add_point(t);
        assert(s[i + 1].add_point == spec_first_add_point(s));
    }
}

/// A found `AddLine` command is carried by some entity.
pub proof fn lemma_first_add_line_member(s: Seq<Entity>)
    requires
        spec_first_add_line(s) is Some,
    ensures
        exists|i: int|
            0 <= i < s.len() && (#[trigger] s[i]).add_line == spec_first_add_line(s),
    decreases s.len(),
{
    if s[0].add_line is Some {
    } else {
        let t = s.subrange(1, s.len() as int);
        lemma_first_add_line_member(t);
        let i = choose|i: int| 0 <= i < t.len() && (#[trigger] t[i]).add_line == spec_first_add_line(t);
        assert(s[i + 1].add_line == spec_first_add_line(s));
    }
}

/// A found `AddArc` command is carried by some entity.
pub proof fn lemma_first_add_arc_member(s: Seq<Entity>)
    requires
        spec_first_add_arc(s) is Some,
    ensures
        exists|i: int|
            0 <= i < s.len() && (#[trigger] s[i]).add_arc == spec_first_add_arc(s),
    decreases s.len(),
{
    if s[0].add_arc is Some {
    } else {
        let t = s.subrange(1, s.len() as int);
        lemma_first_add_arc_member(t);
        let i = choose|i: int| 0 <= i < t.len() && (#[trigger] t[i]).add_arc == spec_first_add_arc(t);
        assert(s[i + 1].add_arc == spec_first_add_arc(s));
    }
}

/// Staging an `AddPoint` command on an existing entity makes it the one
/// pending command, provided none was pending.
pub proof fn lemma_first_add_point_after_put(s: Seq<Entity>, id: u64, cmd: AddPointCmd)
    requires
        forall|i: int| 0 <= i < s.len() ==> (#[trigger] s[i]).add_point is None,
    ensures
        spec_first_add_point(crate::store::spec_put_add_point(s, id, cmd))
            == if crate::store::has_id(s, id) {
            Some(cmd)
        } else {
            None
        },
    decreases s.len(),
{
    let p = crate::store::spec_put_add_point(s, id, cmd);
    if s.len() == 0 {
        assert(!crate::store::has_id(s, id));
    } else if s[0].id == id {
        assert(p[0].add_point == Some(cmd));
        assert(crate::store::has_id(s, id));
    } else {
        let t = s.subrange(1, s.len() as int);
        lemma_first_add_point_after_put(t, id, cmd);
        assert(p.subrange(1, p.len() as int) =~= crate::store::spec_put_add_point(t, id, cmd));
        assert(crate::store::has_id(s, id) == crate::store::has_id(t, id)) by {
            if crate::store::has_id(s, id) {
                let j = choose|j: int| 0 <= j < s.len() && s[j].id == id;
                assert(j != 0);
                assert(t[j - 1].id == id);
            }
            if crate::store::has_id(t, id) {
                let j = choose|j: int| 0 <= j < t.len() && t[j].id == id;
                assert(s[j + 1].id == id);
            }
        }
    }
}

/// Staging an `AddLine` command on an existing entity makes it the one
/// pending command, provided none was pending.
pub proof fn lemma_first_add_line_after_put(s: Seq<Entity>, id: u64, cmd: AddLineCmd)
    requires
        forall|i: int| 0 <= i < s.len() ==> (#[trigger] s[i]).add_line is None,
    ensures
        spec_first_add_line(crate::store::spec_put_add_line(s, id, cmd))
            == if crate::store::has_id(s, id) {
            Some(cmd)
        } else {
            None
        },
    decreases s.len(),
{
    let p = crate::store::spec_put_add_line(s, id, cmd);
    if s.len() == 0 {
        assert(!crate::store::has_id(s, id));
    } else if s[0].id == id {
        assert(p[0].add_line == Some(cmd));
        assert(crate::store::has_id(s, id));
    } else {
        let t = s.subrange(1, s.len() as int);
        lemma_first_add_line_after_put(t, id, cmd);
        assert(p.subrange(1, p.len() as int) =~= crate::store::spec_put_add_line(t, id, cmd));
        assert(crate::store::has_id(s, id) == crate::store::has_id(t, id)) by {
            if crate::store::has_id(s, id) {
                let j = choose|j: int| 0 <= j < s.len() && s[j].id == id;
                assert(j != 0);
                assert(t[j - 1].id == id);
            }
            if crate::store::has_id(t, id) {
                let j = choose|j: int| 0 <= j < t.len() && t[j].id == id;
                assert(s[j + 1].id == id);
            }
        }
    }
}

/// Staging an `AddArc` command on an existing entity makes it the one
/// pending command, provided none was pending.
pub proof fn lemma_first_add_arc_after_put(s: Seq<Entity>, id: u64, cmd: AddArcCmd)
    requires
        forall|i: int| 0 <= i < s.len() ==> (#[trigger] s[i]).add_arc is None,
    ensures
        spec_first_add_arc(crate::store::spec_put_add_arc(s, id, cmd))
            == if crate::store::has_id(s, id) {
            Some(cmd)
        } else {
            None
        },
    decreases s.len(),
{
    let p = crate::store::spec_put_add_arc(s, id, cmd);
    if s.len() == 0 {
        assert(!crate::store::has_id(s, id));
    } else if s[0].id == id {
        assert(p[0].add_arc == Some(cmd));
        assert(crate::store::has_id(s, id));
    } else {
        let t = s.subrange(1, s.len() as int);
        lemma_first_add_arc_after_put(t, id, cmd);
        assert(p.subrange(1, p.len() as int) =~= crate::store::spec_put_add_arc(t, id, cmd));
        assert(crate::store::has_id(s, id) == crate::store::has_id(t, id)) by {
            if crate::store::has_id(s, id) {
                let j = choose|j: int| 0 <= j < s.len() && s[j].id == id;
                assert(j != 0);
                assert(t[j - 1].id == id);
            }
            if crate::store::has_id(t, id) {
                let j = choose|j: int| 0 <= j < t.len() && t[j].id == id;
                assert(s[j + 1].id == id);
            }
        }
    }
}

/// Every entity of the surviving store is the cleared image of a
/// non-provisional entity of the input store, and strict id order carries
/// over.
pub proof fn lemma_surviving_sorted(s: Seq<Entity>)
    requires
        forall|i: int, j: int| 0 <= i < j < s.len() ==> s[i].id < s[j].id,
    ensures
        forall|k: int|
            0 <= k < spec_surviving_entities(s).len() ==> exists|j: int|
                0 <= j < s.len() && #[trigger] spec_surviving_entities(s)[k] == spec_without_delete(
                    s[j],
                ) && !s[j].is_provisional(),
        forall|k1: int, k2: int|
            0 <= k1 < k2 < spec_surviving_entities(s).len() ==> spec_surviving_entities(s)[k1].id
                < spec_surviving_entities(s)[k2].id,
    decreases s.len(),
{
    if s.len() == 0 {
        assert(spec_surviving_entities(s) =~= Seq::<Entity>::empty()) by {
            reveal(Seq::filter);
        }
    } else {
        let pre = s.drop_last();
        let e = s.last();
        assert(s =~= pre.push(e));
        lemma_surviving_push(pre, e);
        lemma_surviving_sorted(pre);
        let survp = spec_surviving_entities(pre);
        let surv = spec_surviving_entities(s);
        assert forall|k: int| 0 <= k < surv.len() implies exists|j: int|
            0 <= j < s.len() && #[trigger] surv[k] == spec_without_delete(s[j])
                && !s[j].is_provisional() by {
            if k < survp.len() {
                assert(exists|j: int|
                    0 <= j < pre.len() && #[trigger] survp[k] == spec_without_delete(pre[j])
                        && !pre[j].is_provisional());
                let jj = choose|j: int|
                    0 <= j < pre.len() && #[trigger] survp[k] == spec_without_delete(pre[j])
                        && !pre[j].is_provisional();
                assert(pre[jj] == s[jj]);
                assert(surv[k] == survp[k]);
            } else {
                assert(!e.is_provisional() && surv[k] == spec_without_delete(e));
                assert(s[s.len() - 1] == e);
            }
        }
        assert forall|k1: int, k2: int| 0 <= k1 < k2 < surv.len() implies surv[k1].id
            < surv[k2].id by {
            if k2 < survp.len() {
            } else {
                let jj = choose|j: int|
                    0 <= j < pre.len() && #[trigger] survp[k1] == spec_without_delete(pre[j])
                        && !pre[j].is_provisional();
                assert(surv[k1].id == pre[jj].id);
                assert(pre[jj].id == s[jj].id);
                assert(s[jj].id < e.id);
            }
        }
    }
}

/// With no provisional entity anywhere, the deletion pass only clears the
/// consumed markers.
pub proof fn lemma_surviving_all_kept(s: Seq<Entity>)
    requires
        forall|i: int| 0 <= i < s.len() ==> !(#[trigger] s[i]).is_provisional(),
    ensures
        spec_surviving_entities(s) =~= Seq::new(s.len(), |i: int| spec_without_delete(s[i])),
    decreases s.len(),
{
    if s.len() == 0 {
        reveal(Seq::filter);
    } else {
        let pre = s.drop_last();
        let e = s.last();
        assert(s =~= pre.push(e));
        lemma_surviving_push(pre, e);
        lemma_surviving_all_kept(pre);
        assert(spec_surviving_entities(s) =~= Seq::new(
            pre.len(),
            |i: int| spec_without_delete(pre[i]),
        ).push(spec_without_delete(e)));
    }
}

/// Every surviving entity is the cleared image of some non-provisional
/// entity of the input store.
pub proof fn lemma_surviving_members(s: Seq<Entity>)
    ensures
        forall|k: int|
            0 <= k < spec_surviving_entities(s).len() ==> exists|j: int|
                0 <= j < s.len() && #[trigger] spec_surviving_entities(s)[k] == spec_without_delete(
                    s[j],
                ) && !s[j].is_provisional(),
    decreases s.len(),
{
    if s.len() == 0 {
        assert(spec_surviving_entities(s) =~= Seq::<Entity>::empty()) by {
            reveal(Seq::filter);
        }
    } else {
        let pre = s.drop_last();
        let e = s.last();
        assert(s =~= pre.push(e));
        lemma_surviving_push(pre, e);
        lemma_surviving_members(pre);
        let survp = spec_surviving_entities(pre);
        let surv = spec_surviving_entities(s);
        assert forall|k: int| 0 <= k < surv.len() implies exists|j: int|
            0 <= j < s.len() && #[trigger] surv[k] == spec_without_delete(s[j])
                && !s[j].is_provisional() by {
            if k < survp.len() {
                let jj = choose|j: int|
                    0 <= j < pre.len() && #[trigger] survp[k] == spec_without_delete(pre[j])
                        && !pre[j].is_provisional();
                assert(pre[jj] == s[jj]);
                assert(surv[k] == survp[k]);
            } else {
                assert(!e.is_provisional() && surv[k] == spec_without_delete(e));
                assert(s[s.len() - 1] == e);
            }
        }
    }
}

/// Staging a `Delete` marker changes nothing about which entities survive
/// or what they look like afterwards: the pass consumes the marker anyway.
pub proof fn lemma_surviving_put_delete(s: Seq<Entity>, id: u64)
    ensures
        spec_surviving_entities(crate::store::spec_put_delete(s, id)) =~= spec_surviving_entities(
            s,
        ),
    decreases s.len(),
{
    let d = crate::store::spec_put_delete(s, id);
    if s.len() == 0 {
        assert(d =~= Seq::<Entity>::empty());
        assert(spec_surviving_entities(s) =~= Seq::<Entity>::empty()) by {
            reveal(Seq::filter);
        }
        assert(spec_surviving_entities(d) =~= Seq::<Entity>::empty()) by {
            reveal(Seq::filter);
        }
    } else {
        let pre = s.drop_last();
        let e = s.last();
        assert(s =~= pre.push(e));
        let dpre = crate::store::spec_put_delete(pre, id);
        let de = if e.id == id {
            Entity { delete: true, ..e }
        } else {
            e
        };
        assert(d =~= dpre.push(de));
        lemma_surviving_push(pre, e);
        lemma_surviving_push(dpre, de);
        lemma_surviving_put_delete(pre, id);
        assert(de.is_provisional() == e.is_provisional());
        assert(spec_without_delete(de) == spec_without_delete(e));
        assert(spec_surviving_entities(d) == spec_surviving_entities(dpre.push(de)));
        assert(spec_surviving_entities(s) == spec_surviving_entities(pre.push(e)));
    }
}

/// A non-provisional entity's cleared image survives the deletion pass.
pub proof fn lemma_surviving_contains(s: Seq<Entity>, j: int)
    requires
        0 <= j < s.len(),
        !s[j].is_provisional(),
    ensures
        exists|k: int|
            0 <= k < spec_surviving_entities(s).len() && #[trigger] spec_surviving_entities(s)[k]
                == spec_without_delete(s[j]),
{
    let pred = |e: Entity| !e.is_provisional();
    s.lemma_filter_contains(pred, j);
    let f = s.filter(pred);
    let k = choose|k: int| 0 <= k < f.len() && f[k] == s[j];
    assert(spec_surviving_entities(s)[k] == spec_without_delete(s[j]));
}

/// After the pipeline has run, no command marker remains anywhere.
pub proof fn lemma_pipeline_consumes_markers(v: StoreView, snap: bool)
    ensures
        spec_run_systems(v, snap).no_markers(),
{
    let v1 = spec_snap_pass(v, snap, GRID_SPACING as nat);
    assert(forall|i: int|
        0 <= i < v1.entities.len() ==> (#[trigger] v1.entities[i]).delete == v.entities[i].delete);
    let v2 = spec_delete_pass(v1);
    assert forall|i: int| 0 <= i < v2.entities.len() implies !(#[trigger] v2.entities[i]).delete by {
        if spec_delete_requested(v1.entities) {
            assert(v2.entities[i] == spec_without_delete(
                v1.entities.filter(|e: Entity| !e.is_provisional())[i],
            ));
        }
    }
    let v3 = spec_draw_pass(v2);
    assert forall|i: int| 0 <= i < v3.entities.len() implies !(#[trigger] v3.entities[i]).has_marker()
        by {
        let ap = spec_first_add_point(v2.entities);
        let al = spec_first_add_line(v2.entities);
        let aa = spec_first_add_arc(v2.entities);
        let n0 = v2.next_id as int;
        let s1 = if ap is Some {
            v2.entities.push(spec_point_entity(n0 as u64, v2.cursor, ap->0.layer))
        } else {
            v2.entities
        };
        let n1 = if ap is Some {
            n0 + 1
        } else {
            n0
        };
        let s2 = if al is Some {
            s1.push(spec_line_entity(n1 as u64, al->0.location, v2.cursor, al->0.layer))
        } else {
            s1
        };
        let n2 = if al is Some {
            n1 + 1
        } else {
            n1
        };
        let s3 = if aa is Some {
            s2.push(spec_arc_entity(n2 as u64, aa->0.start, aa->0.end, v2.cursor, aa->0.layer))
        } else {
            s2
        };
        assert(!s3[i].delete);
        assert(v3.entities[i] == spec_follow_entity(spec_without_add_markers(s3[i]), v2.cursor));
    }
}

/// With no marker pending, the pipeline only lets selected geometry follow
/// the cursor: nothing is created, deleted, or left marked.
pub proof fn lemma_pipeline_idle(v: StoreView, snap: bool)
    requires
        v.no_markers(),
    ensures
        spec_run_systems(v, snap) =~= (StoreView {
            entities: spec_follow_cursor(v.entities, v.cursor),
            ..v
        }),
{
    let v1 = spec_snap_pass(v, snap, GRID_SPACING as nat);
    assert(v1 =~= v) by {
        if snap {
            assert forall|i: int| 0 <= i < v.entities.len() implies v1.entities[i]
                == v.entities[i] by {
                assert(!v.entities[i].has_marker());
            }
            assert(!spec_any_add_point(v.entities));
        }
    }
    let v2 = spec_delete_pass(v1);
    assert(v2 == v1) by {
        assert(!spec_delete_requested(v1.entities));
    }
    let v3 = spec_draw_pass(v2);
    assert(spec_first_add_point(v2.entities) is None) by {
        lemma_first_add_point_none(v2.entities);
    }
    assert(spec_first_add_line(v2.entities) is None) by {
        lemma_first_add_line_none(v2.entities);
    }
    assert(spec_first_add_arc(v2.entities) is None) by {
        lemma_first_add_arc_none(v2.entities);
    }
    assert(v3.entities =~= spec_follow_cursor(v.entities, v.cursor)) by {
        assert(spec_clear_add_markers(v2.entities) =~= v2.entities) by {
            assert forall|i: int|
                0 <= i < v2.entities.len() implies spec_without_add_markers(v2.entities[i])
                == v2.entities[i] by {
                assert(!v2.entities[i].has_marker());
            }
        }
    }
}

/// Skipping a head entity without a pending `AddPoint` leaves the lookup
/// unchanged.
proof fn lemma_first_add_point_skip(s: Seq<Entity>, i: int)
    requires
        0 <= i < s.len(),
        s[i].add_point is None,
    ensures
        spec_first_add_point(s.subrange(i, s.len() as int)) == spec_first_add_point(
            s.subrange(i + 1, s.len() as int),
        ),
{
    let tail = s.subrange(i, s.len() as int);
    assert(tail[0] == s[i]);
    assert(tail.subrange(1, tail.len() as int) =~= s.subrange(i + 1, s.len() as int));
}

/// Skipping a head entity without a pending `AddLine` leaves the lookup
/// unchanged.
proof fn lemma_first_add_line_skip(s: Seq<Entity>, i: int)
    requires
        0 <= i < s.len(),
        s[i].add_line is None,
    ensures
        spec_first_add_line(s.subrange(i, s.len() as int)) == spec_first_add_line(
            s.subrange(i + 1, s.len() as int),
        ),
{
    let tail = s.subrange(i, s.len() as int);
    assert(tail[0] == s[i]);
    assert(tail.subrange(1, tail.len() as int) =~= s.subrange(i + 1, s.len() as int));
}

/// Skipping a head entity without a pending `AddArc` leaves the lookup
/// unchanged.
proof fn lemma_first_add_arc_skip(s: Seq<Entity>, i: int)
    requires
        0 <= i < s.len(),
        s[i].add_arc is None,
    ensures
        spec_first_add_arc(s.subrange(i, s.len() as int)) == spec_first_add_arc(
            s.subrange(i + 1, s.len() as int),
        ),
{
    let tail = s.subrange(i, s.len() as int);
    assert(tail[0] == s[i]);
    assert(tail.subrange(1, tail.len() as int) =~= s.subrange(i + 1, s.len() as int));
}

/// The first pending `AddPoint` command.
#[verifier::loop_isolation(false)]
fn find_add_point(store: &Store) -> (r: Option<AddPointCmd>)
    ensures
        r == spec_first_add_point(store@.entities),
{
    let s = Ghost(store.entities@);
    let n = store.entities.len();
    proof {
        assert(s@.subrange(0, n as int) =~= s@);
    }
    let mut i: usize = 0;
    while i < n
        invariant
            i <= n,
            spec_first_add_point(s@) == spec_first_add_point(s@.subrange(i as int, n as int)),
        decreases n - i,
    {
        let e = store.entities[i];
        if let Some(c) = e.add_point {
            proof {
                let tail = s@.subrange(i as int, n as int);
                assert(tail[0] == s@[i as int]);
            }
            return Some(c);
        }
        proof {
            lemma_first_add_point_skip(s@, i as int);
        }
        i = i + 1;
    }
    proof {
        assert(s@.subrange(n as int, n as int).len() == 0);
    }
    None
}

/// The first pending `AddLine` command.
#[verifier::loop_isolation(false)]
fn find_add_line(store: &Store) -> (r: Option<AddLineCmd>)
    ensures
        r == spec_first_add_line(store@.entities),
{
    let s = Ghost(store.entities@);
    let n = store.entities.len();
    proof {
        assert(s@.subrange(0, n as int) =~= s@);
    }
    let mut i: usize = 0;
    while i < n
        invariant
            i <= n,
            spec_first_add_line(s@) == spec_first_add_line(s@.subrange(i as int, n as int)),
        decreases n - i,
    {
        let e = store.entities[i];
        if let Some(c) = e.add_line {
            proof {
                let tail = s@.subrange(i as int, n as int);
                assert(tail[0] == s@[i as int]);
            }
            return Some(c);
        }
        proof {
            lemma_first_add_line_skip(s@, i as int);
        }
        i = i + 1;
    }
    proof {
        assert(s@.subrange(n as int, n as int).len() == 0);
    }
    None
}

/// The first pending `AddArc` command.
#[verifier::loop_isolation(false)]
fn find_add_arc(store: &Store) -> (r: Option<AddArcCmd>)
    ensures
        r == spec_first_add_arc(store@.entities),
{
    let s = Ghost(store.entities@);
    let n = store.entities.len();
    proof {
        assert(s@.subrange(0, n as int) =~= s@);
    }
    let mut i: usize = 0;
    while i < n
        invariant
            i <= n,
            spec_first_add_arc(s@) == spec_first_add_arc(s@.subrange(i as int, n as int)),
        decreases n - i,
    {
        let e = store.entities[i];
        if let Some(c) = e.add_arc {
            proof {
                let tail = s@.subrange(i as int, n as int);
                assert(tail[0] == s@[i as int]);
            }
            return Some(c);
        }
        proof {
            lemma_first_add_arc_skip(s@, i as int);
        }
        i = i + 1;
    }
    proof {
        assert(s@.subrange(n as int, n as int).len() == 0);
    }
    None
}

/// The snap pass.
#[verifier::loop_isolation(false)]
pub fn snap_pass(store: &mut Store, snap: bool)
    ensures
        final(store)@ =~= spec_snap_pass(old(store)@, snap, GRID_SPACING as nat),
{
    if !snap {
        return ;
    }
    let n = store.entities.len();
    let mut has_add_point = false;
    let mut i: usize = 0;
    while i < n
        invariant
            i <= n,
            store.entities@.len() == n,
            store.next_id == old(store).next_id,
            store.cursor == old(store).cursor,
            has_add_point == (exists|j: int|
                0 <= j < i && (#[trigger] old(store).entities@[j]).add_point is Some),
            forall|j: int|
                0 <= j < i ==> store.entities@[j] == spec_snap_markers(
                    old(store).entities@[j],
                    GRID_SPACING as nat,
                ),
            forall|j: int| i <= j < n ==> store.entities@[j] == old(store).entities@[j],
        decreases n - i,
    {
        let e = store.entities[i];
        let mut e2 = e;
        if let Some(c) = e.add_line {
            e2.add_line = Some(
                AddLineCmd { location: snap_point(c.location, GRID_SPACING), layer: c.layer },
            );
        }
        if let Some(c) = e.add_arc {
            e2.add_arc = Some(
                AddArcCmd {
                    start: snap_point(c.start, GRID_SPACING),
                    end: snap_point(c.end, GRID_SPACING),
                    layer: c.layer,
                },
            );
        }
        if e.add_point.is_some() {
            has_add_point = true;
        }
        store.entities[i] = e2;
        proof {
            assert(store.entities@[i as int] == spec_snap_markers(
                old(store).entities@[i as int],
                GRID_SPACING as nat,
            ));
            if old(store).entities@[i as int].add_point is Some {
                assert(exists|j: int|
                    0 <= j < i + 1 && (#[trigger] old(store).entities@[j]).add_point is Some) by {
                    assert(old(store).entities@[i as int].add_point is Some);
                }
            }
        }
        i = i + 1;
    }
    if has_add_point {
        let snapped = snap_point(store.cursor, GRID_SPACING);
        store.cursor = snapped;
    }
    proof {
        assert(store.entities@ =~= spec_snap_pass(
            old(store)@,
            snap,
            GRID_SPACING as nat,
        ).entities);
    }
}

/// Whether a `Delete` command is pending.
#[verifier::loop_isolation(false)]
fn find_delete_requested(store: &Store) -> (r: bool)
    ensures
        r == spec_delete_requested(store@.entities),
{
    let n = store.entities.len();
    let mut found = false;
    let mut i: usize = 0;
    while i < n
        invariant
            i <= n,
            found == (exists|j: int| 0 <= j < i && (#[trigger] store.entities@[j]).delete),
        decreases n - i,
    {
        if store.entities[i].delete {
            found = true;
            proof {
                assert(exists|j: int| 0 <= j < i + 1 && (#[trigger] store.entities@[j]).delete) by {
                    assert(store.entities@[i as int].delete);
                }
            }
        }
        i = i + 1;
    }
    found
}

/// The deletion pass.
#[verifier::loop_isolation(false)]
pub fn delete_pass(store: &mut Store)
    ensures
        final(store)@ =~= spec_delete_pass(old(store)@),
{
    let requested = find_delete_requested(store);
    if !requested {
        return ;
    }
    let n = store.entities.len();
    let mut kept: Vec<Entity> = Vec::new();
    proof {
        assert(store.entities@.subrange(0, 0) =~= Seq::<Entity>::empty());
        assert(spec_surviving_entities(Seq::<Entity>::empty()) =~= Seq::<Entity>::empty()) by {
            reveal(Seq::filter);
        }
    }
    let mut i: usize = 0;
    while i < n
        invariant
            i <= n,
            kept@ == spec_surviving_entities(store.entities@.subrange(0, i as int)),
        decreases n - i,
    {
        let e = store.entities[i];
        let provisional = e.selected && e.drawing_object.is_some();
        if !provisional {
            let mut e2 = e;
            e2.delete = false;
            kept.push(e2);
        }
        proof {
            assert(store.entities@.subrange(0, i + 1) =~= store.entities@.subrange(
                0,
                i as int,
            ).push(e));
            lemma_surviving_push(store.entities@.subrange(0, i as int), e);
        }
        i = i + 1;
    }
    proof {
        assert(store.entities@.subrange(0, n as int) =~= store.entities@);
    }
    store.entities = kept;
}

/// The draw pass.
#[verifier::loop_isolation(false)]
pub fn draw_pass(store: &mut Store)
    requires
        old(store)@.next_id + 3 <= u64::MAX,
    ensures
        final(store)@ =~= spec_draw_pass(old(store)@),
{
    let ap = find_add_point(store);
    let al = find_add_line(store);
    let aa = find_add_arc(store);
    let cursor = store.cursor;
    if let Some(c) = ap {
        let mut t = Entity::empty(0);
        t.drawing_object = Some(
            DrawingObject { geometry: Geometry::Point(cursor), layer: c.layer },
        );
        t.selected = true;
        let _ = store.spawn(t);
    }
    if let Some(c) = al {
        let mut t = Entity::empty(0);
        t.drawing_object = Some(
            DrawingObject { geometry: Geometry::Line(c.location, cursor), layer: c.layer },
        );
        t.selected = true;
        let _ = store.spawn(t);
    }
    if let Some(c) = aa {
        let mut t = Entity::empty(0);
        t.drawing_object = Some(
            DrawingObject { geometry: Geometry::Arc(c.start, c.end, cursor), layer: c.layer },
        );
        t.selected = true;
        let _ = store.spawn(t);
    }
    let ghost mid = store.entities@;
    let n = store.entities.len();
    let mut i: usize = 0;
    while i < n
        invariant
            i <= n,
            store.entities@.len() == n,
            store.next_id == old(store).next_id + (if spec_first_add_point(old(store)@.entities) is Some { 1int } else { 0int }) + (if spec_first_add_line(old(store)@.entities) is Some { 1int } else { 0int }) + (if spec_first_add_arc(old(store)@.entities) is Some { 1int } else { 0int }),
            store.cursor == old(store).cursor,
            forall|j: int|
                0 <= j < i ==> store.entities@[j] == spec_follow_entity(
                    spec_without_add_markers(mid[j]),
                    old(store).cursor,
                ),
            forall|j: int| i <= j < n ==> store.entities@[j] == mid[j],
        decreases n - i,
    {
        let e = store.entities[i];
        let mut e2 = e;
        e2.add_point = None;
        e2.add_line = None;
        e2.add_arc = None;
        if e.selected {
            if let Some(obj) = e.drawing_object {
                let moved = match obj.geometry {
                    Geometry::Point(p) => Geometry::Point(p),
                    Geometry::Line(a, _) => Geometry::Line(a, cursor),
                    Geometry::Arc(a, b, _) => Geometry::Arc(a, b, cursor),
                    Geometry::Grid(g) => Geometry::Grid(g),
                };
                e2.drawing_object = Some(DrawingObject { geometry: moved, layer: obj.layer });
            }
        }
        store.entities[i] = e2;
        proof {
            assert(store.entities@[i as int] == spec_follow_entity(
                spec_without_add_markers(mid[i as int]),
                old(store).cursor,
            ));
        }
        i = i + 1;
    }
    proof {
        assert(store.entities@ =~= spec_draw_pass(old(store)@).entities);
    }
}

/// Runs the whole pipeline once, in dependency order.
pub fn run_systems(store: &mut Store, snap: bool)
    requires
        old(store)@.next_id + 3 <= u64::MAX,
    ensures
        final(store)@ =~= spec_run_systems(old(store)@, snap),
{
    snap_pass(store, snap);
    delete_pass(store);
    draw_pass(store);
}

} // verus!
