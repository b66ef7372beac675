//! The scene store: entities with their components, plus the singleton
//! resources (cursor position). Entities are held in creation order with
//! strictly increasing identifiers; every operation states its exact effect
//! on the abstract view.

use vstd::prelude::*;
use crate::components::{AddArcCmd, AddLineCmd, AddPointCmd, Entity};
use crate::geometry::{Geometry, Point};

verus! {

/// The scene store owned by the editor for the life of one session.
#[derive(Debug)]
pub struct Store {
    pub entities: Vec<Entity>,
    pub next_id: u64,
    /// The last known pointer location in drawing space, updated on every
    /// pointer move; the command systems read it as the live cursor.
    pub cursor: Point,
}

/// The mathematical view of a [`Store`].
#[verifier::ext_equal]
pub struct StoreView {
    pub entities: Seq<Entity>,
    pub next_id: u64,
    pub cursor: Point,
}

impl View for Store {
    type V = StoreView;

    open spec fn view(&self) -> StoreView {
        StoreView { entities: self.entities@, next_id: self.next_id, cursor: self.cursor }
    }
}

/// Whether some entity of `s` has identifier `id`.
pub open spec fn has_id(s: Seq<Entity>, id: u64) -> bool {
    exists|i: int| 0 <= i < s.len() && s[i].id == id
}

/// No two entities of `s` share an identifier.
pub open spec fn unique_ids(s: Seq<Entity>) -> bool {
    forall|i: int, j: int| 0 <= i < j < s.len() ==> s[i].id != s[j].id
}

/// Whether the entity named `id` exists and is selected.
pub open spec fn spec_is_selected(s: Seq<Entity>, id: u64) -> bool {
    exists|i: int| 0 <= i < s.len() && (#[trigger] s[i]).id == id && s[i].selected
}

/// Whether `id` names an entity that carries a `Layer` component and no
/// geometry of its own: a valid layer for drawing objects to reference.
pub open spec fn is_layer_entity(s: Seq<Entity>, id: u64) -> bool {
    exists|i: int|
        0 <= i < s.len() && s[i].id == id && s[i].layer is Some && s[i].drawing_object is None
}

impl StoreView {
    /// Entity identifiers are strictly increasing (hence unique) and below
    /// `next_id`, and every drawing object references a valid layer entity.
    pub open spec fn wf(self) -> bool {
        &&& forall|i: int, j: int|
            0 <= i < j < self.entities.len() ==> self.entities[i].id < self.entities[j].id
        &&& forall|i: int| 0 <= i < self.entities.len() ==> #[trigger] self.entities[i].id < self.next_id
        &&& forall|i: int|
            0 <= i < self.entities.len() && (#[trigger] self.entities[i].drawing_object) is Some
                ==> is_layer_entity(self.entities, self.entities[i].drawing_object->0.layer)
    }

    /// No entity carries a command marker.
    pub open spec fn no_markers(self) -> bool {
        forall|i: int| 0 <= i < self.entities.len() ==> !(#[trigger] self.entities[i]).has_marker()
    }

    /// No entity is selected.
    pub open spec fn nothing_selected(self) -> bool {
        forall|i: int| 0 <= i < self.entities.len() ==> !(#[trigger] self.entities[i]).selected
    }
}

/// Every entity of `s` with the selection marker cleared.
pub open spec fn spec_unselect_entities(s: Seq<Entity>) -> Seq<Entity> {
    Seq::new(s.len(), |i: int| s[i].with_selected(false))
}

/// `s` with the entity named `id`, if any, replaced by `e`'s image under the
/// given per-entity change; all other entities unchanged.
pub open spec fn spec_set_selected(s: Seq<Entity>, id: u64, on: bool) -> Seq<Entity> {
    Seq::new(s.len(), |i: int| if s[i].id == id { s[i].with_selected(on) } else { s[i] })
}

/// `s` with an `AddPoint` marker placed on the entity named `id`.
pub open spec fn spec_put_add_point(s: Seq<Entity>, id: u64, cmd: AddPointCmd) -> Seq<Entity> {
    Seq::new(
        s.len(),
        |i: int| if s[i].id == id { Entity { add_point: Some(cmd), ..s[i] } } else { s[i] },
    )
}

/// `s` with an `AddLine` marker placed on the entity named `id`.
pub open spec fn spec_put_add_line(s: Seq<Entity>, id: u64, cmd: AddLineCmd) -> Seq<Entity> {
    Seq::new(
        s.len(),
        |i: int| if s[i].id == id { Entity { add_line: Some(cmd), ..s[i] } } else { s[i] },
    )
}

/// `s` with an `AddArc` marker placed on the entity named `id`.
pub open spec fn spec_put_add_arc(s: Seq<Entity>, id: u64, cmd: AddArcCmd) -> Seq<Entity> {
    Seq::new(
        s.len(),
        |i: int| if s[i].id == id { Entity { add_arc: Some(cmd), ..s[i] } } else { s[i] },
    )
}

/// `s` with a `Delete` marker placed on the entity named `id`.
pub open spec fn spec_put_delete(s: Seq<Entity>, id: u64) -> Seq<Entity> {
    Seq::new(s.len(), |i: int| if s[i].id == id { Entity { delete: true, ..s[i] } } else { s[i] })
}

/// Entities that agree pointwise on identifiers inherit uniqueness.
pub proof fn lemma_unique_ids_pointwise(s1: Seq<Entity>, s2: Seq<Entity>)
    requires
        s1.len() == s2.len(),
        forall|i: int| 0 <= i < s1.len() ==> (#[trigger] s2[i]).id == s1[i].id,
        unique_ids(s1),
    ensures
        unique_ids(s2),
{
}

/// The location of `e`'s geometry if `e` is selected and a point vertex.
pub open spec fn selected_point_of(e: Entity) -> Option<Point> {
    match e.drawing_object {
        Some(d) => match d.geometry {
            Geometry::Point(p) => if e.selected {
                Some(p)
            } else {
                None
            },
            _ => None,
        },
        None => None,
    }
}

/// The vertices of `e`'s geometry if `e` is selected and a line.
pub open spec fn selected_line_of(e: Entity) -> Option<(Point, Point)> {
    match e.drawing_object {
        Some(d) => match d.geometry {
            Geometry::Line(a, b) => if e.selected {
                Some((a, b))
            } else {
                None
            },
            _ => None,
        },
        None => None,
    }
}

/// The location of the first selected point vertex in store order.
pub open spec fn spec_first_selected_point(s: Seq<Entity>) -> Option<Point>
    decreases s.len(),
{
    if s.len() == 0 {
        None
    } else {
        match selected_point_of(s[0]) {
            Some(p) => Some(p),
            None => spec_first_selected_point(s.subrange(1, s.len() as int)),
        }
    }
}

/// The vertices of the first selected line in store order.
pub open spec fn spec_first_selected_line(s: Seq<Entity>) -> Option<(Point, Point)>
    decreases s.len(),
{
    if s.len() == 0 {
        None
    } else {
        match selected_line_of(s[0]) {
            Some(l) => Some(l),
            None => spec_first_selected_line(s.subrange(1, s.len() as int)),
        }
    }
}

/// With no selected point vertex anywhere, the lookup finds nothing; a
/// pushed entity is found exactly when it is one.
pub proof fn lemma_first_selected_point_push(s: Seq<Entity>, e: Entity)
    requires
        forall|i: int| 0 <= i < s.len() ==> selected_point_of(#[trigger] s[i]) is None,
    ensures
        spec_first_selected_point(s) is None,
        spec_first_selected_point(s.push(e)) == selected_point_of(e),
    decreases s.len(),
{
    if s.len() == 0 {
        assert(s.push(e)[0] == e);
        assert(spec_first_selected_point(s.push(e).subrange(1, 1)) is None);
    } else {
        let t = s.subrange(1, s.len() as int);
        assert(forall|i: int| 0 <= i < t.len() ==> selected_point_of(#[trigger] t[i]) is None);
        lemma_first_selected_point_push(t, e);
        assert(s.push(e).subrange(1, s.push(e).len() as int) =~= t.push(e));
        assert(s.push(e)[0] == s[0]);
    }
}

/// With no selected line anywhere, the lookup finds nothing; a pushed
/// entity is found exactly when it is one.
pub proof fn lemma_first_selected_line_push(s: Seq<Entity>, e: Entity)
    requires
        forall|i: int| 0 <= i < s.len() ==> selected_line_of(#[trigger] s[i]) is None,
    ensures
        spec_first_selected_line(s) is None,
        spec_first_selected_line(s.push(e)) == selected_line_of(e),
    decreases s.len(),
{
    if s.len() == 0 {
        assert(s.push(e)[0] == e);
        assert(spec_first_selected_line(s.push(e).subrange(1, 1)) is None);
    } else {
        let t = s.subrange(1, s.len() as int);
        assert(forall|i: int| 0 <= i < t.len() ==> selected_line_of(#[trigger] t[i]) is None);
        lemma_first_selected_line_push(t, e);
        assert(s.push(e).subrange(1, s.push(e).len() as int) =~= t.push(e));
        assert(s.push(e)[0] == s[0]);
    }
}

/// Skipping a non-hit head leaves the first selected point unchanged.
proof fn lemma_first_selected_point_skip(s: Seq<Entity>, i: int)
    requires
        0 <= i < s.len(),
        selected_point_of(s[i]) is None,
    ensures
        spec_first_selected_point(s.subrange(i, s.len() as int)) == spec_first_selected_point(
            s.subrange(i + 1, s.len() as int),
        ),
{
    let tail = s.subrange(i, s.len() as int);
    assert(tail[0] == s[i]);
    assert(tail.subrange(1, tail.len() as int) =~= s.subrange(i + 1, s.len() as int));
}

/// Skipping a non-hit head leaves the first selected line unchanged.
proof fn lemma_first_selected_line_skip(s: Seq<Entity>, i: int)
    requires
        0 <= i < s.len(),
        selected_line_of(s[i]) is None,
    ensures
        spec_first_selected_line(s.subrange(i, s.len() as int)) == spec_first_selected_line(
            s.subrange(i + 1, s.len() as int),
        ),
{
    let tail = s.subrange(i, s.len() as int);
    assert(tail[0] == s[i]);
    assert(tail.subrange(1, tail.len() as int) =~= s.subrange(i + 1, s.len() as int));
}

impl Store {
    /// An empty store with the cursor at the origin.
    pub fn new() -> (s: Store)
        ensures
            s@.entities =~= Seq::<Entity>::empty(),
            s@.next_id == 0,
            s@.cursor == (Point { x: 0, y: 0 }),
    {
        Store { entities: Vec::new(), next_id: 0, cursor: Point { x: 0, y: 0 } }
    }

    /// Creates a new entity carrying `template`'s components, under a fresh
    /// identifier, and returns that identifier.
    pub fn spawn(&mut self, template: Entity) -> (id: u64)
        requires
            old(self)@.next_id < u64::MAX,
        ensures
            id == old(self)@.next_id,
            final(self)@.entities =~= old(self)@.entities.push(
                Entity { id: old(self)@.next_id, ..template },
            ),
            final(self)@.next_id == old(self)@.next_id + 1,
            final(self)@.cursor == old(self)@.cursor,
    {
        let id = self.next_id;
        let e = Entity { id, ..template };
        self.entities.push(e);
        self.next_id = self.next_id + 1;
        id
    }

    /// Records the pointer's last known drawing-space location.
    pub fn set_cursor(&mut self, p: Point)
        ensures
            final(self)@ =~= (StoreView { cursor: p, ..old(self)@ }),
    {
        self.cursor = p;
    }

    /// The index of the entity named `id`, if it exists.
    #[verifier::loop_isolation(false)]
    fn entity_index(&self, id: u64) -> (r: Option<usize>)
        ensures
            match r {
                Some(i) => i < self.entities@.len() && self.entities@[i as int].id == id,
                None => !has_id(self.entities@, id),
            },
    {
        let n = self.entities.len();
        let mut i: usize = 0;
        while i < n
            invariant
                i <= n,
                forall|j: int| 0 <= j < i ==> self.entities@[j].id != id,
            decreases n - i,
        {
            if self.entities[i].id == id {
                return Some(i);
            }
            i = i + 1;
        }
        None
    }

    /// Sets or clears the selection marker on the entity named `id`; a
    /// missing entity leaves the store unchanged.
    pub fn set_selected(&mut self, id: u64, on: bool)
        requires
            unique_ids(old(self)@.entities),
        ensures
            final(self)@ =~= (StoreView {
                entities: spec_set_selected(old(self)@.entities, id, on),
                ..old(self)@
            }),
    {
        let found = self.entity_index(id);
        match found {
            Some(i) => {
                let mut e = self.entities[i];
                e.selected = on;
                self.entities[i] = e;
                proof {
                    assert(self.entities@ =~= spec_set_selected(old(self)@.entities, id, on));
                }
            },
            None => {
                proof {
                    assert(self.entities@ =~= spec_set_selected(old(self)@.entities, id, on));
                }
            },
        }
    }

    /// Clears the selection marker from every entity.
    #[verifier::loop_isolation(false)]
    pub fn unselect_all(&mut self)
        ensures
            final(self)@ =~= (StoreView {
                entities: spec_unselect_entities(old(self)@.entities),
                ..old(self)@
            }),
    {
        let n = self.entities.len();
        let mut i: usize = 0;
        while i < n
            invariant
                i <= n,
                self.entities@.len() == n,
                self.next_id == old(self).next_id,
                self.cursor == old(self).cursor,
                forall|j: int| 0 <= j < i ==> self.entities@[j] == old(self).entities@[j].with_selected(false),
                forall|j: int| i <= j < n ==> self.entities@[j] == old(self).entities@[j],
            decreases n - i,
        {
            let mut e = self.entities[i];
            e.selected = false;
            self.entities[i] = e;
            i = i + 1;
        }
        proof {
            assert(self.entities@ =~= spec_unselect_entities(old(self)@.entities));
        }
    }

    /// Places an `AddPoint` marker on the entity named `id`; a missing
    /// entity leaves the store unchanged.
    pub fn put_add_point(&mut self, id: u64, cmd: AddPointCmd)
        requires
            unique_ids(old(self)@.entities),
        ensures
            final(self)@ =~= (StoreView {
                entities: spec_put_add_point(old(self)@.entities, id, cmd),
                ..old(self)@
            }),
    {
        let found = self.entity_index(id);
        match found {
            Some(i) => {
                let mut e = self.entities[i];
                e.add_point = Some(cmd);
                self.entities[i] = e;
                proof {
                    assert(self.entities@ =~= spec_put_add_point(old(self)@.entities, id, cmd));
                }
            },
            None => {
                proof {
                    assert(self.entities@ =~= spec_put_add_point(old(self)@.entities, id, cmd));
                }
            },
        }
    }

    /// Places an `AddLine` marker on the entity named `id`; a missing
    /// entity leaves the store unchanged.
    pub fn put_add_line(&mut self, id: u64, cmd: AddLineCmd)
        requires
            unique_ids(old(self)@.entities),
        ensures
            final(self)@ =~= (StoreView {
                entities: spec_put_add_line(old(self)@.entities, id, cmd),
                ..old(self)@
            }),
    {
        let found = self.entity_index(id);
        match found {
            Some(i) => {
                let mut e = self.entities[i];
                e.add_line = Some(cmd);
                self.entities[i] = e;
                proof {
                    assert(self.entities@ =~= spec_put_add_line(old(self)@.entities, id, cmd));
                }
            },
            None => {
                proof {
                    assert(self.entities@ =~= spec_put_add_line(old(self)@.entities, id, cmd));
                }
            },
        }
    }

    /// Places an `AddArc` marker on the entity named `id`; a missing entity
    /// leaves the store unchanged.
    pub fn put_add_arc(&mut self, id: u64, cmd: AddArcCmd)
        requires
            unique_ids(old(self)@.entities),
        ensures
            final(self)@ =~= (StoreView {
                entities: spec_put_add_arc(old(self)@.entities, id, cmd),
                ..old(self)@
            }),
    {
        let found = self.entity_index(id);
        match found {
            Some(i) => {
                let mut e = self.entities[i];
                e.add_arc = Some(cmd);
                self.entities[i] = e;
                proof {
                    assert(self.entities@ =~= spec_put_add_arc(old(self)@.entities, id, cmd));
                }
            },
            None => {
                proof {
                    assert(self.entities@ =~= spec_put_add_arc(old(self)@.entities, id, cmd));
                }
            },
        }
    }

    /// Places a `Delete` marker on the entity named `id`; a missing entity
    /// leaves the store unchanged.
    pub fn put_delete(&mut self, id: u64)
        requires
            unique_ids(old(self)@.entities),
        ensures
            final(self)@ =~= (StoreView {
                entities: spec_put_delete(old(self)@.entities, id),
                ..old(self)@
            }),
    {
        let found = self.entity_index(id);
        match found {
            Some(i) => {
                let mut e = self.entities[i];
                e.delete = true;
                self.entities[i] = e;
                proof {
                    assert(self.entities@ =~= spec_put_delete(old(self)@.entities, id));
                }
            },
            None => {
                proof {
                    assert(self.entities@ =~= spec_put_delete(old(self)@.entities, id));
                }
            },
        }
    }

    /// The location of the first selected point vertex, if any.
    #[verifier::loop_isolation(false)]
    pub fn first_selected_point(&self) -> (r: Option<Point>)
        ensures
            r == spec_first_selected_point(self@.entities),
    {
        let s = Ghost(self.entities@);
        let n = self.entities.len();
        proof {
            assert(s@.subrange(0, n as int) =~= s@);
        }
        let mut i: usize = 0;
        while i < n
            invariant
                i <= n,
                spec_first_selected_point(s@) == spec_first_selected_point(
                    s@.subrange(i as int, n as int),
                ),
            decreases n - i,
        {
            let e = self.entities[i];
            if e.selected {
                if let Some(d) = e.drawing_object {
                    if let Geometry::Point(p) = d.geometry {
                        proof {
                            let tail = s@.subrange(i as int, n as int);
                            assert(tail[0] == s@[i as int]);
                        }
                        return Some(p);
                    }
                }
            }
            proof {
                lemma_first_selected_point_skip(s@, i as int);
            }
            i = i + 1;
        }
        proof {
            assert(s@.subrange(n as int, n as int).len() == 0);
        }
        None
    }

    /// The vertices of the first selected line, if any.
    #[verifier::loop_isolation(false)]
    pub fn first_selected_line(&self) -> (r: Option<(Point, Point)>)
        ensures
            r == spec_first_selected_line(self@.entities),
    {
        let s = Ghost(self.entities@);
        let n = self.entities.len();
        proof {
            assert(s@.subrange(0, n as int) =~= s@);
        }
        let mut i: usize = 0;
        while i < n
            invariant
                i <= n,
                spec_first_selected_line(s@) == spec_first_selected_line(
                    s@.subrange(i as int, n as int),
                ),
            decreases n - i,
        {
            let e = self.entities[i];
            if e.selected {
                if let Some(d) = e.drawing_object {
                    if let Geometry::Line(a, b) = d.geometry {
                        proof {
                            let tail = s@.subrange(i as int, n as int);
                            assert(tail[0] == s@[i as int]);
                        }
                        return Some((a, b));
                    }
                }
            }
            proof {
                lemma_first_selected_line_skip(s@, i as int);
            }
            i = i + 1;
        }
        proof {
            assert(s@.subrange(n as int, n as int).len() == 0);
        }
        None
    }

    /// Whether the entity named `id` exists and is selected.
    #[verifier::loop_isolation(false)]
    pub fn is_selected(&self, id: u64) -> (r: bool)
        ensures
            r == spec_is_selected(self@.entities, id),
    {
        let n = self.entities.len();
        let mut found = false;
        let mut i: usize = 0;
        while i < n
            invariant
                i <= n,
                found == (exists|j: int|
                    0 <= j < i && (#[trigger] self.entities@[j]).id == id
                        && self.entities@[j].selected),
            decreases n - i,
        {
            let e = self.entities[i];
            if e.id == id && e.selected {
                found = true;
                proof {
                    assert(exists|j: int|
                        0 <= j < i + 1 && (#[trigger] self.entities@[j]).id == id
                            && self.entities@[j].selected) by {
                        assert(self.entities@[i as int].id == id && self.entities@[i as int].selected);
                    }
                }
            }
            i = i + 1;
        }
        found
    }

    /// How many entities the store holds.
    pub fn num_entities(&self) -> (n: usize)
        ensures
            n == self@.entities.len(),
    {
        self.entities.len()
    }

    /// The entity at position `i` in store order, if in range.
    pub fn entity_at(&self, i: usize) -> (r: Option<Entity>)
        ensures
            match r {
                Some(e) => i < self@.entities.len() && e == self@.entities[i as int],
                None => i >= self@.entities.len(),
            },
    {
        if i < self.entities.len() {
            Some(self.entities[i])
        } else {
            None
        }
    }

    /// The entity named `id`, if it exists.
    pub fn entity(&self, id: u64) -> (r: Option<Entity>)
        ensures
            match r {
                Some(e) => has_id(self@.entities, id) && e.id == id && self@.entities.contains(e),
                None => !has_id(self@.entities, id),
            },
    {
        let found = self.entity_index(id);
        match found {
            Some(i) => {
                let e = self.entities[i];
                proof {
                    assert(self@.entities[i as int] == e);
                }
                Some(e)
            },
            None => None,
        }
    }
}

} // verus!
