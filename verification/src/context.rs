//! The application context: the capability surface a mode state uses to
//! reach the scene store, the well-known entities (window, layers, pointer,
//! grid, command) and the one-shot redraw-suppression hint.

use vstd::prelude::*;
use crate::components::Entity;
use crate::geometry::{Geometry, Point, Vector, spec_translate_geometry, spec_translate_point};
use crate::store::{Store, StoreView, spec_set_selected, spec_unselect_entities, unique_ids};

verus! {

/// Pick distance in canvas pixels for [`ApplicationContext::entities_under_point`].
pub const PICK_PIXEL_RADIUS: u64 = 3;

/// Contextual information handed to each mode state when it handles events.
pub struct ApplicationContext {
    /// The scene store.
    pub store: Store,
    /// Entity carrying the `Viewport` component.
    pub window: u64,
    /// Entity new drawing objects attach to.
    pub default_layer: u64,
    /// Entity the system layer (holding the grid) lives on.
    pub system_layer: u64,
    /// The pointer entity.
    pub pointer: u64,
    /// The grid entity.
    pub grid: u64,
    /// The well-known command entity that carries transient markers.
    pub command: u64,
    /// One-shot hint that the canvas need not be redrawn after this event.
    pub suppress_redraw: bool,
}

/// Every selected entity's geometry moved by `d`; other entities unchanged.
pub open spec fn spec_translate_selection(s: Seq<Entity>, d: Vector) -> Seq<Entity> {
    Seq::new(
        s.len(),
        |i: int|
            match s[i].drawing_object {
                Some(obj) => if s[i].selected {
                    Entity {
                        drawing_object: Some(
                            crate::components::DrawingObject {
                                geometry: spec_translate_geometry(obj.geometry, d),
                                ..obj
                            },
                        ),
                        ..s[i]
                    }
                } else {
                    s[i]
                },
                None => s[i],
            },
    )
}

/// The viewport of the entity named `window`, if present, moved by `d`.
pub open spec fn spec_pan_viewport(s: Seq<Entity>, window: u64, d: Vector) -> Seq<Entity> {
    Seq::new(
        s.len(),
        |i: int|
            match s[i].viewport {
                Some(vp) => if s[i].id == window {
                    Entity {
                        viewport: Some(
                            crate::components::Viewport {
                                centre: spec_translate_point(vp.centre, d),
                                ..vp
                            },
                        ),
                        ..s[i]
                    }
                } else {
                    s[i]
                },
                None => s[i],
            },
    )
}

/// Whether `e` is a point vertex lying within the pick distance of
/// `location`: each coordinate is off by at most `PICK_PIXEL_RADIUS` canvas
/// pixels at `ppdu` pixels per drawing unit.
pub open spec fn spec_under_point(e: Entity, location: Point, ppdu: u64) -> bool {
    match e.drawing_object {
        Some(obj) => match obj.geometry {
            Geometry::Point(p) => {
                let dx = if p.x >= location.x {
                    p.x - location.x
                } else {
                    location.x - p.x
                };
                let dy = if p.y >= location.y {
                    p.y - location.y
                } else {
                    location.y - p.y
                };
                dx * ppdu <= PICK_PIXEL_RADIUS && dy * ppdu <= PICK_PIXEL_RADIUS
            },
            _ => false,
        },
        None => false,
    }
}

/// The pixels-per-drawing-unit scale of the entity named `window`, if that
/// entity exists and carries a viewport.
pub open spec fn spec_window_scale(s: Seq<Entity>, window: u64) -> Option<u64>
    decreases s.len(),
{
    if s.len() == 0 {
        None
    } else if s[0].id == window {
        match s[0].viewport {
            Some(vp) => Some(vp.pixels_per_drawing_unit),
            None => None,
        }
    } else {
        spec_window_scale(s.subrange(1, s.len() as int), window)
    }
}

/// The identifiers of the entities under `location`, in store order, at the
/// given scale.
pub open spec fn spec_ids_under_point(s: Seq<Entity>, location: Point, ppdu: u64) -> Seq<u64> {
    s.filter(|e: Entity| spec_under_point(e, location, ppdu)).map_values(|e: Entity| e.id)
}

/// The result of the spatial query: entities under `location` at the
/// window's scale, or nothing when the window has no viewport.
pub open spec fn spec_entities_under_point(v: StoreView, window: u64, location: Point) -> Seq<u64> {
    match spec_window_scale(v.entities, window) {
        Some(ppdu) => spec_ids_under_point(v.entities, location, ppdu),
        None => Seq::empty(),
    }
}

/// Appending an entity extends the query result by its id exactly when it
/// lies under the point.
proof fn lemma_ids_under_push(s: Seq<Entity>, e: Entity, location: Point, ppdu: u64)
    ensures
        spec_ids_under_point(s.push(e), location, ppdu) == if spec_under_point(e, location, ppdu) {
            spec_ids_under_point(s, location, ppdu).push(e.id)
        } else {
            spec_ids_under_point(s, location, ppdu)
        },
{
    reveal(Seq::filter);
    let pred = |x: Entity| spec_under_point(x, location, ppdu);
    assert(s.push(e).drop_last() =~= s);
    assert(s.push(e).last() == e);
    if pred(e) {
        assert(s.push(e).filter(pred) =~= s.filter(pred).push(e));
        assert(s.filter(pred).push(e).map_values(|x: Entity| x.id) =~= s.filter(pred).map_values(
            |x: Entity| x.id,
        ).push(e.id));
    } else {
        assert(s.push(e).filter(pred) =~= s.filter(pred));
    }
}

/// Skipping a head entity that is not the window leaves the scale lookup
/// unchanged.
proof fn lemma_window_scale_skip(s: Seq<Entity>, window: u64, i: int)
    requires
        0 <= i < s.len(),
        s[i].id != window,
    ensures
        spec_window_scale(s.subrange(i, s.len() as int), window) == spec_window_scale(
            s.subrange(i + 1, s.len() as int),
            window,
        ),
{
    let tail = s.subrange(i, s.len() as int);
    assert(tail[0] == s[i]);
    assert(tail.subrange(1, tail.len() as int) =~= s.subrange(i + 1, s.len() as int));
}

impl ApplicationContext {
    /// Scene store access.
    pub fn world(&self) -> (w: &Store)
        ensures
            w == self.store,
    {
        &self.store
    }

    /// Mutable scene store access.
    pub fn world_mut(&mut self) -> (w: &mut Store)
        ensures
            *w == old(self).store,
            *final(self) == (ApplicationContext { store: *final(w), ..*old(self) }),
    {
        &mut self.store
    }

    /// The entity with the `Viewport` component.
    pub fn viewport(&self) -> (r: u64)
        ensures
            r == self.window,
    {
        self.window
    }

    /// The layer new drawing objects attach to.
    pub fn default_layer(&self) -> (r: u64)
        ensures
            r == self.default_layer,
    {
        self.default_layer
    }

    /// The pointer entity.
    pub fn pointer(&self) -> (r: u64)
        ensures
            r == self.pointer,
    {
        self.pointer
    }

    /// The grid entity.
    pub fn grid(&self) -> (r: u64)
        ensures
            r == self.grid,
    {
        self.grid
    }

    /// The well-known command entity.
    pub fn command(&self) -> (r: u64)
        ensures
            r == self.command,
    {
        self.command
    }

    /// Hints that the canvas need not be redrawn after this event handler
    /// returns.
    pub fn suppress_redraw(&mut self)
        ensures
            *final(self) == (ApplicationContext { suppress_redraw: true, ..*old(self) }),
    {
        self.suppress_redraw = true;
    }

    /// Marks an object as selected.
    pub fn select(&mut self, target: u64)
        requires
            unique_ids(old(self).store@.entities),
        ensures
            final(self).store@ =~= (StoreView {
                entities: spec_set_selected(old(self).store@.entities, target, true),
                ..old(self).store@
            }),
            *final(self) == (ApplicationContext { store: final(self).store, ..*old(self) }),
    {
        self.store.set_selected(target, true);
    }

    /// Clears the selection.
    pub fn unselect_all(&mut self)
        ensures
            final(self).store@ =~= (StoreView {
                entities: spec_unselect_entities(old(self).store@.entities),
                ..old(self).store@
            }),
            *final(self) == (ApplicationContext { store: final(self).store, ..*old(self) }),
    {
        self.store.unselect_all();
    }

    /// Translates the geometry of every selected object by `displacement`,
    /// saturating at the coordinate bounds.
    #[verifier::loop_isolation(false)]
    pub fn translate_selection(&mut self, displacement: Vector)
        ensures
            final(self).store@ =~= (StoreView {
                entities: spec_translate_selection(old(self).store@.entities, displacement),
                ..old(self).store@
            }),
            *final(self) == (ApplicationContext { store: final(self).store, ..*old(self) }),
    {
        let n = self.store.entities.len();
        let mut i: usize = 0;
        while i < n
            invariant
                i <= n,
                self.store.entities@.len() == n,
                self.store.next_id == old(self).store.next_id,
                self.store.cursor == old(self).store.cursor,
                *self == (ApplicationContext { store: self.store, ..*old(self) }),
                forall|j: int|
                    0 <= j < i ==> self.store.entities@[j] == spec_translate_selection(
                        old(self).store.entities@,
                        displacement,
                    )[j],
                forall|j: int| i <= j < n ==> self.store.entities@[j] == old(self).store.entities@[j],
            decreases n - i,
        {
            let e = self.store.entities[i];
            if e.selected {
                if let Some(obj) = e.drawing_object {
                    let mut e2 = e;
                    e2.drawing_object = Some(
                        crate::components::DrawingObject {
                            geometry: obj.geometry.translate(displacement),
                            layer: obj.layer,
                        },
                    );
                    self.store.entities[i] = e2;
                }
            }
            i = i + 1;
        }
        proof {
            assert(self.store.entities@ =~= spec_translate_selection(
                old(self).store.entities@,
                displacement,
            ));
        }
    }

    /// Pans the viewport by `displacement`, saturating at the coordinate
    /// bounds.
    #[verifier::loop_isolation(false)]
    pub fn pan_viewport(&mut self, displacement: Vector)
        ensures
            final(self).store@ =~= (StoreView {
                entities: spec_pan_viewport(old(self).store@.entities, old(self).window, displacement),
                ..old(self).store@
            }),
            *final(self) == (ApplicationContext { store: final(self).store, ..*old(self) }),
    {
        let n = self.store.entities.len();
        let mut i: usize = 0;
        while i < n
            invariant
                i <= n,
                self.store.entities@.len() == n,
                self.store.next_id == old(self).store.next_id,
                self.store.cursor == old(self).store.cursor,
                *self == (ApplicationContext { store: self.store, ..*old(self) }),
                forall|j: int|
                    0 <= j < i ==> self.store.entities@[j] == spec_pan_viewport(
                        old(self).store.entities@,
                        old(self).window,
                        displacement,
                    )[j],
                forall|j: int| i <= j < n ==> self.store.entities@[j] == old(self).store.entities@[j],
            decreases n - i,
        {
            let e = self.store.entities[i];
            if e.id == self.window {
                if let Some(vp) = e.viewport {
                    let mut e2 = e;
                    e2.viewport = Some(
                        crate::components::Viewport {
                            centre: vp.centre.translate(displacement),
                            pixels_per_drawing_unit: vp.pixels_per_drawing_unit,
                        },
                    );
                    self.store.entities[i] = e2;
                }
            }
            i = i + 1;
        }
        proof {
            assert(self.store.entities@ =~= spec_pan_viewport(
                old(self).store.entities@,
                old(self).window,
                displacement,
            ));
        }
    }

    /// All entities lying "under" `location`: point vertices within a small
    /// pick box around the cursor, sized from the viewport scale.
    #[verifier::loop_isolation(false)]
    pub fn entities_under_point(&self, location: Point) -> (r: Vec<u64>)
        ensures
            r@ == spec_entities_under_point(self.store@, self.window, location),
    {
        let scale = self.window_scale();
        let mut out: Vec<u64> = Vec::new();
        match scale {
            None => out,
            Some(ppdu) => {
                let s = Ghost(self.store.entities@);
                let n = self.store.entities.len();
                proof {
                    assert(s@.subrange(0, 0) =~= Seq::<Entity>::empty());
                    assert(spec_ids_under_point(Seq::<Entity>::empty(), location, ppdu)
                        =~= Seq::<u64>::empty()) by {
                        reveal(Seq::filter);
                    }
                }
                let mut i: usize = 0;
                while i < n
                    invariant
                        i <= n,
                        out@ == spec_ids_under_point(s@.subrange(0, i as int), location, ppdu),
                    decreases n - i,
                {
                    let e = self.store.entities[i];
                    let mut hit = false;
                    if let Some(obj) = e.drawing_object {
                        if let Geometry::Point(p) = obj.geometry {
                            let dx: u64 = abs_diff_i64(p.x, location.x);
                            let dy: u64 = abs_diff_i64(p.y, location.y);
                            proof {
                                lemma_u64_product_fits_u128(dx, ppdu);
                                lemma_u64_product_fits_u128(dy, ppdu);
                            }
                            if (dx as u128) * (ppdu as u128) <= PICK_PIXEL_RADIUS as u128 && (
                            dy as u128) * (ppdu as u128) <= PICK_PIXEL_RADIUS as u128 {
                                hit = true;
                            }
                        }
                    }
                    if hit {
                        out.push(e.id);
                    }
                    proof {
                        assert(s@.subrange(0, i + 1) =~= s@.subrange(0, i as int).push(e));
                        lemma_ids_under_push(s@.subrange(0, i as int), e, location, ppdu);
                    }
                    i = i + 1;
                }
                proof {
                    assert(s@.subrange(0, n as int) =~= s@);
                }
                out
            },
        }
    }

    /// The window's pixels-per-drawing-unit scale, if its viewport exists.
    #[verifier::loop_isolation(false)]
    fn window_scale(&self) -> (r: Option<u64>)
        ensures
            r == spec_window_scale(self.store@.entities, self.window),
    {
        let s = Ghost(self.store.entities@);
        let n = self.store.entities.len();
        proof {
            assert(s@.subrange(0, n as int) =~= s@);
        }
        let mut i: usize = 0;
        while i < n
            invariant
                i <= n,
                spec_window_scale(s@, self.window) == spec_window_scale(
                    s@.subrange(i as int, n as int),
                    self.window,
                ),
            decreases n - i,
        {
            let e = self.store.entities[i];
            if e.id == self.window {
                proof {
                    let tail = s@.subrange(i as int, n as int);
                    assert(tail[0] == s@[i as int]);
                }
                return match e.viewport {
                    Some(vp) => Some(vp.pixels_per_drawing_unit),
                    None => None,
                };
            }
            proof {
                lemma_window_scale_skip(s@, self.window, i as int);
            }
            i = i + 1;
        }
        proof {
            assert(s@.subrange(n as int, n as int).len() == 0);
        }
        None
    }
}

/// The product of two u64 values fits in u128.
proof fn lemma_u64_product_fits_u128(a: u64, b: u64)
    ensures
        (a as nat) * (b as nat) <= u128::MAX,
{
    assert((a as nat) * (b as nat) <= (u64::MAX as nat) * (u64::MAX as nat)) by (nonlinear_arith)
        requires
            a <= u64::MAX,
            b <= u64::MAX,
    ;
}

/// The absolute difference of two coordinates, exact in u64.
pub fn abs_diff_i64(a: i64, b: i64) -> (r: u64)
    ensures
        r == if a >= b {
            a - b
        } else {
            b - a
        },
{
    if a >= b {
        ((a as i128) - (b as i128)) as u64
    } else {
        ((b as i128) - (a as i128)) as u64
    }
}

} // verus!
