//! The editor model: the scene store behind its application context, the
//! active mode, and the snap toggle. One input event is fully processed
//! before the next is accepted: the mode handles the event, the returned
//! transition is applied, and the command-system pipeline runs. Redraw
//! suppression is a paint-only hint; it never defers a scene mutation.

use vstd::prelude::*;
use crate::add_arc_mode::{AddArcMode, AddArcSubstate, spec_add_arc_cancel, spec_add_arc_mouse_down, spec_add_arc_mouse_move, spec_add_arc_mouse_up};
use crate::add_line_mode::{AddLineMode, AddLineSubstate, spec_add_line_cancel, spec_add_line_mouse_down, spec_add_line_mouse_move, spec_add_line_mouse_up};
use crate::add_point_mode::{AddPointMode, AddPointSubstate, spec_add_point_cancel, spec_add_point_mouse_down, spec_add_point_mouse_move, spec_add_point_mouse_up};
use crate::components::{Entity, Layer, LayerType, LineStyle, PointStyle, Viewport};
use crate::context::ApplicationContext;
use crate::geometry::{GRID_SPACING, Geometry, GridGeometry, Point};
use crate::keyboard_event_args::{KeyboardEventArgs, VirtualKeyCode};
use crate::modes::{Idle, MouseEventArgs, State, Transition, spec_mode_for_button};
use crate::msg::ButtonType;
use crate::store::{Store, StoreView, is_layer_entity, unique_ids};
use crate::systems::{run_systems, spec_run_systems};

verus! {

/// Every selected entity carries geometry; only such entities are ever
/// provisional, so cancellation can tear down exactly the selection.
pub open spec fn selected_have_geometry(s: Seq<Entity>) -> bool {
    forall|i: int|
        0 <= i < s.len() ==> ((#[trigger] s[i]).selected ==> s[i].drawing_object is Some)
}

/// The command entity exists and carries no geometry of its own, so the
/// deletion pass can never remove it.
pub open spec fn command_ok(s: Seq<Entity>, command: u64) -> bool {
    exists|i: int| 0 <= i < s.len() && (#[trigger] s[i]).id == command && s[i].drawing_object is None
}

/// The snap flag of `e`'s grid geometry, if it has one.
pub open spec fn grid_flag_of(e: Entity) -> Option<bool> {
    match e.drawing_object {
        Some(obj) => match obj.geometry {
            Geometry::Grid(g) => Some(g.snap),
            _ => None,
        },
        None => None,
    }
}

/// Every grid geometry's snap flag mirrors the editor's snap toggle.
pub open spec fn grids_mirror(s: Seq<Entity>, snap: bool) -> bool {
    forall|i: int|
        0 <= i < s.len() ==> (grid_flag_of(#[trigger] s[i]) is Some ==> grid_flag_of(s[i])->0
            == snap)
}

/// The mathematical view of a [`Model`].
#[verifier::ext_equal]
pub struct ModelView {
    pub store: StoreView,
    pub window: u64,
    pub default_layer: u64,
    pub system_layer: u64,
    pub pointer: u64,
    pub grid: u64,
    pub command: u64,
    pub suppress_redraw: bool,
    pub state: State,
    pub snap: bool,
}

/// The editor model.
pub struct Model {
    /// The scene store and the well-known entities, as the capability
    /// surface the mode states see.
    pub ctx: ApplicationContext,
    /// The active mode.
    pub current_state: State,
    /// Whether grid snapping is enabled.
    pub snap: bool,
}

impl View for Model {
    type V = ModelView;

    open spec fn view(&self) -> ModelView {
        ModelView {
            store: self.ctx.store@,
            window: self.ctx.window,
            default_layer: self.ctx.default_layer,
            system_layer: self.ctx.system_layer,
            pointer: self.ctx.pointer,
            grid: self.ctx.grid,
            command: self.ctx.command,
            suppress_redraw: self.ctx.suppress_redraw,
            state: self.current_state,
            snap: self.snap,
        }
    }
}

impl ModelView {
    /// Whenever a sub-state is at its waiting-to-start entry point (or the
    /// editor is idle), no provisional state is outstanding: nothing is
    /// selected.
    pub open spec fn at_rest_selection(self) -> bool {
        match self.state {
            State::Idle(_) => self.store.nothing_selected(),
            State::AddPoint(m) => m.nested == AddPointSubstate::WaitingToPlace
                ==> self.store.nothing_selected(),
            State::AddLine(m) => m.nested == AddLineSubstate::WaitingToPlaceStart
                ==> self.store.nothing_selected(),
            State::AddArc(m) => m.nested == AddArcSubstate::WaitingToPlaceStart
                ==> self.store.nothing_selected(),
        }
    }

    /// The editor's invariant between events: the store is well formed, no
    /// command marker survives an event, selection implies geometry, the
    /// default layer and the command entity are in place, grid geometry
    /// mirrors the snap toggle, and waiting states hold no selection.
    pub open spec fn inv(self) -> bool {
        &&& self.store.wf()
        &&& self.store.no_markers()
        &&& selected_have_geometry(self.store.entities)
        &&& is_layer_entity(self.store.entities, self.default_layer)
        &&& command_ok(self.store.entities, self.command)
        &&& grids_mirror(self.store.entities, self.snap)
        &&& self.at_rest_selection()
    }
}

/// The mode's reaction to a pointer press: the new mode and the store as
/// the handler leaves it, before the pipeline runs.
pub open spec fn spec_state_mouse_down(
    state: State,
    sv: StoreView,
    command: u64,
    default_layer: u64,
    loc: Point,
) -> (State, StoreView) {
    match state {
        State::Idle(_) => (state, sv),
        State::AddPoint(m) => {
            let r = spec_add_point_mouse_down(m, sv, command, default_layer, loc);
            (State::AddPoint(r.0), r.1)
        },
        State::AddLine(m) => {
            let r = spec_add_line_mouse_down(m, sv, command, default_layer, loc);
            (State::AddLine(r.0), r.1)
        },
        State::AddArc(m) => {
            let r = spec_add_arc_mouse_down(m, sv, command, default_layer, loc);
            (State::AddArc(r.0), r.1)
        },
    }
}

/// The mode's reaction to a pointer release.
pub open spec fn spec_state_mouse_up(
    state: State,
    sv: StoreView,
    command: u64,
    default_layer: u64,
) -> (State, StoreView) {
    match state {
        State::Idle(_) => (state, sv),
        State::AddPoint(m) => {
            let r = spec_add_point_mouse_up(m, sv);
            (State::AddPoint(r.0), r.1)
        },
        State::AddLine(m) => {
            let r = spec_add_line_mouse_up(m, sv, command, default_layer);
            (State::AddLine(r.0), r.1)
        },
        State::AddArc(m) => {
            let r = spec_add_arc_mouse_up(m, sv, command, default_layer);
            (State::AddArc(r.0), r.1)
        },
    }
}

/// The mode's reaction to a pointer move: the store as the handler leaves
/// it and whether the redraw may be suppressed.
pub open spec fn spec_state_mouse_move(state: State, sv: StoreView, loc: Point) -> (
    StoreView,
    bool,
) {
    match state {
        State::Idle(_) => (sv, true),
        State::AddPoint(m) => spec_add_point_mouse_move(m, sv, loc),
        State::AddLine(m) => spec_add_line_mouse_move(m, sv, loc),
        State::AddArc(m) => spec_add_arc_mouse_move(m, sv, loc),
    }
}

/// The mode's reaction to a key press: escape cancels the in-progress edit
/// and falls back to idle; other keys do nothing.
pub open spec fn spec_state_key(
    state: State,
    sv: StoreView,
    command: u64,
    args: KeyboardEventArgs,
) -> (State, StoreView) {
    if args.key == Some(VirtualKeyCode::Escape) {
        match state {
            State::Idle(_) => (state, sv),
            State::AddPoint(m) => (State::Idle(Idle), spec_add_point_cancel(m, sv, command).1),
            State::AddLine(m) => (State::Idle(Idle), spec_add_line_cancel(m, sv, command).1),
            State::AddArc(m) => (State::Idle(Idle), spec_add_arc_cancel(m, sv, command).1),
        }
    } else {
        (state, sv)
    }
}

/// The mode's reaction to a toolbar button: the snap toggle changes no
/// mode; any other button cancels the current mode and switches to the
/// mode it requests.
pub open spec fn spec_state_button(state: State, sv: StoreView, command: u64, b: ButtonType) -> (
    State,
    StoreView,
) {
    if b == ButtonType::Snap {
        (state, sv)
    } else {
        match state {
            State::Idle(_) => (spec_mode_for_button(b), sv),
            State::AddPoint(m) => (spec_mode_for_button(b), spec_add_point_cancel(m, sv, command).1),
            State::AddLine(m) => (spec_mode_for_button(b), spec_add_line_cancel(m, sv, command).1),
            State::AddArc(m) => (spec_mode_for_button(b), spec_add_arc_cancel(m, sv, command).1),
        }
    }
}

/// Every grid geometry's snap flag set to `on`.
pub open spec fn spec_set_grid_snap(s: Seq<Entity>, on: bool) -> Seq<Entity> {
    Seq::new(
        s.len(),
        |i: int|
            match s[i].drawing_object {
                Some(obj) => match obj.geometry {
                    Geometry::Grid(g) => Entity {
                        drawing_object: Some(
                            crate::components::DrawingObject {
                                geometry: Geometry::Grid(GridGeometry { snap: on, ..g }),
                                ..obj
                            },
                        ),
                        ..s[i]
                    },
                    _ => s[i],
                },
                None => s[i],
            },
    )
}

/// One fully processed pointer-press event.
pub open spec fn spec_step_mouse_down(m: ModelView, args: MouseEventArgs) -> ModelView {
    let r = spec_state_mouse_down(m.state, m.store, m.command, m.default_layer, args.location);
    ModelView {
        state: r.0,
        store: spec_run_systems(r.1, m.snap),
        suppress_redraw: false,
        ..m
    }
}

/// One fully processed pointer-release event.
pub open spec fn spec_step_mouse_up(m: ModelView, args: MouseEventArgs) -> ModelView {
    let r = spec_state_mouse_up(m.state, m.store, m.command, m.default_layer);
    ModelView {
        state: r.0,
        store: spec_run_systems(r.1, m.snap),
        suppress_redraw: false,
        ..m
    }
}

/// One fully processed pointer-move event. Suppression only skips the
/// paint step; the pipeline still runs.
pub open spec fn spec_step_mouse_move(m: ModelView, args: MouseEventArgs) -> ModelView {
    let r = spec_state_mouse_move(m.state, m.store, args.location);
    ModelView {
        state: m.state,
        store: spec_run_systems(r.0, m.snap),
        suppress_redraw: r.1,
        ..m
    }
}

/// One fully processed key-press event.
pub open spec fn spec_step_key(m: ModelView, args: KeyboardEventArgs) -> ModelView {
    let r = spec_state_key(m.state, m.store, m.command, args);
    ModelView {
        state: r.0,
        store: spec_run_systems(r.1, m.snap),
        suppress_redraw: false,
        ..m
    }
}

/// One fully processed toolbar-click event. The snap toggle flips the
/// editor's snap flag and mirrors it onto every grid geometry before the
/// mode sees the click.
pub open spec fn spec_step_button(m: ModelView, b: ButtonType) -> ModelView {
    let snap2 = if b == ButtonType::Snap {
        !m.snap
    } else {
        m.snap
    };
    let sv0 = if b == ButtonType::Snap {
        StoreView { entities: spec_set_grid_snap(m.store.entities, snap2), ..m.store }
    } else {
        m.store
    };
    let r = spec_state_button(m.state, sv0, m.command, b);
    ModelView {
        state: r.0,
        store: spec_run_systems(r.1, snap2),
        suppress_redraw: false,
        snap: snap2,
        ..m
    }
}

/// The scene a fresh editor starts from: the default layer (with point
/// styling), the system layer (with stroke styling), the window with its
/// viewport, the pointer, the grid on the system layer, and the command
/// entity.
pub open spec fn spec_initial_entities() -> Seq<Entity> {
    seq![
        Entity {
            layer: Some(Layer { z_level: 1, visible: true, layer_type: LayerType::Drawing }),
            point_style: Some(PointStyle { radius_pixels: 3 }),
            ..Entity::spec_empty(0)
        },
        Entity {
            layer: Some(Layer { z_level: 0, visible: true, layer_type: LayerType::System }),
            line_style: Some(LineStyle { width_pixels: 1 }),
            ..Entity::spec_empty(1)
        },
        Entity {
            viewport: Some(
                Viewport { centre: Point { x: 0, y: 0 }, pixels_per_drawing_unit: 1 },
            ),
            ..Entity::spec_empty(2)
        },
        Entity::spec_empty(3),
        Entity {
            drawing_object: Some(
                crate::components::DrawingObject {
                    geometry: Geometry::Grid(GridGeometry { spacing: GRID_SPACING, snap: false }),
                    layer: 1,
                },
            ),
            ..Entity::spec_empty(4)
        },
        Entity::spec_empty(5),
    ]
}

/// The view of a fresh editor: idle, snapping off, cursor at the origin.
pub open spec fn spec_initial_model() -> ModelView {
    ModelView {
        store: StoreView {
            entities: spec_initial_entities(),
            next_id: 6,
            cursor: Point { x: 0, y: 0 },
        },
        window: 2,
        default_layer: 0,
        system_layer: 1,
        pointer: 3,
        grid: 4,
        command: 5,
        suppress_redraw: false,
        state: State::Idle(Idle),
        snap: false,
    }
}

/// Strictly increasing identifiers are unique.
pub proof fn lemma_sorted_unique(s: Seq<Entity>)
    requires
        forall|i: int, j: int| 0 <= i < j < s.len() ==> s[i].id < s[j].id,
    ensures
        unique_ids(s),
{
}

impl Model {
    /// A fresh editor: idle, snapping off, and the well-known entities in
    /// place.
    pub fn new() -> (m: Model)
        ensures
            m@ =~= spec_initial_model(),
            m@.inv(),
    {
        let mut store = Store::new();
        let mut t = Entity::empty(0);
        t.layer = Some(Layer { z_level: 1, visible: true, layer_type: LayerType::Drawing });
        t.point_style = Some(PointStyle { radius_pixels: 3 });
        let default_layer = store.spawn(t);

        let mut t = Entity::empty(0);
        t.layer = Some(Layer { z_level: 0, visible: true, layer_type: LayerType::System });
        t.line_style = Some(LineStyle { width_pixels: 1 });
        let system_layer = store.spawn(t);

        let mut t = Entity::empty(0);
        t.viewport = Some(Viewport { centre: Point { x: 0, y: 0 }, pixels_per_drawing_unit: 1 });
        let window = store.spawn(t);

        let pointer = store.spawn(Entity::empty(0));

        let mut t = Entity::empty(0);
        t.drawing_object = Some(
            crate::components::DrawingObject {
                geometry: Geometry::Grid(GridGeometry { spacing: GRID_SPACING, snap: false }),
                layer: system_layer,
            },
        );
        let grid = store.spawn(t);

        let command = store.spawn(Entity::empty(0));

        let m = Model {
            ctx: ApplicationContext {
                store,
                window,
                default_layer,
                system_layer,
                pointer,
                grid,
                command,
                suppress_redraw: false,
            },
            current_state: State::Idle(Idle),
            snap: false,
        };
        proof {
            assert(m@.store.entities =~= spec_initial_entities());
            assert(m@ =~= spec_initial_model());
            assert(m@.store.wf()) by {
                assert(is_layer_entity(m@.store.entities, 1)) by {
                    assert(m@.store.entities[1].id == 1 && m@.store.entities[1].layer is Some
                        && m@.store.entities[1].drawing_object is None);
                }
            }
            assert(is_layer_entity(m@.store.entities, 0)) by {
                assert(m@.store.entities[0].id == 0 && m@.store.entities[0].layer is Some
                    && m@.store.entities[0].drawing_object is None);
            }
            assert(command_ok(m@.store.entities, 5)) by {
                assert(m@.store.entities[5].id == 5 && m@.store.entities[5].drawing_object is None);
            }
        }
        m
    }

    /// The active mode.
    pub fn current_state(&self) -> (s: &State)
        ensures
            s == self.current_state,
    {
        &self.current_state
    }

    /// The scene store, for the view layer to iterate.
    pub fn world(&self) -> (w: &Store)
        ensures
            w == self.ctx.store,
    {
        &self.ctx.store
    }

    /// Whether grid snapping is enabled.
    pub fn snap_enabled(&self) -> (r: bool)
        ensures
            r == self.snap,
    {
        self.snap
    }

    /// Whether enough identifier headroom remains to process another
    /// event; a host checks this before delivering one.
    pub fn has_capacity(&self) -> (r: bool)
        ensures
            r == (self@.store.next_id + 3 <= u64::MAX),
    {
        self.ctx.store.next_id <= u64::MAX - 3
    }

    /// Applies a transition returned by a mode handler.
    fn handle_transition(&mut self, transition: Transition)
        ensures
            *final(self) == match transition {
                Transition::ChangeState(s) => Model { current_state: s, ..*old(self) },
                Transition::DoNothing => *old(self),
            },
    {
        match transition {
            Transition::ChangeState(new_state) => {
                self.current_state = new_state;
            },
            Transition::DoNothing => {},
        }
    }

    /// Handles a pointer press and reports whether the host should repaint.
    pub fn on_mouse_down(&mut self, args: &MouseEventArgs) -> (render: bool)
        requires
            old(self)@.inv(),
            old(self)@.store.next_id + 3 <= u64::MAX,
        ensures
            final(self)@ =~= spec_step_mouse_down(old(self)@, *args),
            final(self)@.inv(),
            final(self)@.store.no_markers(),
            render == !final(self)@.suppress_redraw,
    {
        proof {
            crate::laws::lemma_mouse_down_preserves_inv(old(self)@, *args);
        }
        proof {
            lemma_sorted_unique(self.ctx.store@.entities);
        }
        self.ctx.suppress_redraw = false;
        let t = match self.current_state {
            State::Idle(_) => Transition::DoNothing,
            State::AddPoint(mut m) => {
                let t = m.on_mouse_down(&mut self.ctx, args);
                self.current_state = State::AddPoint(m);
                t
            },
            State::AddLine(mut m) => {
                let t = m.on_mouse_down(&mut self.ctx, args);
                self.current_state = State::AddLine(m);
                t
            },
            State::AddArc(mut m) => {
                let t = m.on_mouse_down(&mut self.ctx, args);
                self.current_state = State::AddArc(m);
                t
            },
        };
        self.handle_transition(t);
        run_systems(&mut self.ctx.store, self.snap);
        !self.ctx.suppress_redraw
    }

    /// Handles a pointer release and reports whether the host should
    /// repaint.
    pub fn on_mouse_up(&mut self, args: &MouseEventArgs) -> (render: bool)
        requires
            old(self)@.inv(),
            old(self)@.store.next_id + 3 <= u64::MAX,
        ensures
            final(self)@ =~= spec_step_mouse_up(old(self)@, *args),
            final(self)@.inv(),
            final(self)@.store.no_markers(),
            render == !final(self)@.suppress_redraw,
    {
        proof {
            crate::laws::lemma_mouse_up_preserves_inv(old(self)@, *args);
        }
        proof {
            lemma_sorted_unique(self.ctx.store@.entities);
        }
        self.ctx.suppress_redraw = false;
        let t = match self.current_state {
            State::Idle(_) => Transition::DoNothing,
            State::AddPoint(mut m) => {
                let t = m.on_mouse_up(&mut self.ctx, args);
                self.current_state = State::AddPoint(m);
                t
            },
            State::AddLine(mut m) => {
                let t = m.on_mouse_up(&mut self.ctx, args);
                self.current_state = State::AddLine(m);
                t
            },
            State::AddArc(mut m) => {
                let t = m.on_mouse_up(&mut self.ctx, args);
                self.current_state = State::AddArc(m);
                t
            },
        };
        self.handle_transition(t);
        run_systems(&mut self.ctx.store, self.snap);
        !self.ctx.suppress_redraw
    }

    /// Handles a pointer move and reports whether the host should repaint.
    pub fn on_mouse_move(&mut self, args: &MouseEventArgs) -> (render: bool)
        requires
            old(self)@.inv(),
            old(self)@.store.next_id + 3 <= u64::MAX,
        ensures
            final(self)@ =~= spec_step_mouse_move(old(self)@, *args),
            final(self)@.inv(),
            final(self)@.store.no_markers(),
            render == !final(self)@.suppress_redraw,
    {
        proof {
            crate::laws::lemma_mouse_move_preserves_inv(old(self)@, *args);
        }
        self.ctx.suppress_redraw = false;
        let t = match self.current_state {
            State::Idle(i) => i.on_mouse_move(&mut self.ctx),
            State::AddPoint(mut m) => {
                let t = m.on_mouse_move(&mut self.ctx, args);
                self.current_state = State::AddPoint(m);
                t
            },
            State::AddLine(mut m) => {
                let t = m.on_mouse_move(&mut self.ctx, args);
                self.current_state = State::AddLine(m);
                t
            },
            State::AddArc(mut m) => {
                let t = m.on_mouse_move(&mut self.ctx, args);
                self.current_state = State::AddArc(m);
                t
            },
        };
        self.handle_transition(t);
        run_systems(&mut self.ctx.store, self.snap);
        !self.ctx.suppress_redraw
    }

    /// Handles a key press and reports whether the host should repaint.
    pub fn on_key_pressed(&mut self, args: &KeyboardEventArgs) -> (render: bool)
        requires
            old(self)@.inv(),
            old(self)@.store.next_id + 3 <= u64::MAX,
        ensures
            final(self)@ =~= spec_step_key(old(self)@, *args),
            final(self)@.inv(),
            final(self)@.store.no_markers(),
            render == !final(self)@.suppress_redraw,
    {
        proof {
            crate::laws::lemma_key_preserves_inv(old(self)@, *args);
        }
        proof {
            lemma_sorted_unique(self.ctx.store@.entities);
        }
        self.ctx.suppress_redraw = false;
        let t = match self.current_state {
            State::Idle(_) => Transition::DoNothing,
            State::AddPoint(mut m) => {
                let t = m.on_key_pressed(&mut self.ctx, args);
                self.current_state = State::AddPoint(m);
                t
            },
            State::AddLine(mut m) => {
                let t = m.on_key_pressed(&mut self.ctx, args);
                self.current_state = State::AddLine(m);
                t
            },
            State::AddArc(mut m) => {
                let t = m.on_key_pressed(&mut self.ctx, args);
                self.current_state = State::AddArc(m);
                t
            },
        };
        self.handle_transition(t);
        run_systems(&mut self.ctx.store, self.snap);
        !self.ctx.suppress_redraw
    }

    /// Handles a toolbar click and reports whether the host should repaint.
    #[verifier::loop_isolation(false)]
    pub fn on_button_clicked(&mut self, args: &ButtonType) -> (render: bool)
        requires
            old(self)@.inv(),
            old(self)@.store.next_id + 3 <= u64::MAX,
        ensures
            final(self)@ =~= spec_step_button(old(self)@, *args),
            final(self)@.inv(),
            final(self)@.store.no_markers(),
            render == !final(self)@.suppress_redraw,
    {
        proof {
            crate::laws::lemma_button_preserves_inv(old(self)@, *args);
        }
        proof {
            lemma_sorted_unique(self.ctx.store@.entities);
        }
        self.ctx.suppress_redraw = false;
        if let ButtonType::Snap = args {
            self.snap = !self.snap;
            let on = self.snap;
            let n = self.ctx.store.entities.len();
            let mut i: usize = 0;
            while i < n
                invariant
                    i <= n,
                    self.ctx.store.entities@.len() == n,
                    self.ctx.store.next_id == old(self).ctx.store.next_id,
                    self.ctx.store.cursor == old(self).ctx.store.cursor,
                    *self == (Model {
                        ctx: ApplicationContext { store: self.ctx.store, suppress_redraw: false, ..old(self).ctx },
                        snap: on,
                        ..*old(self)
                    }),
                    forall|j: int|
                        0 <= j < i ==> self.ctx.store.entities@[j] == spec_set_grid_snap(
                            old(self).ctx.store.entities@,
                            on,
                        )[j],
                    forall|j: int|
                        i <= j < n ==> self.ctx.store.entities@[j] == old(self).ctx.store.entities@[j],
                decreases n - i,
            {
                let e = self.ctx.store.entities[i];
                if let Some(obj) = e.drawing_object {
                    if let Geometry::Grid(g) = obj.geometry {
                        let mut e2 = e;
                        e2.drawing_object = Some(
                            crate::components::DrawingObject {
                                geometry: Geometry::Grid(
                                    GridGeometry { spacing: g.spacing, snap: on },
                                ),
                                layer: obj.layer,
                            },
                        );
                        self.ctx.store.entities[i] = e2;
                    }
                }
                i = i + 1;
            }
            proof {
                assert(self.ctx.store.entities@ =~= spec_set_grid_snap(
                    old(self).ctx.store.entities@,
                    on,
                ));
            }
        }
        let t = match self.current_state {
            State::Idle(_) => {
                match args {
                    ButtonType::Snap => Transition::DoNothing,
                    _ => Transition::ChangeState(crate::modes::mode_for_button(*args)),
                }
            },
            State::AddPoint(mut m) => {
                proof {
                    lemma_sorted_unique(self.ctx.store@.entities);
                }
                let t = m.on_button_clicked(&mut self.ctx, args);
                self.current_state = State::AddPoint(m);
                t
            },
            State::AddLine(mut m) => {
                proof {
                    lemma_sorted_unique(self.ctx.store@.entities);
                }
                let t = m.on_button_clicked(&mut self.ctx, args);
                self.current_state = State::AddLine(m);
                t
            },
            State::AddArc(mut m) => {
                proof {
                    lemma_sorted_unique(self.ctx.store@.entities);
                }
                let t = m.on_button_clicked(&mut self.ctx, args);
                self.current_state = State::AddArc(m);
                t
            },
        };
        self.handle_transition(t);
        run_systems(&mut self.ctx.store, self.snap);
        !self.ctx.suppress_redraw
    }
}

} // verus!
