//! The arc-placement mode: the line-placement pattern extended by one more
//! vertex. The start and end are placed exactly as for a line; committing
//! the end converts the provisional line into an arc whose control vertex
//! follows the cursor until a final press/release fixes the curvature.

use vstd::prelude::*;
use crate::components::{AddArcCmd, AddLineCmd, AddPointCmd};
use crate::context::ApplicationContext;
use crate::geometry::Point;
use crate::keyboard_event_args::{KeyboardEventArgs, VirtualKeyCode};
use crate::modes::{
    Idle, MouseEventArgs, State, Transition, sv_add_arc, sv_add_line, sv_add_point, sv_cursor,
    sv_delete, sv_unselect,
};
use crate::msg::ButtonType;
use crate::store::{
    StoreView, lemma_unique_ids_pointwise, spec_first_selected_line, spec_first_selected_point,
    unique_ids,
};

verus! {

/// Where the arc-placement protocol stands.
#[derive(Debug, Copy, Clone, PartialEq, Eq, Structural)]
pub enum AddArcSubstate {
    /// Waiting for the first press, with no provisional state outstanding.
    WaitingToPlaceStart,
    /// The button is down on the provisional start vertex.
    PlacingStart,
    /// A provisional line is anchored at the start; waiting for the press
    /// that will fix the arc's end.
    WaitingToPlaceEnd,
    /// The button is down on the end; release converts the line to an arc.
    PlacingEnd,
    /// A provisional arc exists; its control vertex follows the cursor.
    WaitingToPlaceControl,
    /// The button is down on the control vertex; release commits the arc.
    PlacingControl,
}

/// The arc-placement mode with its nested sub-state.
#[derive(Debug, Copy, Clone, PartialEq, Eq, Structural)]
pub struct AddArcMode {
    pub nested: AddArcSubstate,
}

/// The effective start location: the provisional (selected) start vertex,
/// or the origin if it is gone.
pub open spec fn spec_arc_effective_start(sv: StoreView) -> Point {
    match spec_first_selected_point(sv.entities) {
        Some(p) => p,
        None => Point { x: 0, y: 0 },
    }
}

/// The provisional line's vertices, or a degenerate pair at the origin if
/// it is gone.
pub open spec fn spec_arc_effective_line(sv: StoreView) -> (Point, Point) {
    match spec_first_selected_line(sv.entities) {
        Some(l) => l,
        None => (Point { x: 0, y: 0 }, Point { x: 0, y: 0 }),
    }
}

/// Effect of a pointer press: the first press stages the provisional start
/// vertex; later presses begin placing the end or the control vertex.
pub open spec fn spec_add_arc_mouse_down(
    m: AddArcMode,
    sv: StoreView,
    command: u64,
    default_layer: u64,
    loc: Point,
) -> (AddArcMode, StoreView) {
    match m.nested {
        AddArcSubstate::WaitingToPlaceStart => (
            AddArcMode { nested: AddArcSubstate::PlacingStart },
            sv_add_point(sv_cursor(sv_unselect(sv), loc), command, default_layer),
        ),
        AddArcSubstate::WaitingToPlaceEnd => (
            AddArcMode { nested: AddArcSubstate::PlacingEnd },
            sv,
        ),
        AddArcSubstate::WaitingToPlaceControl => (
            AddArcMode { nested: AddArcSubstate::PlacingControl },
            sv,
        ),
        _ => (m, sv),
    }
}

/// Effect of a pointer release. Releasing the start anchors a provisional
/// line there (deleting the start vertex); releasing the end converts the
/// provisional line into an arc (deleting the line); releasing the control
/// vertex clears the selection, committing the arc.
pub open spec fn spec_add_arc_mouse_up(
    m: AddArcMode,
    sv: StoreView,
    command: u64,
    default_layer: u64,
) -> (AddArcMode, StoreView) {
    match m.nested {
        AddArcSubstate::PlacingStart => (
            AddArcMode { nested: AddArcSubstate::WaitingToPlaceEnd },
            sv_delete(
                sv_add_line(sv, command, spec_arc_effective_start(sv), default_layer),
                command,
            ),
        ),
        AddArcSubstate::PlacingEnd => (
            AddArcMode { nested: AddArcSubstate::WaitingToPlaceControl },
            sv_delete(
                sv_add_arc(
                    sv,
                    command,
                    spec_arc_effective_line(sv).0,
                    spec_arc_effective_line(sv).1,
                    default_layer,
                ),
                command,
            ),
        ),
        AddArcSubstate::PlacingControl => (
            AddArcMode { nested: AddArcSubstate::WaitingToPlaceStart },
            sv_unselect(sv),
        ),
        _ => (m, sv),
    }
}

/// Effect of a pointer move: the cursor resource follows the pointer; in
/// the initial state no redraw is needed.
pub open spec fn spec_add_arc_mouse_move(m: AddArcMode, sv: StoreView, loc: Point) -> (
    StoreView,
    bool,
) {
    match m.nested {
        AddArcSubstate::WaitingToPlaceStart => (sv_cursor(sv, loc), true),
        _ => (sv_cursor(sv, loc), false),
    }
}

/// Effect of cancellation: any provisional vertex, line or arc is torn
/// down by staging a `Delete` command, and the cycle restarts.
pub open spec fn spec_add_arc_cancel(m: AddArcMode, sv: StoreView, command: u64) -> (
    AddArcMode,
    StoreView,
) {
    match m.nested {
        AddArcSubstate::WaitingToPlaceStart => (
            AddArcMode { nested: AddArcSubstate::WaitingToPlaceStart },
            sv,
        ),
        _ => (
            AddArcMode { nested: AddArcSubstate::WaitingToPlaceStart },
            sv_delete(sv, command),
        ),
    }
}

impl AddArcMode {
    /// The mouse button was pressed.
    pub fn on_mouse_down(&mut self, ctx: &mut ApplicationContext, args: &MouseEventArgs) -> (t:
        Transition)
        requires
            unique_ids(old(ctx).store@.entities),
        ensures
            *final(self) == spec_add_arc_mouse_down(
                *old(self),
                old(ctx).store@,
                old(ctx).command,
                old(ctx).default_layer,
                args.location,
            ).0,
            final(ctx).store@ =~= spec_add_arc_mouse_down(
                *old(self),
                old(ctx).store@,
                old(ctx).command,
                old(ctx).default_layer,
                args.location,
            ).1,
            *final(ctx) == (ApplicationContext { store: final(ctx).store, ..*old(ctx) }),
            t is DoNothing,
    {
        match self.nested {
            AddArcSubstate::WaitingToPlaceStart => {
                ctx.unselect_all();
                proof {
                    lemma_unique_ids_pointwise(old(ctx).store@.entities, ctx.store@.entities);
                }
                ctx.store.set_cursor(args.location);
                let layer = ctx.default_layer();
                let command = ctx.command();
                ctx.store.put_add_point(command, AddPointCmd { layer });
                self.nested = AddArcSubstate::PlacingStart;
                Transition::DoNothing
            },
            AddArcSubstate::WaitingToPlaceEnd => {
                self.nested = AddArcSubstate::PlacingEnd;
                Transition::DoNothing
            },
            AddArcSubstate::WaitingToPlaceControl => {
                self.nested = AddArcSubstate::PlacingControl;
                Transition::DoNothing
            },
            _ => Transition::DoNothing,
        }
    }

    /// The mouse button was released.
    pub fn on_mouse_up(&mut self, ctx: &mut ApplicationContext, args: &MouseEventArgs) -> (t:
        Transition)
        requires
            unique_ids(old(ctx).store@.entities),
        ensures
            *final(self) == spec_add_arc_mouse_up(
                *old(self),
                old(ctx).store@,
                old(ctx).command,
                old(ctx).default_layer,
            ).0,
            final(ctx).store@ =~= spec_add_arc_mouse_up(
                *old(self),
                old(ctx).store@,
                old(ctx).command,
                old(ctx).default_layer,
            ).1,
            *final(ctx) == (ApplicationContext { store: final(ctx).store, ..*old(ctx) }),
            t is DoNothing,
    {
        let _ = args;
        match self.nested {
            AddArcSubstate::PlacingStart => {
                let command = ctx.command();
                let layer = ctx.default_layer();
                let found = ctx.store.first_selected_point();
                let effective_location = match found {
                    Some(p) => p,
                    None => Point { x: 0, y: 0 },
                };
                ctx.store.put_add_line(
                    command,
                    AddLineCmd { location: effective_location, layer },
                );
                proof {
                    lemma_unique_ids_pointwise(old(ctx).store@.entities, ctx.store@.entities);
                }
                ctx.store.put_delete(command);
                self.nested = AddArcSubstate::WaitingToPlaceEnd;
                Transition::DoNothing
            },
            AddArcSubstate::PlacingEnd => {
                let command = ctx.command();
                let layer = ctx.default_layer();
                let found = ctx.store.first_selected_line();
                let (start, end) = match found {
                    Some(l) => l,
                    None => (Point { x: 0, y: 0 }, Point { x: 0, y: 0 }),
                };
                ctx.store.put_add_arc(command, AddArcCmd { start, end, layer });
                proof {
                    lemma_unique_ids_pointwise(old(ctx).store@.entities, ctx.store@.entities);
                }
                ctx.store.put_delete(command);
                self.nested = AddArcSubstate::WaitingToPlaceControl;
                Transition::DoNothing
            },
            AddArcSubstate::PlacingControl => {
                ctx.unselect_all();
                self.nested = AddArcSubstate::WaitingToPlaceStart;
                Transition::DoNothing
            },
            _ => Transition::DoNothing,
        }
    }

    /// The mouse moved.
    pub fn on_mouse_move(&mut self, ctx: &mut ApplicationContext, args: &MouseEventArgs) -> (t:
        Transition)
        ensures
            *final(self) == *old(self),
            final(ctx).store@ =~= spec_add_arc_mouse_move(
                *old(self),
                old(ctx).store@,
                args.location,
            ).0,
            final(ctx).suppress_redraw == (old(ctx).suppress_redraw
                || spec_add_arc_mouse_move(*old(self), old(ctx).store@, args.location).1),
            *final(ctx) == (ApplicationContext {
                store: final(ctx).store,
                suppress_redraw: final(ctx).suppress_redraw,
                ..*old(ctx)
            }),
            t is DoNothing,
    {
        match self.nested {
            AddArcSubstate::WaitingToPlaceStart => {
                ctx.suppress_redraw();
                ctx.store.set_cursor(args.location);
                Transition::DoNothing
            },
            _ => {
                ctx.store.set_cursor(args.location);
                Transition::DoNothing
            },
        }
    }

    /// A keyboard key was pressed: escape cancels the in-progress edit and
    /// returns to idle.
    pub fn on_key_pressed(&mut self, ctx: &mut ApplicationContext, args: &KeyboardEventArgs) -> (t:
        Transition)
        requires
            unique_ids(old(ctx).store@.entities),
        ensures
            args.key == Some(VirtualKeyCode::Escape) ==> {
                &&& *final(self) == spec_add_arc_cancel(
                    *old(self),
                    old(ctx).store@,
                    old(ctx).command,
                ).0
                &&& final(ctx).store@ =~= spec_add_arc_cancel(
                    *old(self),
                    old(ctx).store@,
                    old(ctx).command,
                ).1
                &&& t == Transition::ChangeState(State::Idle(Idle))
            },
            args.key != Some(VirtualKeyCode::Escape) ==> {
                &&& *final(self) == *old(self)
                &&& final(ctx).store@ =~= old(ctx).store@
                &&& t is DoNothing
            },
            *final(ctx) == (ApplicationContext { store: final(ctx).store, ..*old(ctx) }),
    {
        let is_escape = match args.key {
            Some(VirtualKeyCode::Escape) => true,
            _ => false,
        };
        if is_escape {
            self.on_cancelled(ctx);
            return Transition::ChangeState(State::Idle(Idle));
        }
        Transition::DoNothing
    }

    /// The mode was cancelled: tear down any provisional entity and restart
    /// the cycle.
    pub fn on_cancelled(&mut self, ctx: &mut ApplicationContext)
        requires
            unique_ids(old(ctx).store@.entities),
        ensures
            *final(self) == spec_add_arc_cancel(*old(self), old(ctx).store@, old(ctx).command).0,
            final(ctx).store@ =~= spec_add_arc_cancel(
                *old(self),
                old(ctx).store@,
                old(ctx).command,
            ).1,
            *final(ctx) == (ApplicationContext { store: final(ctx).store, ..*old(ctx) }),
    {
        match self.nested {
            AddArcSubstate::WaitingToPlaceStart => {},
            _ => {
                let command = ctx.command();
                ctx.store.put_delete(command);
            },
        }
        self.nested = AddArcSubstate::WaitingToPlaceStart;
    }

    /// A toolbar button was clicked: cancel this mode first, then switch to
    /// whichever mode the button requests. The snap toggle changes no mode.
    pub fn on_button_clicked(&mut self, ctx: &mut ApplicationContext, button: &ButtonType) -> (t:
        Transition)
        requires
            unique_ids(old(ctx).store@.entities),
        ensures
            *button == ButtonType::Snap ==> {
                &&& *final(self) == *old(self)
                &&& final(ctx).store@ =~= old(ctx).store@
                &&& t is DoNothing
            },
            *button != ButtonType::Snap ==> {
                &&& *final(self) == spec_add_arc_cancel(
                    *old(self),
                    old(ctx).store@,
                    old(ctx).command,
                ).0
                &&& final(ctx).store@ =~= spec_add_arc_cancel(
                    *old(self),
                    old(ctx).store@,
                    old(ctx).command,
                ).1
                &&& t == Transition::ChangeState(crate::modes::spec_mode_for_button(*button))
            },
            *final(ctx) == (ApplicationContext { store: final(ctx).store, ..*old(ctx) }),
    {
        match button {
            ButtonType::Snap => Transition::DoNothing,
            _ => {
                self.on_cancelled(ctx);
                Transition::ChangeState(crate::modes::mode_for_button(*button))
            },
        }
    }
}

impl Default for AddArcMode {
    /// Starts waiting for the first click.
    fn default() -> (r: AddArcMode)
        ensures
            r == (AddArcMode { nested: AddArcSubstate::WaitingToPlaceStart }),
    {
        AddArcMode { nested: AddArcSubstate::WaitingToPlaceStart }
    }
}

} // verus!
