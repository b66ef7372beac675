//! The line-placement mode. Four sub-states: place a provisional start
//! vertex (draggable while the button is down), anchor a line at it, then
//! place the line's end. After a commit the cycle restarts, so a polyline
//! chain can be placed without re-entering the mode. Cancellation stages a
//! `Delete` command so the deletion system tears the provisional entity
//! down.

use vstd::prelude::*;
use crate::components::{AddLineCmd, AddPointCmd};
use crate::context::ApplicationContext;
use crate::geometry::Point;
use crate::keyboard_event_args::{KeyboardEventArgs, VirtualKeyCode};
use crate::modes::{
    Idle, MouseEventArgs, State, Transition, sv_add_line, sv_add_point, sv_cursor, sv_delete,
    sv_unselect,
};
use crate::msg::ButtonType;
use crate::store::{
    StoreView, lemma_unique_ids_pointwise, spec_first_selected_point, unique_ids,
};

verus! {

/// Where the line-placement protocol stands.
#[derive(Debug, Copy, Clone, PartialEq, Eq, Structural)]
pub enum AddLineSubstate {
    /// Waiting for the first press, with no provisional state outstanding.
    WaitingToPlaceStart,
    /// The button is down on the provisional start vertex; it follows the
    /// cursor until release.
    PlacingStart,
    /// A provisional line is anchored at the start; waiting for the press
    /// that will fix its end.
    WaitingToPlaceEnd,
    /// The button is down on the line's end; release commits the line.
    PlacingEnd,
}

/// The line-placement mode with its nested sub-state.
#[derive(Debug, Copy, Clone, PartialEq, Eq, Structural)]
pub struct AddLineMode {
    pub nested: AddLineSubstate,
}

/// The effective start location: where the provisional (selected) start
/// vertex ended up after any dragging and snapping, or the origin if it is
/// gone.
pub open spec fn spec_effective_start(sv: StoreView) -> Point {
    match spec_first_selected_point(sv.entities) {
        Some(p) => p,
        None => Point { x: 0, y: 0 },
    }
}

/// Effect of a pointer press. From the initial state the selection is
/// cleared, the cursor takes the event location and an `AddPoint` command
/// stages the provisional start vertex; once a line is anchored, a press
/// merely begins placing its end.
pub open spec fn spec_add_line_mouse_down(
    m: AddLineMode,
    sv: StoreView,
    command: u64,
    default_layer: u64,
    loc: Point,
) -> (AddLineMode, StoreView) {
    match m.nested {
        AddLineSubstate::WaitingToPlaceStart => (
            AddLineMode { nested: AddLineSubstate::PlacingStart },
            sv_add_point(sv_cursor(sv_unselect(sv), loc), command, default_layer),
        ),
        AddLineSubstate::WaitingToPlaceEnd => (
            AddLineMode { nested: AddLineSubstate::PlacingEnd },
            sv,
        ),
        _ => (m, sv),
    }
}

/// Effect of a pointer release. Releasing the start vertex reads the
/// selected point's location as the effective start, stages an `AddLine`
/// command there and a `Delete` command for the now-redundant start vertex.
/// Releasing the end clears the selection, committing the line.
pub open spec fn spec_add_line_mouse_up(
    m: AddLineMode,
    sv: StoreView,
    command: u64,
    default_layer: u64,
) -> (AddLineMode, StoreView) {
    match m.nested {
        AddLineSubstate::PlacingStart => (
            AddLineMode { nested: AddLineSubstate::WaitingToPlaceEnd },
            sv_delete(
                sv_add_line(sv, command, spec_effective_start(sv), default_layer),
                command,
            ),
        ),
        AddLineSubstate::PlacingEnd => (
            AddLineMode { nested: AddLineSubstate::WaitingToPlaceStart },
            sv_unselect(sv),
        ),
        _ => (m, sv),
    }
}

/// Effect of a pointer move: the cursor resource follows the pointer; in
/// the initial state no redraw is needed.
pub open spec fn spec_add_line_mouse_move(m: AddLineMode, sv: StoreView, loc: Point) -> (
    StoreView,
    bool,
) {
    match m.nested {
        AddLineSubstate::WaitingToPlaceStart => (sv_cursor(sv, loc), true),
        _ => (sv_cursor(sv, loc), false),
    }
}

/// Effect of cancellation: any provisional vertex or line is torn down by
/// staging a `Delete` command, and the cycle restarts.
pub open spec fn spec_add_line_cancel(m: AddLineMode, sv: StoreView, command: u64) -> (
    AddLineMode,
    StoreView,
) {
    match m.nested {
        AddLineSubstate::WaitingToPlaceStart => (
            AddLineMode { nested: AddLineSubstate::WaitingToPlaceStart },
            sv,
        ),
        _ => (
            AddLineMode { nested: AddLineSubstate::WaitingToPlaceStart },
            sv_delete(sv, command),
        ),
    }
}

impl AddLineMode {
    /// The mouse button was pressed.
    pub fn on_mouse_down(&mut self, ctx: &mut ApplicationContext, args: &MouseEventArgs) -> (t:
        Transition)
        requires
            unique_ids(old(ctx).store@.entities),
        ensures
            *final(self) == spec_add_line_mouse_down(
                *old(self),
                old(ctx).store@,
                old(ctx).command,
                old(ctx).default_layer,
                args.location,
            ).0,
            final(ctx).store@ =~= spec_add_line_mouse_down(
                *old(self),
                old(ctx).store@,
                old(ctx).command,
                old(ctx).default_layer,
                args.location,
            ).1,
            *final(ctx) == (ApplicationContext { store: final(ctx).store, ..*old(ctx) }),
            t is DoNothing,
    {
        match self.nested {
            AddLineSubstate::WaitingToPlaceStart => {
                ctx.unselect_all();
                proof {
                    lemma_unique_ids_pointwise(old(ctx).store@.entities, ctx.store@.entities);
                }
                ctx.store.set_cursor(args.location);
                let layer = ctx.default_layer();
                let command = ctx.command();
                ctx.store.put_add_point(command, AddPointCmd { layer });
                self.nested = AddLineSubstate::PlacingStart;
                Transition::DoNothing
            },
            AddLineSubstate::WaitingToPlaceEnd => {
                self.nested = AddLineSubstate::PlacingEnd;
                Transition::DoNothing
            },
            _ => Transition::DoNothing,
        }
    }

    /// The mouse button was released.
    pub fn on_mouse_up(&mut self, ctx: &mut ApplicationContext, args: &MouseEventArgs) -> (t:
        Transition)
        requires
            unique_ids(old(ctx).store@.entities),
        ensures
            *final(self) == spec_add_line_mouse_up(
                *old(self),
                old(ctx).store@,
                old(ctx).command,
                old(ctx).default_layer,
            ).0,
            final(ctx).store@ =~= spec_add_line_mouse_up(
                *old(self),
                old(ctx).store@,
                old(ctx).command,
                old(ctx).default_layer,
            ).1,
            *final(ctx) == (ApplicationContext { store: final(ctx).store, ..*old(ctx) }),
            t is DoNothing,
    {
        let _ = args;
        match self.nested {
            AddLineSubstate::PlacingStart => {
                let command = ctx.command();
                let layer = ctx.default_layer();
                let found = ctx.store.first_selected_point();
                let effective_location = match found {
                    Some(p) => p,
                    None => Point { x: 0, y: 0 },
                };
                ctx.store.put_add_line(
                    command,
                    AddLineCmd { location: effective_location, layer },
                );
                proof {
                    lemma_unique_ids_pointwise(old(ctx).store@.entities, ctx.store@.entities);
                }
                ctx.store.put_delete(command);
                self.nested = AddLineSubstate::WaitingToPlaceEnd;
                Transition::DoNothing
            },
            AddLineSubstate::PlacingEnd => {
                ctx.unselect_all();
                self.nested = AddLineSubstate::WaitingToPlaceStart;
                Transition::DoNothing
            },
            _ => Transition::DoNothing,
        }
    }

    /// The mouse moved.
    pub fn on_mouse_move(&mut self, ctx: &mut ApplicationContext, args: &MouseEventArgs) -> (t:
        Transition)
        ensures
            *final(self) == *old(self),
            final(ctx).store@ =~= spec_add_line_mouse_move(
                *old(self),
                old(ctx).store@,
                args.location,
            ).0,
            final(ctx).suppress_redraw == (old(ctx).suppress_redraw
                || spec_add_line_mouse_move(*old(self), old(ctx).store@, args.location).1),
            *final(ctx) == (ApplicationContext {
                store: final(ctx).store,
                suppress_redraw: final(ctx).suppress_redraw,
                ..*old(ctx)
            }),
            t is DoNothing,
    {
        match self.nested {
            AddLineSubstate::WaitingToPlaceStart => {
                ctx.suppress_redraw();
                ctx.store.set_cursor(args.location);
                Transition::DoNothing
            },
            _ => {
                ctx.store.set_cursor(args.location);
                Transition::DoNothing
            },
        }
    }

    /// A keyboard key was pressed: escape cancels the in-progress edit and
    /// returns to idle.
    pub fn on_key_pressed(&mut self, ctx: &mut ApplicationContext, args: &KeyboardEventArgs) -> (t:
        Transition)
        requires
            unique_ids(old(ctx).store@.entities),
        ensures
            args.key == Some(VirtualKeyCode::Escape) ==> {
                &&& *final(self) == spec_add_line_cancel(
                    *old(self),
                    old(ctx).store@,
                    old(ctx).command,
                ).0
                &&& final(ctx).store@ =~= spec_add_line_cancel(
                    *old(self),
                    old(ctx).store@,
                    old(ctx).command,
                ).1
                &&& t == Transition::ChangeState(State::Idle(Idle))
            },
            args.key != Some(VirtualKeyCode::Escape) ==> {
                &&& *final(self) == *old(self)
                &&& final(ctx).store@ =~= old(ctx).store@
                &&& t is DoNothing
            },
            *final(ctx) == (ApplicationContext { store: final(ctx).store, ..*old(ctx) }),
    {
        let is_escape = match args.key {
            Some(VirtualKeyCode::Escape) => true,
            _ => false,
        };
        if is_escape {
            self.on_cancelled(ctx);
            return Transition::ChangeState(State::Idle(Idle));
        }
        Transition::DoNothing
    }

    /// The mode was cancelled: tear down any provisional entity and restart
    /// the cycle.
    pub fn on_cancelled(&mut self, ctx: &mut ApplicationContext)
        requires
            unique_ids(old(ctx).store@.entities),
        ensures
            *final(self) == spec_add_line_cancel(*old(self), old(ctx).store@, old(ctx).command).0,
            final(ctx).store@ =~= spec_add_line_cancel(
                *old(self),
                old(ctx).store@,
                old(ctx).command,
            ).1,
            *final(ctx) == (ApplicationContext { store: final(ctx).store, ..*old(ctx) }),
    {
        match self.nested {
            AddLineSubstate::WaitingToPlaceStart => {},
            _ => {
                let command = ctx.command();
                ctx.store.put_delete(command);
            },
        }
        self.nested = AddLineSubstate::WaitingToPlaceStart;
    }

    /// A toolbar button was clicked: cancel this mode first, then switch to
    /// whichever mode the button requests. The snap toggle changes no mode.
    pub fn on_button_clicked(&mut self, ctx: &mut ApplicationContext, button: &ButtonType) -> (t:
        Transition)
        requires
            unique_ids(old(ctx).store@.entities),
        ensures
            *button == ButtonType::Snap ==> {
                &&& *final(self) == *old(self)
                &&& final(ctx).store@ =~= old(ctx).store@
                &&& t is DoNothing
            },
            *button != ButtonType::Snap ==> {
                &&& *final(self) == spec_add_line_cancel(
                    *old(self),
                    old(ctx).store@,
                    old(ctx).command,
                ).0
                &&& final(ctx).store@ =~= spec_add_line_cancel(
                    *old(self),
                    old(ctx).store@,
                    old(ctx).command,
                ).1
                &&& t == Transition::ChangeState(crate::modes::spec_mode_for_button(*button))
            },
            *final(ctx) == (ApplicationContext { store: final(ctx).store, ..*old(ctx) }),
    {
        match button {
            ButtonType::Snap => Transition::DoNothing,
            _ => {
                self.on_cancelled(ctx);
                Transition::ChangeState(crate::modes::mode_for_button(*button))
            },
        }
    }
}

impl Default for AddLineMode {
    /// Starts waiting for the first click.
    fn default() -> (r: AddLineMode)
        ensures
            r == (AddLineMode { nested: AddLineSubstate::WaitingToPlaceStart }),
    {
        AddLineMode { nested: AddLineSubstate::WaitingToPlaceStart }
    }
}

} // verus!
