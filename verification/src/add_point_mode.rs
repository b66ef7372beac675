//! The point-placement mode. A two-state cycle: waiting for a click, then
//! holding the button on a freshly requested point. Each completed
//! press/release pair commits exactly one point; pressing escape mid-press
//! tears the provisional point down.

use vstd::prelude::*;
use crate::components::AddPointCmd;
use crate::context::ApplicationContext;
use crate::keyboard_event_args::{KeyboardEventArgs, VirtualKeyCode};
use crate::modes::{
    Idle, MouseEventArgs, State, Transition, sv_add_point, sv_cursor, sv_delete, sv_unselect,
};
use crate::msg::ButtonType;
use crate::store::{StoreView, lemma_unique_ids_pointwise, unique_ids};

verus! {

/// Where the point-placement protocol stands.
#[derive(Debug, Copy, Clone, PartialEq, Eq, Structural)]
pub enum AddPointSubstate {
    /// Waiting for the user to press, with no provisional state outstanding.
    WaitingToPlace,
    /// The button is down and an `AddPoint` command has been issued; the
    /// provisional point follows the cursor until release.
    PlacingPoint,
}

/// The point-placement mode with its nested sub-state.
#[derive(Debug, Copy, Clone, PartialEq, Eq, Structural)]
pub struct AddPointMode {
    pub nested: AddPointSubstate,
}

/// Effect of a pointer press: from the waiting state, the selection is
/// cleared, the cursor resource takes the event location, and an `AddPoint`
/// command is staged on the command entity.
pub open spec fn spec_add_point_mouse_down(
    m: AddPointMode,
    sv: StoreView,
    command: u64,
    default_layer: u64,
    loc: crate::geometry::Point,
) -> (AddPointMode, StoreView) {
    match m.nested {
        AddPointSubstate::WaitingToPlace => (
            AddPointMode { nested: AddPointSubstate::PlacingPoint },
            sv_add_point(sv_cursor(sv_unselect(sv), loc), command, default_layer),
        ),
        AddPointSubstate::PlacingPoint => (m, sv),
    }
}

/// Effect of a pointer release: from the placing state, the selection is
/// cleared (committing the point) and the cycle restarts.
pub open spec fn spec_add_point_mouse_up(m: AddPointMode, sv: StoreView) -> (
    AddPointMode,
    StoreView,
) {
    match m.nested {
        AddPointSubstate::WaitingToPlace => (m, sv),
        AddPointSubstate::PlacingPoint => (
            AddPointMode { nested: AddPointSubstate::WaitingToPlace },
            sv_unselect(sv),
        ),
    }
}

/// Effect of a pointer move: while waiting nothing changes (and no redraw is
/// needed); while placing, the cursor resource follows so the draw system
/// can drag the provisional point.
pub open spec fn spec_add_point_mouse_move(
    m: AddPointMode,
    sv: StoreView,
    loc: crate::geometry::Point,
) -> (StoreView, bool) {
    match m.nested {
        AddPointSubstate::WaitingToPlace => (sv, true),
        AddPointSubstate::PlacingPoint => (sv_cursor(sv, loc), false),
    }
}

/// Effect of cancellation: a provisional point is torn down by staging a
/// `Delete` command; the cycle restarts.
pub open spec fn spec_add_point_cancel(m: AddPointMode, sv: StoreView, command: u64) -> (
    AddPointMode,
    StoreView,
) {
    match m.nested {
        AddPointSubstate::WaitingToPlace => (
            AddPointMode { nested: AddPointSubstate::WaitingToPlace },
            sv,
        ),
        AddPointSubstate::PlacingPoint => (
            AddPointMode { nested: AddPointSubstate::WaitingToPlace },
            sv_delete(sv, command),
        ),
    }
}

impl AddPointMode {
    /// The mouse button was pressed.
    pub fn on_mouse_down(&mut self, ctx: &mut ApplicationContext, args: &MouseEventArgs) -> (t:
        Transition)
        requires
            unique_ids(old(ctx).store@.entities),
        ensures
            *final(self) == spec_add_point_mouse_down(
                *old(self),
                old(ctx).store@,
                old(ctx).command,
                old(ctx).default_layer,
                args.location,
            ).0,
            final(ctx).store@ =~= spec_add_point_mouse_down(
                *old(self),
                old(ctx).store@,
                old(ctx).command,
                old(ctx).default_layer,
                args.location,
            ).1,
            *final(ctx) == (ApplicationContext { store: final(ctx).store, ..*old(ctx) }),
            t is DoNothing,
    {
        match self.nested {
            AddPointSubstate::WaitingToPlace => {
                ctx.unselect_all();
                proof {
                    lemma_unique_ids_pointwise(old(ctx).store@.entities, ctx.store@.entities);
                }
                ctx.store.set_cursor(args.location);
                let layer = ctx.default_layer();
                let command = ctx.command();
                ctx.store.put_add_point(command, AddPointCmd { layer });
                self.nested = AddPointSubstate::PlacingPoint;
                Transition::DoNothing
            },
            AddPointSubstate::PlacingPoint => Transition::DoNothing,
        }
    }

    /// The mouse button was released.
    pub fn on_mouse_up(&mut self, ctx: &mut ApplicationContext, args: &MouseEventArgs) -> (t:
        Transition)
        ensures
            *final(self) == spec_add_point_mouse_up(*old(self), old(ctx).store@).0,
            final(ctx).store@ =~= spec_add_point_mouse_up(*old(self), old(ctx).store@).1,
            *final(ctx) == (ApplicationContext { store: final(ctx).store, ..*old(ctx) }),
            t is DoNothing,
    {
        let _ = args;
        match self.nested {
            AddPointSubstate::WaitingToPlace => Transition::DoNothing,
            AddPointSubstate::PlacingPoint => {
                ctx.unselect_all();
                self.nested = AddPointSubstate::WaitingToPlace;
                Transition::DoNothing
            },
        }
    }

    /// The mouse moved.
    pub fn on_mouse_move(&mut self, ctx: &mut ApplicationContext, args: &MouseEventArgs) -> (t:
        Transition)
        ensures
            *final(self) == *old(self),
            final(ctx).store@ =~= spec_add_point_mouse_move(
                *old(self),
                old(ctx).store@,
                args.location,
            ).0,
            final(ctx).suppress_redraw == (old(ctx).suppress_redraw
                || spec_add_point_mouse_move(*old(self), old(ctx).store@, args.location).1),
            *final(ctx) == (ApplicationContext {
                store: final(ctx).store,
                suppress_redraw: final(ctx).suppress_redraw,
                ..*old(ctx)
            }),
            t is DoNothing,
    {
        match self.nested {
            AddPointSubstate::WaitingToPlace => {
                ctx.suppress_redraw();
                Transition::DoNothing
            },
            AddPointSubstate::PlacingPoint => {
                ctx.store.set_cursor(args.location);
                Transition::DoNothing
            },
        }
    }

    /// A keyboard key was pressed: escape cancels the in-progress placement
    /// and returns to idle.
    pub fn on_key_pressed(&mut self, ctx: &mut ApplicationContext, args: &KeyboardEventArgs) -> (t:
        Transition)
        requires
            unique_ids(old(ctx).store@.entities),
        ensures
            args.key == Some(VirtualKeyCode::Escape) ==> {
                &&& *final(self) == spec_add_point_cancel(
                    *old(self),
                    old(ctx).store@,
                    old(ctx).command,
                ).0
                &&& final(ctx).store@ =~= spec_add_point_cancel(
                    *old(self),
                    old(ctx).store@,
                    old(ctx).command,
                ).1
                &&& t == Transition::ChangeState(State::Idle(Idle))
            },
            args.key != Some(VirtualKeyCode::Escape) ==> {
                &&& *final(self) == *old(self)
                &&& final(ctx).store@ =~= old(ctx).store@
                &&& t is DoNothing
            },
            *final(ctx) == (ApplicationContext { store: final(ctx).store, ..*old(ctx) }),
    {
        let is_escape = match args.key {
            Some(VirtualKeyCode::Escape) => true,
            _ => false,
        };
        if is_escape {
            self.on_cancelled(ctx);
            return Transition::ChangeState(State::Idle(Idle));
        }
        Transition::DoNothing
    }

    /// The mode was cancelled: tear down any provisional point and restart
    /// the cycle.
    pub fn on_cancelled(&mut self, ctx: &mut ApplicationContext)
        requires
            unique_ids(old(ctx).store@.entities),
        ensures
            *final(self) == spec_add_point_cancel(*old(self), old(ctx).store@, old(ctx).command).0,
            final(ctx).store@ =~= spec_add_point_cancel(
                *old(self),
                old(ctx).store@,
                old(ctx).command,
            ).1,
            *final(ctx) == (ApplicationContext { store: final(ctx).store, ..*old(ctx) }),
    {
        match self.nested {
            AddPointSubstate::WaitingToPlace => {},
            AddPointSubstate::PlacingPoint => {
                let command = ctx.command();
                ctx.store.put_delete(command);
            },
        }
        self.nested = AddPointSubstate::WaitingToPlace;
    }

    /// A toolbar button was clicked: cancel this mode first, then switch to
    /// whichever mode the button requests. The snap toggle changes no mode.
    pub fn on_button_clicked(&mut self, ctx: &mut ApplicationContext, button: &ButtonType) -> (t:
        Transition)
        requires
            unique_ids(old(ctx).store@.entities),
        ensures
            *button == ButtonType::Snap ==> {
                &&& *final(self) == *old(self)
                &&& final(ctx).store@ =~= old(ctx).store@
                &&& t is DoNothing
            },
            *button != ButtonType::Snap ==> {
                &&& *final(self) == spec_add_point_cancel(
                    *old(self),
                    old(ctx).store@,
                    old(ctx).command,
                ).0
                &&& final(ctx).store@ =~= spec_add_point_cancel(
                    *old(self),
                    old(ctx).store@,
                    old(ctx).command,
                ).1
                &&& t == Transition::ChangeState(crate::modes::spec_mode_for_button(*button))
            },
            *final(ctx) == (ApplicationContext { store: final(ctx).store, ..*old(ctx) }),
    {
        match button {
            ButtonType::Snap => Transition::DoNothing,
            _ => {
                self.on_cancelled(ctx);
                Transition::ChangeState(crate::modes::mode_for_button(*button))
            },
        }
    }
}

impl Default for AddPointMode {
    /// Starts waiting for the first click.
    fn default() -> (r: AddPointMode)
        ensures
            r == (AddPointMode { nested: AddPointSubstate::WaitingToPlace }),
    {
        AddPointMode { nested: AddPointSubstate::WaitingToPlace }
    }
}

} // verus!
