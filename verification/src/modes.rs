//! The mode state machine's shared vocabulary: mouse event payloads, the
//! closed set of top-level modes, transitions, and the spec-level store
//! combinators the mode handlers are specified with.

use vstd::prelude::*;
use crate::components::{AddArcCmd, AddLineCmd, AddPointCmd, Entity};
use crate::context::ApplicationContext;
use crate::geometry::Point;
use crate::keyboard_event_args::KeyboardEventArgs;
use crate::msg::ButtonType;
use crate::store::{
    StoreView, spec_put_add_arc, spec_put_add_line, spec_put_add_point, spec_put_delete,
    spec_unselect_entities, unique_ids,
};

verus! {

/// Which mouse button (or buttons) are pressed.
#[derive(Debug, Copy, Clone, PartialEq, Eq, Structural)]
pub struct MouseButtons {
    pub left: bool,
    pub right: bool,
    pub middle: bool,
}

impl MouseButtons {
    /// No button pressed.
    pub fn none() -> (r: MouseButtons)
        ensures
            r == (MouseButtons { left: false, right: false, middle: false }),
    {
        MouseButtons { left: false, right: false, middle: false }
    }

    /// Only the left button pressed.
    pub fn left_button() -> (r: MouseButtons)
        ensures
            r == (MouseButtons { left: true, right: false, middle: false }),
    {
        MouseButtons { left: true, right: false, middle: false }
    }
}

/// Payload of a pointer event.
#[derive(Debug, Copy, Clone, PartialEq, Eq, Structural)]
pub struct MouseEventArgs {
    /// The pointer's location on the drawing, in drawing space.
    pub location: Point,
    /// The pointer's location on the canvas, in canvas space.
    pub cursor: Point,
    /// The state of the mouse buttons.
    pub button_state: MouseButtons,
}

/// The tag of a top-level mode, for asking what a transition changes to.
#[derive(Debug, Copy, Clone, PartialEq, Eq, Structural)]
pub enum StateKind {
    Idle,
    AddPoint,
    AddLine,
    AddArc,
}

/// Instructions to the state machine returned by the event handlers.
#[derive(Debug, Copy, Clone, PartialEq, Eq, Structural)]
pub enum Transition {
    ChangeState(State),
    DoNothing,
}

impl Transition {
    /// Whether the transition changes to a state of the given kind.
    pub fn changes_to(&self, kind: StateKind) -> (r: bool)
        ensures
            r == match self {
                Transition::ChangeState(s) => s.kind() == kind,
                Transition::DoNothing => false,
            },
    {
        match self {
            Transition::ChangeState(s) => s.kind_at() == kind,
            Transition::DoNothing => false,
        }
    }

    /// Whether this is a no-op transition.
    pub fn does_nothing(&self) -> (r: bool)
        ensures
            r == (self is DoNothing),
    {
        match self {
            Transition::DoNothing => true,
            _ => false,
        }
    }
}

/// The terminal mode, entered at startup and returned to after escape or
/// mode completion. Idle itself mutates nothing: selection and panning
/// gestures are deliberately left to the host, which drives them through
/// the context's verified operations (`entities_under_point`, `select`,
/// `unselect_all`, `translate_selection`, `pan_viewport`) between events.
/// The selection marker doubles as the provisional-state marker that the
/// deletion system tears down on cancellation, so a host that selects
/// objects while idle must clear the selection again before handing the
/// editor its next event; the editor's own protocol keeps idle free of
/// selection, which is what makes cancellation exact.
#[derive(Debug, Copy, Clone, PartialEq, Eq, Structural)]
pub struct Idle;

/// The active top-level mode, each compound mode carrying its own nested
/// sub-state.
#[derive(Debug, Copy, Clone, PartialEq, Eq, Structural)]
pub enum State {
    Idle(Idle),
    AddPoint(crate::add_point_mode::AddPointMode),
    AddLine(crate::add_line_mode::AddLineMode),
    AddArc(crate::add_arc_mode::AddArcMode),
}

impl State {
    /// The tag of this mode.
    pub open spec fn kind(&self) -> StateKind {
        match self {
            State::Idle(_) => StateKind::Idle,
            State::AddPoint(_) => StateKind::AddPoint,
            State::AddLine(_) => StateKind::AddLine,
            State::AddArc(_) => StateKind::AddArc,
        }
    }

    /// The tag of this mode.
    pub fn kind_at(&self) -> (r: StateKind)
        ensures
            r == self.kind(),
    {
        match self {
            State::Idle(_) => StateKind::Idle,
            State::AddPoint(_) => StateKind::AddPoint,
            State::AddLine(_) => StateKind::AddLine,
            State::AddArc(_) => StateKind::AddArc,
        }
    }

    /// The cursor-icon hint for this mode.
    pub fn get_cursor(&self) -> (r: &'static str)
        ensures
            self is Idle ==> r@ == "default"@,
            !(self is Idle) ==> r@ == "crosshair"@,
    {
        match self {
            State::Idle(_) => "default",
            _ => "crosshair",
        }
    }
}

/// The fresh mode a toolbar button switches to. The snap toggle names no
/// mode; it maps to idle here but mode handlers never switch on it.
pub open spec fn spec_mode_for_button(b: ButtonType) -> State {
    match b {
        ButtonType::Select => State::Idle(Idle),
        ButtonType::Point => State::AddPoint(
            crate::add_point_mode::AddPointMode {
                nested: crate::add_point_mode::AddPointSubstate::WaitingToPlace,
            },
        ),
        ButtonType::Line => State::AddLine(
            crate::add_line_mode::AddLineMode {
                nested: crate::add_line_mode::AddLineSubstate::WaitingToPlaceStart,
            },
        ),
        ButtonType::Arc => State::AddArc(
            crate::add_arc_mode::AddArcMode {
                nested: crate::add_arc_mode::AddArcSubstate::WaitingToPlaceStart,
            },
        ),
        ButtonType::Snap => State::Idle(Idle),
    }
}

/// The fresh mode a toolbar button switches to.
pub fn mode_for_button(b: ButtonType) -> (r: State)
    ensures
        r == spec_mode_for_button(b),
{
    match b {
        ButtonType::Select => State::Idle(Idle),
        ButtonType::Point => State::AddPoint(
            crate::add_point_mode::AddPointMode {
                nested: crate::add_point_mode::AddPointSubstate::WaitingToPlace,
            },
        ),
        ButtonType::Line => State::AddLine(
            crate::add_line_mode::AddLineMode {
                nested: crate::add_line_mode::AddLineSubstate::WaitingToPlaceStart,
            },
        ),
        ButtonType::Arc => State::AddArc(
            crate::add_arc_mode::AddArcMode {
                nested: crate::add_arc_mode::AddArcSubstate::WaitingToPlaceStart,
            },
        ),
        ButtonType::Snap => State::Idle(Idle),
    }
}

/// The store with every selection marker cleared.
pub open spec fn sv_unselect(v: StoreView) -> StoreView {
    StoreView { entities: spec_unselect_entities(v.entities), ..v }
}

/// The store with the cursor resource set to `p`.
pub open spec fn sv_cursor(v: StoreView, p: Point) -> StoreView {
    StoreView { cursor: p, ..v }
}

/// The store with an `AddPoint` marker placed on the command entity.
pub open spec fn sv_add_point(v: StoreView, command: u64, layer: u64) -> StoreView {
    StoreView {
        entities: spec_put_add_point(v.entities, command, AddPointCmd { layer }),
        ..v
    }
}

/// The store with an `AddLine` marker placed on the command entity.
pub open spec fn sv_add_line(v: StoreView, command: u64, location: Point, layer: u64) -> StoreView {
    StoreView {
        entities: spec_put_add_line(v.entities, command, AddLineCmd { location, layer }),
        ..v
    }
}

/// The store with an `AddArc` marker placed on the command entity.
pub open spec fn sv_add_arc(v: StoreView, command: u64, start: Point, end: Point, layer: u64) -> StoreView {
    StoreView {
        entities: spec_put_add_arc(v.entities, command, AddArcCmd { start, end, layer }),
        ..v
    }
}

/// The store with a `Delete` marker placed on the command entity.
pub open spec fn sv_delete(v: StoreView, command: u64) -> StoreView {
    StoreView { entities: spec_put_delete(v.entities, command), ..v }
}

/// The entity of `s` named `id`, if any.
pub open spec fn spec_entity(s: Seq<Entity>, id: u64) -> Option<Entity>
    decreases s.len(),
{
    if s.len() == 0 {
        None
    } else if s[0].id == id {
        Some(s[0])
    } else {
        spec_entity(s.subrange(1, s.len() as int), id)
    }
}

impl Idle {
    /// Every event is a no-op while idle; a pointer move only hints that no
    /// redraw is needed.
    pub fn on_mouse_move(&self, ctx: &mut ApplicationContext) -> (t: Transition)
        ensures
            *final(ctx) == (ApplicationContext { suppress_redraw: true, ..*old(ctx) }),
            t is DoNothing,
    {
        ctx.suppress_redraw();
        Transition::DoNothing
    }

    /// Cancellation is a no-op: idle holds no provisional state.
    pub fn on_cancelled(&self, ctx: &mut ApplicationContext)
        ensures
            *final(ctx) == *old(ctx),
    {
        let _ = ctx;
    }
}

} // verus!
