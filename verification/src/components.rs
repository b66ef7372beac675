//! Components and command markers. An entity in the scene store carries at
//! most one instance of each component; the command markers are only ever
//! placed on the well-known command entity and are consumed by the command
//! systems within the same event cycle.

use vstd::prelude::*;
use crate::geometry::{Geometry, Point, Vector};

verus! {

/// Distinguishes ordinary drawing layers from the system layer that holds
/// the background grid.
#[derive(Clone, Copy, PartialEq, Eq, Structural, Debug)]
pub enum LayerType {
    Drawing,
    System,
}

/// A layer entities with geometry are attached to.
#[derive(Clone, Copy, PartialEq, Eq, Structural, Debug)]
pub struct Layer {
    pub z_level: u64,
    pub visible: bool,
    pub layer_type: LayerType,
}

/// Geometry plus the layer entity it belongs to.
#[derive(Clone, Copy, PartialEq, Eq, Structural, Debug)]
pub struct DrawingObject {
    pub geometry: Geometry,
    /// Id of an entity carrying a [`Layer`] component.
    pub layer: u64,
}

/// Visual styling for point vertices; independent of the geometry so that
/// styling survives geometry edits.
#[derive(Clone, Copy, PartialEq, Eq, Structural, Debug)]
pub struct PointStyle {
    pub radius_pixels: u64,
}

/// Visual styling for strokes; independent of the geometry.
#[derive(Clone, Copy, PartialEq, Eq, Structural, Debug)]
pub struct LineStyle {
    pub width_pixels: u64,
}

/// Maps drawing space to canvas space: attached to the window entity.
#[derive(Clone, Copy, PartialEq, Eq, Structural, Debug)]
pub struct Viewport {
    pub centre: Point,
    pub pixels_per_drawing_unit: u64,
}

/// Command marker: create a point vertex at the current cursor location, on
/// the given layer. The draw system consumes it.
#[derive(Clone, Copy, PartialEq, Eq, Structural, Debug)]
pub struct AddPointCmd {
    pub layer: u64,
}

/// Command marker: create a line from `location` to the current cursor
/// location, on the given layer. The draw system consumes it.
#[derive(Clone, Copy, PartialEq, Eq, Structural, Debug)]
pub struct AddLineCmd {
    pub location: Point,
    pub layer: u64,
}

/// Command marker: create an arc from `start` to `end` with its control
/// vertex at the current cursor location. The draw system consumes it.
#[derive(Clone, Copy, PartialEq, Eq, Structural, Debug)]
pub struct AddArcCmd {
    pub start: Point,
    pub end: Point,
    pub layer: u64,
}

/// One entity of the scene store: an identifier and one optional slot per
/// component kind. `selected` and `delete` are zero-size markers in spirit;
/// their presence is the component.
#[derive(Clone, Copy, Debug)]
pub struct Entity {
    pub id: u64,
    pub drawing_object: Option<DrawingObject>,
    pub point_style: Option<PointStyle>,
    pub line_style: Option<LineStyle>,
    pub layer: Option<Layer>,
    pub viewport: Option<Viewport>,
    pub selected: bool,
    pub add_point: Option<AddPointCmd>,
    pub add_line: Option<AddLineCmd>,
    pub add_arc: Option<AddArcCmd>,
    pub delete: bool,
}

impl Entity {
    /// A fresh entity with no components.
    pub open spec fn spec_empty(id: u64) -> Entity {
        Entity {
            id,
            drawing_object: None,
            point_style: None,
            line_style: None,
            layer: None,
            viewport: None,
            selected: false,
            add_point: None,
            add_line: None,
            add_arc: None,
            delete: false,
        }
    }

    /// A fresh entity with no components.
    pub fn empty(id: u64) -> (e: Entity)
        ensures
            e == Entity::spec_empty(id),
    {
        Entity {
            id,
            drawing_object: None,
            point_style: None,
            line_style: None,
            layer: None,
            viewport: None,
            selected: false,
            add_point: None,
            add_line: None,
            add_arc: None,
            delete: false,
        }
    }

    /// This entity with the selection marker present or absent.
    pub open spec fn with_selected(self, selected: bool) -> Entity {
        Entity { selected, ..self }
    }

    /// Whether the entity carries any command marker.
    pub open spec fn has_marker(self) -> bool {
        self.add_point is Some || self.add_line is Some || self.add_arc is Some || self.delete
    }

    /// This entity with every command marker removed.
    pub open spec fn without_markers(self) -> Entity {
        Entity { add_point: None, add_line: None, add_arc: None, delete: false, ..self }
    }

    /// Whether the entity is provisional: selected and carrying geometry.
    /// Provisional entities are the ones an in-progress edit has created and
    /// the deletion system tears down on cancellation.
    pub open spec fn is_provisional(self) -> bool {
        self.selected && self.drawing_object is Some
    }
}

} // verus!
