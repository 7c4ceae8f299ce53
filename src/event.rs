use vstd::prelude::*;
use crate::geometry::{Point, COORD_LIMIT};

verus! {

/// A pointer or scroll event, in screen space.
#[derive(Clone, Copy, Debug, PartialEq, Eq, Structural)]
pub enum AppEvents {
    MouseUp(Point),
    MouseMove(Point),
    MouseDown(Point),
    /// A vertical scroll; a negative delta scrolls up.
    ScrollEvent { delta_y: i64 },
}

impl AppEvents {
    /// The event's point, if it carries one, lies within `COORD_LIMIT`.
    pub open spec fn in_bounds(self) -> bool {
        match self {
            AppEvents::MouseUp(p) => p.within(COORD_LIMIT as int),
            AppEvents::MouseMove(p) => p.within(COORD_LIMIT as int),
            AppEvents::MouseDown(p) => p.within(COORD_LIMIT as int),
            AppEvents::ScrollEvent { .. } => true,
        }
    }
}

} // verus!
