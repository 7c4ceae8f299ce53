use vstd::prelude::*;
use crate::canvas::Canvas;
use crate::event::AppEvents;
use crate::geometry::{Point, COORD_LIMIT};
use crate::numeric::{clamp, clamp_wide};
use crate::state::ProgramState;
use crate::transform::POSITION_LIMIT;

verus! {

/// Drags the canvas: while a button is held, the canvas follows the pointer.
pub struct PanTool {
    /// The anchor of a drag in progress.
    pub last_point: Option<Point>,
}

/// `v + delta`, limited to the position range.
pub open spec fn moved(v: int, delta: int) -> int {
    clamp(v + delta, -(POSITION_LIMIT as int), POSITION_LIMIT as int)
}

/// The drag anchor after `ev`.
pub open spec fn pan_anchor_after(last: Option<Point>, ev: AppEvents) -> Option<Point> {
    match ev {
        AppEvents::MouseDown(p) => Some(p),
        AppEvents::MouseMove(p) => if last.is_some() { Some(p) } else { None },
        AppEvents::MouseUp(_) => None,
        AppEvents::ScrollEvent { .. } => last,
    }
}

/// The canvas position after `ev`.
pub open spec fn pan_position_after(last: Option<Point>, pos: Point, ev: AppEvents) -> Point {
    match ev {
        AppEvents::MouseMove(p) => match last {
            Some(a) => Point {
                x: moved(pos.x as int, p.x - a.x) as i64,
                y: moved(pos.y as int, p.y - a.y) as i64,
            },
            None => pos,
        },
        _ => pos,
    }
}

impl PanTool {
    pub open spec fn wf(&self) -> bool {
        match self.last_point {
            Some(p) => p.within(COORD_LIMIT as int),
            None => true,
        }
    }

    pub fn new() -> (t: PanTool)
        ensures
            t.last_point.is_none(),
            t.wf(),
    {
        PanTool { last_point: None }
    }

    /// Press starts a drag, a move while dragging shifts the canvas by the
    /// pointer's motion, release ends the drag and drops the pending repaint.
    pub fn on_event(&mut self, events: AppEvents, canvas: &mut Canvas, state: &mut ProgramState)
        requires
            old(self).wf(),
            old(canvas).wf(),
            events.in_bounds(),
        ensures
            final(self).wf(),
            final(canvas).wf(),
            final(self).last_point == pan_anchor_after(old(self).last_point, events),
            final(canvas).position
                == pan_position_after(old(self).last_point, old(canvas).position, events),
            final(canvas).image == old(canvas).image,
            final(canvas).zoom == old(canvas).zoom,
            final(canvas).rotation == old(canvas).rotation,
            final(canvas).transform == old(canvas).transform,
            final(state).needs_paint == match events {
                AppEvents::MouseDown(_) => true,
                AppEvents::MouseMove(_) => old(self).last_point.is_some() || old(state).needs_paint,
                AppEvents::MouseUp(_) => false,
                AppEvents::ScrollEvent { .. } => old(state).needs_paint,
            },
    {
        match events {
            AppEvents::MouseDown(point) => {
                self.last_point = Some(point);
                state.request_paint();
            },
            AppEvents::MouseMove(point) => {
                if let Some(last) = self.last_point {
                    let dx = point.x - last.x;
                    let dy = point.y - last.y;
                    canvas.position.x = clamp_wide(
                        canvas.position.x as i128 + dx as i128,
                        -POSITION_LIMIT,
                        POSITION_LIMIT,
                    );
                    canvas.position.y = clamp_wide(
                        canvas.position.y as i128 + dy as i128,
                        -POSITION_LIMIT,
                        POSITION_LIMIT,
                    );
                    self.last_point = Some(point);
                    state.request_paint();
                }
            },
            AppEvents::MouseUp(_) => {
                self.last_point = None;
                state.stop_request_paint();
            },
            AppEvents::ScrollEvent { .. } => {},
        }
    }
}

} // verus!

verus! {

/// A press, two moves and a release move the canvas by exactly the pointer's
/// motion from the press to the last move, and end the drag, as long as the
/// position stays inside the position range on the way.
pub proof fn lemma_drag_moves_by_total(last: Option<Point>, pos: Point, press: Point, first: Point, second: Point, release: Point)
    requires
        pos.within(POSITION_LIMIT as int),
        -POSITION_LIMIT <= pos.x + (first.x - press.x) <= POSITION_LIMIT,
        -POSITION_LIMIT <= pos.y + (first.y - press.y) <= POSITION_LIMIT,
        -POSITION_LIMIT <= pos.x + (second.x - press.x) <= POSITION_LIMIT,
        -POSITION_LIMIT <= pos.y + (second.y - press.y) <= POSITION_LIMIT,
    ensures
        ({
            let down = AppEvents::MouseDown(press);
            let moved_once = AppEvents::MouseMove(first);
            let moved_twice = AppEvents::MouseMove(second);
            let up = AppEvents::MouseUp(release);
            let anchor1 = pan_anchor_after(last, down);
            let pos1 = pan_position_after(last, pos, down);
            let anchor2 = pan_anchor_after(anchor1, moved_once);
            let pos2 = pan_position_after(anchor1, pos1, moved_once);
            let anchor3 = pan_anchor_after(anchor2, moved_twice);
            let pos3 = pan_position_after(anchor2, pos2, moved_twice);
            &&& pan_position_after(anchor3, pos3, up).x == pos.x + (second.x - press.x)
            &&& pan_position_after(anchor3, pos3, up).y == pos.y + (second.y - press.y)
            &&& pan_anchor_after(anchor3, up).is_none()
        }),
{
}

} // verus!
