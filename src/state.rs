use vstd::prelude::*;

verus! {

/// Interaction state shared by the tools: whether a repaint is pending.
pub struct ProgramState {
    pub needs_paint: bool,
}

impl ProgramState {
    pub fn new() -> (s: ProgramState)
        ensures
            !s.needs_paint,
    {
        ProgramState { needs_paint: false }
    }

    pub fn request_paint(&mut self)
        ensures
            final(self).needs_paint,
    {
        self.needs_paint = true;
    }

    pub fn stop_request_paint(&mut self)
        ensures
            !final(self).needs_paint,
    {
        self.needs_paint = false;
    }

    pub fn needs_paint(&self) -> (r: bool)
        ensures
            r == self.needs_paint,
    {
        self.needs_paint
    }
}

impl Default for ProgramState {
    fn default() -> (s: ProgramState)
        ensures
            !s.needs_paint,
    {
        ProgramState::new()
    }
}

} // verus!
