use vstd::prelude::*;
use crate::brush_definition::{BrushDefinition, BrushError};

verus! {

/// The name of the brush that `load_default` adds.
pub open spec fn default_brush_name() -> Seq<char> {
    seq!['C', 'i', 'r', 'c', 'l', 'e']
}

/// Named brushes and the name of the active one. The active name may name
/// no brush; then there is no active brush.
pub struct BrushManager {
    pub brushes: Vec<BrushDefinition>,
    pub active_brush_name: String,
}

impl BrushManager {
    pub open spec fn wf(&self) -> bool {
        &&& forall|i: int| 0 <= i < self.brushes@.len() ==> (#[trigger] self.brushes@[i]).wf()
        &&& forall|i: int, j: int|
            0 <= i < j < self.brushes@.len() ==> (#[trigger] self.brushes@[i]).name@
                != (#[trigger] self.brushes@[j]).name@
    }

    /// Some brush carries the active name.
    pub open spec fn has_active(&self) -> bool {
        exists|i: int| 0 <= i < self.brushes@.len() && (#[trigger] self.brushes@[i]).name@ == self.active_brush_name@
    }

    /// The position of the active brush.
    pub open spec fn active_index(&self) -> int {
        choose|i: int| 0 <= i < self.brushes@.len() && (#[trigger] self.brushes@[i]).name@ == self.active_brush_name@
    }

    /// Renaming nothing keeps the same brush active.
    pub proof fn lemma_same_names(&self, other: &BrushManager)
        requires
            self.wf(),
            self.has_active(),
            other.active_brush_name@ == self.active_brush_name@,
            other.brushes@.len() == self.brushes@.len(),
            forall|i: int| 0 <= i < self.brushes@.len() ==> (#[trigger] other.brushes@[i]).name@
                == self.brushes@[i].name@,
        ensures
            other.has_active(),
            other.active_index() == self.active_index(),
    {
        let k = self.active_index();
        assert(other.brushes@[k].name@ == other.active_brush_name@);
        let j = other.active_index();
        assert(self.brushes@[j].name@ == self.active_brush_name@);
        if j < k {
            assert(self.brushes@[j].name@ != self.brushes@[k].name@);
        } else if k < j {
            assert(self.brushes@[k].name@ != self.brushes@[j].name@);
        }
    }

    pub fn new() -> (m: BrushManager)
        ensures
            m.wf(),
            m.brushes@.len() == 0,
            m.active_brush_name@.len() == 0,
            !m.has_active(),
    {
        BrushManager { brushes: Vec::new(), active_brush_name: String::new() }
    }

    /// Adds a brush, replacing one of the same name.
    fn insert(&mut self, brush: BrushDefinition)
        requires
            old(self).wf(),
            brush.wf(),
        ensures
            final(self).wf(),
            final(self).active_brush_name == old(self).active_brush_name,
            exists|i: int| 0 <= i < final(self).brushes@.len() && #[trigger] final(self).brushes@[i] == brush,
            final(self).brushes@.len() >= 1,
    {
        let mut i: usize = 0;
        while i < self.brushes.len()
            invariant
                0 <= i <= self.brushes@.len(),
                self.brushes@ == old(self).brushes@,
                self.active_brush_name == old(self).active_brush_name,
                self.wf(),
                brush.wf(),
                forall|j: int| 0 <= j < i ==> (#[trigger] self.brushes@[j]).name@ != brush.name@,
            decreases self.brushes@.len() - i,
        {
            if self.brushes[i].name == brush.name {
                let ghost before = self.brushes@;
                self.brushes.set(i, brush);
                proof {
                    assert(self.brushes@[i as int] == brush);
                    assert forall|a: int, b: int|
                        0 <= a < b < self.brushes@.len() implies (#[trigger] self.brushes@[a]).name@
                            != (#[trigger] self.brushes@[b]).name@ by {
                        assert(before[a].name@ != before[b].name@);
                    }
                }
                return;
            }
            i = i + 1;
        }
        self.brushes.push(brush);
        proof {
            let n = self.brushes@.len() - 1;
            assert(self.brushes@[n] == brush);
        }
    }

    /// Adds the round brush made from an encoded texture and makes the first
    /// brush active.
    pub fn load_default(&mut self, texture: &[u8]) -> (r: Result<(), BrushError>)
        requires
            old(self).wf(),
        ensures
            final(self).wf(),
            match r {
                Ok(()) => {
                    &&& exists|i: int| 0 <= i < final(self).brushes@.len()
                        && (#[trigger] final(self).brushes@[i]).name@ == default_brush_name()
                    &&& final(self).has_active()
                    &&& final(self).active_brush_name@ == final(self).brushes@[0].name@
                },
                Err(_) => final(self).brushes@ == old(self).brushes@
                    && final(self).active_brush_name == old(self).active_brush_name,
            },
    {
        let brush = match BrushDefinition::from_bytes("Circle", texture) {
            Ok(b) => b,
            Err(e) => {
                return Err(e);
            },
        };
        proof {
            reveal_strlit("Circle");
        }
        self.insert(brush);
        self.active_brush_name = self.brushes[0].get_name();
        proof {
            assert(self.brushes@[0].name@ == self.active_brush_name@);
        }
        Ok(())
    }

    /// The active brush, if some brush carries the active name.
    pub fn get_active_brush_mut(&mut self) -> (r: Option<&mut BrushDefinition>)
        requires
            old(self).wf(),
        ensures
            r.is_some() == old(self).has_active(),
            final(self).active_brush_name == old(self).active_brush_name,
            match r {
                Some(b) => {
                    &&& *b == old(self).brushes@[old(self).active_index()]
                    &&& final(self).brushes@ == old(self).brushes@.update(old(self).active_index(), *final(b))
                },
                None => final(self).brushes@ == old(self).brushes@,
            },
    {
        let mut i: usize = 0;
        while i < self.brushes.len()
            invariant
                0 <= i <= self.brushes@.len(),
                self.brushes@ == old(self).brushes@,
                self.active_brush_name == old(self).active_brush_name,
                old(self).wf(),
                forall|j: int| 0 <= j < i ==> (#[trigger] self.brushes@[j]).name@ != self.active_brush_name@,
            decreases self.brushes@.len() - i,
        {
            if self.brushes[i].name == self.active_brush_name {
                proof {
                    let k = self.active_index();
                    assert(self.brushes@[i as int].name@ == self.active_brush_name@);
                    assert(old(self).has_active());
                    assert(0 <= k < old(self).brushes@.len()
                        && old(self).brushes@[k].name@ == old(self).active_brush_name@);
                    if k != i {
                        if k < i {
                            assert(old(self).brushes@[k].name@ != old(self).brushes@[i as int].name@);
                        } else {
                            let ii = i as int;
                            assert(0 <= ii < k < old(self).brushes@.len());
                            assert(old(self).brushes@[ii].name@ != old(self).brushes@[k].name@);
                        }
                    }
                }
                return Some(&mut self.brushes[i]);
            }
            i = i + 1;
        }
        None
    }
}

} // verus!
