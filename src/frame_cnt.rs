use vstd::prelude::*;

verus! {

/// Counts render frames; every `interval`-th one is a simulation keyframe.
pub struct FrameCnt {
    pub interval: u32,
    pub phase: u32,
}

impl FrameCnt {
    pub open spec fn wf(&self) -> bool {
        0 < self.interval && self.phase < self.interval
    }

    pub open spec fn spec_is_keyframe(&self) -> bool {
        self.phase == 0
    }

    /// A counter whose first frame is a keyframe.
    pub fn new(interval: u32) -> (r: FrameCnt)
        requires
            interval > 0,
        ensures
            r.wf(),
            r.interval == interval,
            r.phase == 0,
    {
        FrameCnt { interval, phase: 0 }
    }

    pub fn is_keyframe(&self) -> (r: bool)
        ensures
            r == self.spec_is_keyframe(),
    {
        self.phase == 0
    }

    /// Advances one frame.
    pub fn tick(&mut self)
        requires
            old(self).wf(),
        ensures
            final(self).wf(),
            final(self).interval == old(self).interval,
            final(self).phase == (if old(self).phase + 1 == old(self).interval {
                0
            } else {
                old(self).phase + 1
            }),
    {
        if self.phase + 1 == self.interval {
            self.phase = 0;
        } else {
            self.phase = self.phase + 1;
        }
    }
}

} // verus!
