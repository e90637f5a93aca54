use vstd::prelude::*;

verus! {

/// The pacing of an animation loop: which frame comes next, how many frames
/// the animation has at most (`None` for one that runs until cancelled), and
/// whether it has returned.
#[derive(Clone, Copy, Debug, PartialEq, Eq)]
pub struct DriverLoop {
    pub frame: u64,
    pub limit: Option<u64>,
    pub done: bool,
}

/// The frame counter after one more frame, held at its largest value.
pub open spec fn next_frame_count(frame: u64) -> u64 {
    if frame < u64::MAX {
        (frame + 1) as u64
    } else {
        frame
    }
}

impl DriverLoop {
    /// A loop at its first frame; an animation of no frames is over at once.
    pub fn new(limit: Option<u64>) -> (r: DriverLoop)
        ensures
            r.frame == 0,
            r.limit == limit,
            r.done == (limit == Some(0u64)),
    {
        let done = match limit {
            Some(n) => n == 0,
            None => false,
        };
        DriverLoop { frame: 0, limit, done }
    }

    /// The index of the frame to render next, or `None` once the loop has
    /// returned.
    pub fn next_frame(&self) -> (r: Option<u64>)
        ensures
            self.done ==> r is None,
            !self.done ==> r == Some(self.frame),
    {
        if self.done {
            None
        } else {
            Some(self.frame)
        }
    }

    /// Records that a frame was pushed and the stop flag then read `stopped`.
    /// Returns how long to sleep before the next frame. A raised flag makes
    /// the loop return at once, without sleeping; so does the last frame of a
    /// finite animation.
    pub fn after_frame(&mut self, stopped: bool, interval_ms: u64) -> (r: Option<u64>)
        requires
            !old(self).done,
        ensures
            final(self).limit == old(self).limit,
            stopped ==> final(self).done && final(self).frame == old(self).frame && r is None,
            !stopped ==> final(self).frame == next_frame_count(old(self).frame),
            !stopped ==> final(self).done == (match old(self).limit {
                Some(n) => final(self).frame >= n,
                None => false,
            }),
            !stopped ==> r == (if final(self).done {
                None
            } else {
                Some(interval_ms)
            }),
    {
        if stopped {
            self.done = true;
            return None;
        }
        if self.frame < u64::MAX {
            self.frame = self.frame + 1;
        }
        self.done = match self.limit {
            Some(n) => self.frame >= n,
            None => false,
        };
        if self.done {
            None
        } else {
            Some(interval_ms)
        }
    }
}

} // verus!
