use vstd::prelude::*;

verus! {

/// Frames in an enemy's animation strip.
pub const ANIMATION_FRAMES: usize = 12;

/// How long each animation frame is shown, in microseconds.
pub const FRAME_MICROS: u64 = 100_000;

/// Where an enemy is in its looping animation: the time spent in the current
/// frame, whether the last update moved on to a new frame, and the frame.
pub struct EnemyAnimation {
    elapsed: u64,
    finished: bool,
    frame: usize,
}

impl EnemyAnimation {
    pub closed spec fn elapsed_micros(&self) -> int {
        self.elapsed as int
    }

    pub closed spec fn frame_index(&self) -> int {
        self.frame as int
    }

    pub closed spec fn just_changed(&self) -> bool {
        self.finished
    }

    /// Time in the frame stays below a frame's length, and the frame lies
    /// in the strip.
    pub open spec fn wf(&self) -> bool {
        &&& 0 <= self.elapsed_micros() < FRAME_MICROS
        &&& 0 <= self.frame_index() < ANIMATION_FRAMES
    }

    /// The first frame, just started.
    pub fn new() -> (r: EnemyAnimation)
        ensures
            r.elapsed_micros() == 0,
            r.frame_index() == 0,
            !r.just_changed(),
            r.wf(),
    {
        EnemyAnimation { elapsed: 0, finished: false, frame: 0 }
    }

    /// Lets `delta` microseconds pass. When the time in the frame reaches a
    /// frame's length the animation moves on by one frame, wrapping round at
    /// the end of the strip, and the time in the frame keeps what is left
    /// over a whole number of frame lengths.
    pub fn update_timer(&mut self, delta: u64)
        requires
            old(self).wf(),
        ensures
            final(self).wf(),
            final(self).just_changed() == (old(self).elapsed_micros() + delta >= FRAME_MICROS),
            final(self).elapsed_micros() == (old(self).elapsed_micros() + delta) % (FRAME_MICROS as int),
            final(self).frame_index() == if final(self).just_changed() {
                (old(self).frame_index() + 1) % (ANIMATION_FRAMES as int)
            } else {
                old(self).frame_index()
            },
    {
        let total: u128 = self.elapsed as u128 + delta as u128;
        self.finished = total >= FRAME_MICROS as u128;
        self.elapsed = (total % FRAME_MICROS as u128) as u64;
        if !self.finished {
            return;
        }
        self.frame = (self.frame + 1) % ANIMATION_FRAMES;
    }

    /// Whether the last update moved the animation to a new frame.
    pub fn changed(&self) -> (r: bool)
        ensures
            r == self.just_changed(),
    {
        self.finished
    }

    /// The frame to show.
    pub fn frame(&self) -> (r: usize)
        ensures
            r == self.frame_index(),
    {
        self.frame
    }

    /// The atlas index a sprite showing this animation should hold, given
    /// the index it holds now: the current frame after a change, else the
    /// index unchanged.
    pub fn atlas_index(&self, current: usize) -> (r: usize)
        ensures
            r == if self.just_changed() { self.frame_index() } else { current as int },
    {
        if self.finished {
            self.frame
        } else {
            current
        }
    }
}

} // verus!
