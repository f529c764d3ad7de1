//! Frame-timed sprite animation.
use vstd::prelude::*;

verus! {

/// One frame of an animation: the sprite shown and how long it is shown,
/// in microseconds.
#[derive(Clone, Copy, Debug, PartialEq, Eq)]
pub struct Frame {
    pub index: usize,
    pub duration: u32,
}

/// An animation over an ordered list of frames. `elapsed` is the time
/// already spent on the current frame, in microseconds.
#[derive(Clone, Debug)]
pub struct Animation {
    pub elapsed: u32,
    pub repeat: bool,
    pub frame: usize,
    pub frames: Vec<Frame>,
}

/// Time left on frame `frame` when `elapsed` of it has passed.
pub open spec fn remaining(frames: Seq<Frame>, frame: int, elapsed: int) -> int {
    let duration = frames[frame].duration as int;
    if elapsed < duration {
        duration - elapsed
    } else {
        0
    }
}

/// Where an animation stands, as (frame, elapsed), after `delta` more
/// microseconds: time is taken from the current frame and carried into the
/// following ones. Past the last frame a repeating animation starts over at
/// the first, and any other one stops on its last frame, fully elapsed.
pub open spec fn advance(frames: Seq<Frame>, repeat: bool, frame: int, elapsed: int, delta: int) -> (
    int,
    int,
)
    decreases delta, elapsed,
{
    if !(0 <= frame < frames.len()) || delta < 0 || elapsed < 0 {
        (frame, elapsed)
    } else if delta < remaining(frames, frame, elapsed) {
        (frame, elapsed + delta)
    } else if remaining(frames, frame, elapsed) == 0 && elapsed == 0 {
        // a frame of no length, which well-formed animations do not have
        (frame, elapsed)
    } else if frame + 1 < frames.len() {
        advance(frames, repeat, frame + 1, 0, delta - remaining(frames, frame, elapsed))
    } else if repeat {
        advance(frames, repeat, 0, 0, delta - remaining(frames, frame, elapsed))
    } else {
        (frames.len() - 1, frames[frames.len() - 1].duration as int)
    }
}

/// Every frame lasts a while.
pub open spec fn frames_wf(frames: Seq<Frame>) -> bool {
    &&& frames.len() > 0
    &&& forall|i: int| 0 <= i < frames.len() ==> #[trigger] frames[i].duration > 0
}

impl Animation {
    /// There is a frame, the current one exists, and every frame lasts a while.
    pub open spec fn wf(&self) -> bool {
        &&& frames_wf(self.frames@)
        &&& self.frame < self.frames@.len()
    }

    /// A non-repeating animation that has run to its end.
    pub open spec fn finished(&self) -> bool {
        &&& !self.repeat
        &&& self.frame == self.frames@.len() - 1
        &&& self.elapsed == self.frames@[self.frame as int].duration
    }

    /// The sprite that the current frame shows.
    pub fn current_index(&self) -> (r: usize)
        requires
            self.wf(),
        ensures
            r == self.frames@[self.frame as int].index,
    {
        self.frames[self.frame].index
    }

    /// Restarts the animation at its first frame; the time spent on the
    /// frame, the frame list and the repeat flag are kept.
    pub fn trigger_jump_animation(&mut self)
        requires
            old(self).wf(),
        ensures
            final(self).wf(),
            final(self).frame == 0,
            final(self).elapsed == old(self).elapsed,
            final(self).repeat == old(self).repeat,
            final(self).frames@ == old(self).frames@,
    {
        self.frame = 0;
    }

    /// Advances the animation by `delta` microseconds.
    pub fn update_animation(&mut self, delta: u32)
        requires
            old(self).wf(),
        ensures
            final(self).wf(),
            (final(self).frame as int, final(self).elapsed as int) == advance(
                old(self).frames@,
                old(self).repeat,
                old(self).frame as int,
                old(self).elapsed as int,
                delta as int,
            ),
            final(self).repeat == old(self).repeat,
            final(self).frames@ == old(self).frames@,
    {
        let ghost frames = self.frames@;
        let ghost repeat = self.repeat;
        let ghost target = advance(frames, repeat, self.frame as int, self.elapsed as int, delta as int);
        let mut delta: u32 = delta;
        loop
            invariant_except_break
                advance(frames, repeat, self.frame as int, self.elapsed as int, delta as int)
                    == target,
            invariant
                self.wf(),
                self.frames@ == frames,
                self.repeat == repeat,
            ensures
                self.wf(),
                self.frames@ == frames,
                self.repeat == repeat,
                (self.frame as int, self.elapsed as int) == target,
            decreases delta, self.elapsed,
        {
            let duration = self.frames[self.frame].duration;
            let left: u32 = if self.elapsed < duration {
                duration - self.elapsed
            } else {
                0
            };
            assert(left == remaining(frames, self.frame as int, self.elapsed as int));
            if delta < left {
                self.elapsed = self.elapsed + delta;
                break ;
            }
            assert(self.frames@[self.frame as int].duration > 0);
            delta = delta - left;
            if self.frame >= self.frames.len() - 1 {
                if self.repeat {
                    self.frame = 0;
                    self.elapsed = 0;
                } else {
                    self.frame = self.frames.len() - 1;
                    self.elapsed = self.frames[self.frame].duration;
                    break ;
                }
            } else {
                self.frame = self.frame + 1;
                self.elapsed = 0;
            }
        }
    }
}

/// An animation that has run to its end stays there, however much more
/// time passes.
pub proof fn lemma_finished_animation_stays(a: Animation, delta: nat)
    requires
        a.wf(),
        a.finished(),
    ensures
        advance(a.frames@, a.repeat, a.frame as int, a.elapsed as int, delta as int) == (
            a.frame as int,
            a.elapsed as int,
        ),
{
    assert(a.frames@[a.frame as int].duration > 0);
}

} // verus!
