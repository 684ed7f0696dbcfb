//! The immutable animation definition: frames, playback mode, frame rate.

use vstd::prelude::*;

use crate::time::Duration;

verus! {

/// A single animation frame: an index into the sprite atlas plus how long
/// the frame stays on screen.
#[derive(Clone, Copy, Debug, PartialEq, Eq, Structural)]
pub struct Frame {
    /// Index in the sprite atlas.
    pub index: usize,
    /// How long the frame should be displayed. Always strictly positive for
    /// frames built through [`Frame::new`].
    pub duration: Duration,
}

impl Frame {
    /// Create a new animation frame.
    ///
    /// The duration must be strictly positive: a zero-duration frame would
    /// never complete and would stall the playback loop.
    #[inline]
    #[must_use]
    pub fn new(index: usize, duration: Duration) -> (r: Frame)
        requires
            duration.nanos > 0,
        ensures
            r.index == index,
            r.duration == duration,
    {
        Frame { index, duration }
    }
}

/// Playback mode of an animation.
#[derive(Clone, Copy, Debug, PartialEq, Eq, Structural)]
pub enum Mode {
    /// Play forward once, then freeze on the last frame and report the end.
    Once,
    /// Play forward; after completing the last frame, jump back to the frame
    /// at the carried index and continue forever.
    RepeatFrom(usize),
    /// Play forward to the last frame, then backward to the first, forever.
    PingPong,
}

impl Default for Mode {
    /// Plain looping: repeat from the first frame.
    fn default() -> (r: Mode)
        ensures
            r == Mode::RepeatFrom(0usize),
    {
        Mode::RepeatFrom(0)
    }
}

/// Definition of an animation: an ordered list of frames plus a playback
/// mode. Built once, then shared read-only by any number of playback
/// [`State`](crate::State)s.
#[derive(Clone, Debug)]
pub struct Animation {
    /// Frames, in playback order.
    pub frames: Vec<Frame>,
    /// Playback mode.
    pub mode: Mode,
}

impl Animation {
    /// Every frame has a strictly positive duration. Holds for every
    /// animation whose frames were built through [`Frame::new`]; playback
    /// needs it so that each completed frame consumes some time.
    pub open spec fn wf(&self) -> bool {
        forall|i: int|
            0 <= i < self.frames@.len() ==> #[trigger] self.frames@[i].duration.nanos > 0
    }

    /// Create a new animation from frames, with the default looping mode.
    #[must_use]
    pub fn from_frames(frames: Vec<Frame>) -> (r: Animation)
        ensures
            r.frames == frames,
            r.mode == Mode::RepeatFrom(0usize),
    {
        Animation { frames, mode: Mode::RepeatFrom(0) }
    }

    /// Create a new animation from a list of atlas indices, using the same
    /// frame duration for each frame.
    ///
    /// The indices may come in any order (reversed, repeated, concatenated
    /// ranges), so reversed or composite animations need no extra API.
    ///
    /// The frame duration must be strictly positive.
    pub fn from_indices(indices: Vec<usize>, frame_rate: FrameRate) -> (r: Animation)
        requires
            frame_rate.frame_duration.nanos > 0,
        ensures
            r.mode == Mode::RepeatFrom(0usize),
            r.frames@.len() == indices@.len(),
            forall|i: int|
                0 <= i < indices@.len() ==> r.frames@[i] == (Frame {
                    index: indices@[i],
                    duration: frame_rate.frame_duration,
                }),
            r.wf(),
    {
        let mut frames: Vec<Frame> = Vec::new();
        let mut i: usize = 0;
        while i < indices.len()
            invariant
                0 <= i <= indices@.len(),
                frames@.len() == i,
                frame_rate.frame_duration.nanos > 0,
                forall|j: int|
                    0 <= j < i ==> frames@[j] == (Frame {
                        index: indices@[j],
                        duration: frame_rate.frame_duration,
                    }),
            decreases indices@.len() - i,
        {
            frames.push(Frame::new(indices[i], frame_rate.frame_duration));
            i = i + 1;
        }
        Animation { frames, mode: Mode::RepeatFrom(0) }
    }

    /// Run the animation once, then stop playing.
    #[must_use]
    pub fn once(self) -> (r: Animation)
        ensures
            r.frames == self.frames,
            r.mode == Mode::Once,
    {
        Animation { frames: self.frames, mode: Mode::Once }
    }

    /// Repeat the animation forever.
    #[must_use]
    pub fn repeat(self) -> (r: Animation)
        ensures
            r.frames == self.frames,
            r.mode == Mode::RepeatFrom(0usize),
    {
        Animation { frames: self.frames, mode: Mode::RepeatFrom(0) }
    }

    /// Repeat the animation forever, looping back to the frame at
    /// `frame_index` each time the last frame completes.
    #[must_use]
    pub fn repeat_from(self, frame_index: usize) -> (r: Animation)
        ensures
            r.frames == self.frames,
            r.mode == Mode::RepeatFrom(frame_index),
    {
        Animation { frames: self.frames, mode: Mode::RepeatFrom(frame_index) }
    }

    /// Repeat the animation forever, going back and forth between the first
    /// and last frame.
    #[must_use]
    pub fn ping_pong(self) -> (r: Animation)
        ensures
            r.frames == self.frames,
            r.mode == Mode::PingPong,
    {
        Animation { frames: self.frames, mode: Mode::PingPong }
    }

    /// True when the animation has at least one frame. Playback may only be
    /// driven for animations with frames.
    pub fn has_frames(&self) -> (r: bool)
        ensures
            r == (self.frames@.len() > 0),
    {
        self.frames.len() > 0
    }

    /// Append frames at the end of the animation.
    pub fn extend(&mut self, added: Vec<Frame>)
        ensures
            final(self).frames@ == old(self).frames@ + added@,
            final(self).mode == old(self).mode,
    {
        let mut added = added;
        self.frames.append(&mut added);
    }
}

impl PartialEq for Animation {
    fn eq(&self, other: &Animation) -> (r: bool) {
        if self.frames.len() != other.frames.len() {
            return false;
        }
        if self.mode != other.mode {
            return false;
        }
        let mut i: usize = 0;
        while i < self.frames.len()
            invariant
                0 <= i <= self.frames@.len(),
                self.frames@.len() == other.frames@.len(),
                forall|j: int| 0 <= j < i ==> self.frames@[j] == other.frames@[j],
            decreases self.frames@.len() - i,
        {
            if self.frames[i] != other.frames[i] {
                return false;
            }
            i = i + 1;
        }
        proof {
            assert(self.frames@ =~= other.frames@);
        }
        true
    }
}

impl vstd::std_specs::cmp::PartialEqSpecImpl for Animation {
    open spec fn obeys_eq_spec() -> bool {
        true
    }

    open spec fn eq_spec(&self, other: &Animation) -> bool {
        self.frames@ == other.frames@ && self.mode == other.mode
    }
}

impl Eq for Animation {

}

/// Frame-rate definition: the duration every frame of an animation shares.
/// Used only while building an animation, never during playback.
#[derive(Clone, Copy, Debug, PartialEq, Eq, Structural)]
#[must_use]
pub struct FrameRate {
    /// The duration of each frame.
    pub frame_duration: Duration,
}

impl FrameRate {
    /// Frame rate defined directly by the duration of each frame.
    pub fn from_frame_duration(duration: Duration) -> (r: FrameRate)
        ensures
            r.frame_duration == duration,
    {
        FrameRate { frame_duration: duration }
    }

    /// Frame rate obtained by spreading a total animation duration evenly
    /// over a known number of frames, truncating to whole nanoseconds.
    ///
    /// Returns no frame rate when the frame count is zero.
    pub fn from_total_duration(total: Duration, frame_count: usize) -> (r: Option<FrameRate>)
        ensures
            frame_count == 0 ==> r is None,
            frame_count > 0 ==> (r matches Some(fr) && fr.frame_duration.nanos == total.nanos
                / frame_count as u128),
    {
        if frame_count == 0 {
            None
        } else {
            Some(FrameRate { frame_duration: Duration { nanos: total.nanos / (frame_count as u128) } })
        }
    }
}

} // verus!
