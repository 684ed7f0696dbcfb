//! Sprite-sheet flavored construction API: the same animation definition,
//! built directly from plain frame durations (rather than a [`FrameRate`])
//! for use with texture-atlas sprites.
//!
//! [`FrameRate`]: crate::FrameRate

use core::ops::RangeInclusive;
use vstd::prelude::*;

use crate::animation::{Frame, Mode};
use crate::time::Duration;

verus! {

/// Coarse playback mode selector: run once, repeat forever, or ping-pong.
/// The builder methods of [`SpriteSheetAnimation`] cover the same choices
/// (and more); this enum only records the default.
#[non_exhaustive]
#[derive(Clone, Copy, Debug, PartialEq, Eq, Structural)]
pub enum AnimationMode {
    /// Runs the animation once and then stop playing.
    Once,
    /// Repeat the animation forever.
    Repeat,
    /// Repeat the animation forever, going back and forth between the first
    /// and last frame.
    PingPong,
}

impl Default for AnimationMode {
    /// Repeat forever.
    fn default() -> (r: AnimationMode)
        ensures
            r == AnimationMode::Repeat,
    {
        AnimationMode::Repeat
    }
}

/// An animation of texture-atlas sprites: frames in playback order plus a
/// playback mode.
#[derive(Clone, Debug)]
pub struct SpriteSheetAnimation {
    /// Frames, in playback order.
    pub frames: Vec<Frame>,
    /// Playback mode.
    pub mode: Mode,
}

/// Relies on `core::ops::RangeInclusive::start`: returns the lower bound of
/// the range (inclusive).
pub assume_specification<Idx>[ RangeInclusive::<Idx>::start ](r: &RangeInclusive<Idx>) -> (ret:
    &Idx)
    ensures
        *ret == r@.start,
;

/// Relies on `core::ops::RangeInclusive::end`: returns the upper bound of
/// the range (inclusive).
pub assume_specification<Idx>[ RangeInclusive::<Idx>::end ](r: &RangeInclusive<Idx>) -> (ret:
    &Idx)
    ensures
        *ret == r@.end,
;

impl SpriteSheetAnimation {
    /// Every frame has a strictly positive duration; holds for every
    /// animation whose frames were built through [`Frame::new`].
    pub open spec fn wf(&self) -> bool {
        forall|i: int|
            0 <= i < self.frames@.len() ==> #[trigger] self.frames@[i].duration.nanos > 0
    }

    /// Create a new animation from frames, with the default looping mode.
    #[must_use]
    pub fn from_frames(frames: Vec<Frame>) -> (r: SpriteSheetAnimation)
        ensures
            r.frames == frames,
            r.mode == Mode::RepeatFrom(0usize),
    {
        SpriteSheetAnimation { frames, mode: Mode::RepeatFrom(0) }
    }

    /// Create a new animation from an inclusive index range, using the same
    /// frame duration for each frame.
    ///
    /// The duration must be strictly positive.
    #[must_use]
    pub fn from_range(index_range: RangeInclusive<usize>, frame_duration: Duration) -> (r:
        SpriteSheetAnimation)
        requires
            frame_duration.nanos > 0,
            index_range@.start <= index_range@.end ==> index_range@.end < usize::MAX,
        ensures
            r.mode == Mode::RepeatFrom(0usize),
            index_range@.start > index_range@.end ==> r.frames@.len() == 0,
            index_range@.start <= index_range@.end ==> r.frames@.len() == index_range@.end
                - index_range@.start + 1,
            forall|i: int|
                0 <= i < r.frames@.len() ==> #[trigger] r.frames@[i] == (Frame {
                    index: (index_range@.start + i) as usize,
                    duration: frame_duration,
                }),
    {
        let start: usize = *index_range.start();
        let end: usize = *index_range.end();
        let mut frames: Vec<Frame> = Vec::new();
        if start <= end {
            let mut i: usize = start;
            while i <= end
                invariant
                    start <= i <= end + 1,
                    end < usize::MAX,
                    frame_duration.nanos > 0,
                    frames@.len() == i - start,
                    forall|j: int|
                        0 <= j < frames@.len() ==> #[trigger] frames@[j] == (Frame {
                            index: (start + j) as usize,
                            duration: frame_duration,
                        }),
                decreases end + 1 - i,
            {
                frames.push(Frame::new(i, frame_duration));
                i = i + 1;
            }
        }
        SpriteSheetAnimation { frames, mode: Mode::RepeatFrom(0) }
    }

    /// Create a new animation from a list of atlas indices, using the same
    /// frame duration for each frame. The indices may come in any order, so
    /// reversed or composite animations need no extra API.
    ///
    /// The duration must be strictly positive.
    pub fn from_iter(indices: Vec<usize>, frame_duration: Duration) -> (r: SpriteSheetAnimation)
        requires
            frame_duration.nanos > 0,
        ensures
            r.mode == Mode::RepeatFrom(0usize),
            r.frames@.len() == indices@.len(),
            forall|i: int|
                0 <= i < indices@.len() ==> r.frames@[i] == (Frame {
                    index: indices@[i],
                    duration: frame_duration,
                }),
            r.wf(),
    {
        let mut frames: Vec<Frame> = Vec::new();
        let mut i: usize = 0;
        while i < indices.len()
            invariant
                0 <= i <= indices@.len(),
                frames@.len() == i,
                frame_duration.nanos > 0,
                forall|j: int|
                    0 <= j < i ==> frames@[j] == (Frame {
                        index: indices@[j],
                        duration: frame_duration,
                    }),
            decreases indices@.len() - i,
        {
            frames.push(Frame::new(indices[i], frame_duration));
            i = i + 1;
        }
        SpriteSheetAnimation { frames, mode: Mode::RepeatFrom(0) }
    }

    /// Run the animation once, then stop playing.
    #[must_use]
    pub fn once(self) -> (r: SpriteSheetAnimation)
        ensures
            r.frames == self.frames,
            r.mode == Mode::Once,
    {
        SpriteSheetAnimation { frames: self.frames, mode: Mode::Once }
    }

    /// Repeat the animation forever.
    #[must_use]
    pub fn repeat(self) -> (r: SpriteSheetAnimation)
        ensures
            r.frames == self.frames,
            r.mode == Mode::RepeatFrom(0usize),
    {
        SpriteSheetAnimation { frames: self.frames, mode: Mode::RepeatFrom(0) }
    }

    /// Repeat the animation forever, looping back to the frame at
    /// `frame_index` each time the last frame completes.
    #[must_use]
    pub fn repeat_from(self, frame_index: usize) -> (r: SpriteSheetAnimation)
        ensures
            r.frames == self.frames,
            r.mode == Mode::RepeatFrom(frame_index),
    {
        SpriteSheetAnimation { frames: self.frames, mode: Mode::RepeatFrom(frame_index) }
    }

    /// Repeat the animation forever, going back and forth between the first
    /// and last frame.
    #[must_use]
    pub fn ping_pong(self) -> (r: SpriteSheetAnimation)
        ensures
            r.frames == self.frames,
            r.mode == Mode::PingPong,
    {
        SpriteSheetAnimation { frames: self.frames, mode: Mode::PingPong }
    }

    /// True when the animation has at least one frame.
    pub fn has_frames(&self) -> (r: bool)
        ensures
            r == (self.frames@.len() > 0),
    {
        self.frames.len() > 0
    }
}

impl Default for SpriteSheetAnimation {
    /// An empty animation with the default looping mode.
    fn default() -> (r: SpriteSheetAnimation)
        ensures
            r.frames@.len() == 0,
            r.mode == Mode::RepeatFrom(0usize),
    {
        SpriteSheetAnimation { frames: Vec::new(), mode: Mode::RepeatFrom(0) }
    }
}

} // verus!
