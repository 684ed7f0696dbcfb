//! Plain-data description of an animation, as text formats denote it: a mode
//! selector, an optional shared frame duration (milliseconds) or frame rate
//! (frames per second), and a frame list where each entry carries an atlas
//! index and optionally its own duration.
//!
//! Deserializers produce this shape; [`to_animation`] then resolves each
//! frame's duration and builds the [`Animation`], rejecting descriptions
//! where a frame's duration resolves to zero or where both a shared duration
//! and a frame rate are given.

use vstd::prelude::*;

use crate::animation::{Animation, Frame, Mode};
use crate::time::Duration;

verus! {

/// One frame of an animation description: an atlas index, and optionally the
/// frame's own display duration in milliseconds.
#[derive(Clone, Copy, Debug, PartialEq, Eq, Structural)]
pub struct FrameDto {
    /// Index in the sprite atlas.
    pub index: usize,
    /// The frame's own duration in milliseconds, if it carries one.
    pub duration: Option<u64>,
}

/// Mode selector of an animation description.
#[derive(Clone, Copy, Debug, PartialEq, Eq, Structural)]
pub enum ModeDto {
    /// Loop from the first frame.
    Repeat,
    /// Loop back to the frame at the carried index.
    RepeatFrom(usize),
    /// Play once.
    Once,
    /// Back and forth forever.
    PingPong,
}

/// A whole animation description.
#[derive(Clone, Debug)]
pub struct AnimationDto {
    /// Playback mode, defaulting to plain looping in the text formats.
    pub mode: ModeDto,
    /// Shared default duration in milliseconds for frames without their own.
    pub frame_duration: Option<u64>,
    /// Shared frame rate in frames per second, an alternative to
    /// `frame_duration`.
    pub fps: Option<u64>,
    /// The frames, in playback order.
    pub frames: Vec<FrameDto>,
}

/// Why an animation description cannot be turned into an animation.
#[derive(Clone, Copy, Debug, PartialEq, Eq, Structural)]
pub enum InvalidAnimation {
    /// Some frame's resolved duration is zero, or nothing resolves it.
    ZeroDuration,
    /// Both a shared frame duration and a frame rate are given.
    IncompatibleFrameRate,
}

/// The playback mode that a mode selector denotes.
pub open spec fn mode_of(m: ModeDto) -> Mode {
    match m {
        ModeDto::Repeat => Mode::RepeatFrom(0usize),
        ModeDto::RepeatFrom(f) => Mode::RepeatFrom(f),
        ModeDto::Once => Mode::Once,
        ModeDto::PingPong => Mode::PingPong,
    }
}

/// The mode selector that denotes a playback mode; looping from the first
/// frame is written as plain `Repeat`.
pub open spec fn dto_mode_of(m: Mode) -> ModeDto {
    match m {
        Mode::Once => ModeDto::Once,
        Mode::RepeatFrom(f) => if f == 0 {
            ModeDto::Repeat
        } else {
            ModeDto::RepeatFrom(f)
        },
        Mode::PingPong => ModeDto::PingPong,
    }
}

/// A description carries both a shared frame duration and a frame rate;
/// the two are incompatible.
pub open spec fn incompatible(dto: AnimationDto) -> bool {
    dto.fps is Some && dto.frame_duration is Some
}

/// Frame `i` has no duration source but the shared frame rate.
pub open spec fn needs_fps(dto: AnimationDto, i: int) -> bool {
    dto.frames@[i].duration is None && dto.frame_duration is None
}

/// The duration, in nanoseconds, that frame `i` of the description resolves
/// to: its own milliseconds if it carries them, else the shared milliseconds,
/// else one second divided by the shared frame rate (truncating), else zero.
pub open spec fn resolved_nanos(dto: AnimationDto, i: int) -> int {
    match dto.frames@[i].duration {
        Some(d) => d * 1_000_000,
        None => match dto.frame_duration {
            Some(d) => d * 1_000_000,
            None => match dto.fps {
                Some(f) => 1_000_000_000int / (f as int),
                None => 0,
            },
        },
    }
}

/// Frame `i` resolves to a usable (strictly positive) duration.
pub open spec fn frame_resolves(dto: AnimationDto, i: int) -> bool {
    resolved_nanos(dto, i) > 0
}

/// Every frame of the description resolves to a usable duration.
pub open spec fn all_frames_resolve(dto: AnimationDto) -> bool {
    forall|i: int| 0 <= i < dto.frames@.len() ==> frame_resolves(dto, i)
}

/// Frame `j` of the built list carries the atlas index of frame `j` of the
/// description and its resolved duration.
pub open spec fn frame_built(dto: AnimationDto, frames: Seq<Frame>, j: int) -> bool {
    &&& frames[j].index == dto.frames@[j].index
    &&& frames[j].duration.nanos == resolved_nanos(dto, j)
}

/// Build the animation that a description denotes.
///
/// Fails with `IncompatibleFrameRate` exactly when the description carries
/// both a shared frame duration and a frame rate, and otherwise with
/// `ZeroDuration` exactly when some frame's duration resolves to zero (or to
/// nothing at all); on every other description it succeeds, frame by frame.
///
/// A frame rate of zero cannot be divided by; it is ruled out wherever some
/// frame would actually fall back to it.
pub fn to_animation(dto: &AnimationDto) -> (r: Result<Animation, InvalidAnimation>)
    requires
        dto.fps == Some(0u64) ==> forall|i: int|
            0 <= i < dto.frames@.len() ==> !needs_fps(*dto, i),
    ensures
        incompatible(*dto) ==> r == Err::<Animation, InvalidAnimation>(
            InvalidAnimation::IncompatibleFrameRate,
        ),
        !incompatible(*dto) && !all_frames_resolve(*dto) ==> r == Err::<
            Animation,
            InvalidAnimation,
        >(InvalidAnimation::ZeroDuration),
        !incompatible(*dto) && all_frames_resolve(*dto) ==> (r matches Ok(anim) && {
            &&& anim.mode == mode_of(dto.mode)
            &&& anim.frames@.len() == dto.frames@.len()
            &&& (forall|i: int|
                0 <= i < dto.frames@.len() ==> #[trigger] frame_built(*dto, anim.frames@, i))
            &&& anim.wf()
        }),
{
    if dto.fps.is_some() && dto.frame_duration.is_some() {
        return Err(InvalidAnimation::IncompatibleFrameRate);
    }
    let mut frames: Vec<Frame> = Vec::new();
    let mut i: usize = 0;
    while i < dto.frames.len()
        invariant
            0 <= i <= dto.frames@.len(),
            frames@.len() == i,
            !incompatible(*dto),
            dto.fps == Some(0u64) ==> forall|k: int|
                0 <= k < dto.frames@.len() ==> !needs_fps(*dto, k),
            forall|j: int| 0 <= j < i ==> frame_resolves(*dto, j),
            forall|j: int| 0 <= j < i ==> #[trigger] frame_built(*dto, frames@, j),
        decreases dto.frames@.len() - i,
    {
        let fd = dto.frames[i];
        let millis: Option<u64> = match fd.duration {
            Some(d) => Some(d),
            None => dto.frame_duration,
        };
        let nanos: u128 = match millis {
            Some(m) => (m as u128) * 1_000_000,
            None => match dto.fps {
                Some(f) => {
                    proof {
                        assert(needs_fps(*dto, i as int));
                    }
                    (1_000_000_000u64 / f) as u128
                },
                None => 0,
            },
        };
        if nanos == 0 {
            proof {
                assert(!frame_resolves(*dto, i as int));
            }
            return Err(InvalidAnimation::ZeroDuration);
        }
        let ghost pre = frames@;
        frames.push(Frame { index: fd.index, duration: Duration { nanos } });
        proof {
            assert(frame_built(*dto, frames@, i as int));
            assert forall|j: int| 0 <= j < i implies #[trigger] frame_built(*dto, frames@, j) by {
                assert(frames@[j] == pre[j]);
                assert(frame_built(*dto, pre, j));
            }
        }
        i = i + 1;
    }
    let mode = match dto.mode {
        ModeDto::Repeat => Mode::RepeatFrom(0),
        ModeDto::RepeatFrom(n) => Mode::RepeatFrom(n),
        ModeDto::Once => Mode::Once,
        ModeDto::PingPong => Mode::PingPong,
    };
    let anim = Animation { frames, mode };
    proof {
        assert forall|j: int| 0 <= j < anim.frames@.len() implies #[trigger] anim.frames@[j].duration.nanos
            > 0 by {
            assert(frame_built(*dto, anim.frames@, j));
            assert(frame_resolves(*dto, j));
        }
    }
    Ok(anim)
}

impl AnimationDto {
    /// The plain-data description of an existing animation: no shared
    /// duration or frame rate, every frame carrying its own duration written
    /// in whole milliseconds (truncating), and looping from the first frame
    /// written as plain `Repeat`.
    ///
    /// Each frame's duration must fit in a `u64` count of milliseconds.
    pub fn from_animation(animation: &Animation) -> (r: AnimationDto)
        requires
            forall|i: int|
                0 <= i < animation.frames@.len()
                    ==> #[trigger] animation.frames@[i].duration.nanos / 1_000_000 <= u64::MAX,
        ensures
            r.fps is None,
            r.frame_duration is None,
            r.mode == dto_mode_of(animation.mode),
            r.frames@.len() == animation.frames@.len(),
            forall|i: int|
                0 <= i < animation.frames@.len() ==> #[trigger] r.frames@[i] == (FrameDto {
                    index: animation.frames@[i].index,
                    duration: Some((animation.frames@[i].duration.nanos / 1_000_000) as u64),
                }),
    {
        let mut frames: Vec<FrameDto> = Vec::new();
        let mut i: usize = 0;
        while i < animation.frames.len()
            invariant
                0 <= i <= animation.frames@.len(),
                frames@.len() == i,
                forall|k: int|
                    0 <= k < animation.frames@.len()
                        ==> #[trigger] animation.frames@[k].duration.nanos / 1_000_000
                        <= u64::MAX,
                forall|j: int|
                    0 <= j < i ==> #[trigger] frames@[j] == (FrameDto {
                        index: animation.frames@[j].index,
                        duration: Some((animation.frames@[j].duration.nanos / 1_000_000) as u64),
                    }),
            decreases animation.frames@.len() - i,
        {
            let fr = animation.frames[i];
            frames.push(FrameDto { index: fr.index, duration: Some((fr.duration.nanos / 1_000_000) as u64) });
            i = i + 1;
        }
        let mode = match animation.mode {
            Mode::Once => ModeDto::Once,
            Mode::RepeatFrom(0) => ModeDto::Repeat,
            Mode::RepeatFrom(n) => ModeDto::RepeatFrom(n),
            Mode::PingPong => ModeDto::PingPong,
        };
        AnimationDto { mode, frame_duration: None, fps: None, frames }
    }
}

} // verus!
