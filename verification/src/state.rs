//! The playback state machine: the per-instance cursor and the advancement
//! algorithm, together with its mathematical model and the timing laws.
//!
//! The model is the spec function [`updated`]: it first credits the incoming
//! delta and re-reads the sprite index ([`begun`]), then completes frames one
//! by one while the accumulated time covers the current frame's duration
//! ([`drained`]), carrying the exact remainder forward. [`State::update`] is
//! proved to compute exactly this model.

use vstd::prelude::*;

use crate::animation::{Animation, Frame, Mode};
use crate::time::Duration;

verus! {

/// Mathematical value of a playback [`State`]: the same five fields over
/// unbounded integers.
#[verifier::ext_equal]
pub struct PlaybackModel {
    /// Logical position within the animation's frame list.
    pub animation_frame_index: int,
    /// Cached atlas index of the current frame, as shown to the renderer.
    pub sprite_frame_index: int,
    /// Nanoseconds accumulated toward completing the current frame.
    pub elapsed_in_frame: int,
    /// Direction flag; meaningful only under `Mode::PingPong`.
    pub going_backward: bool,
    /// True once a `Mode::Once` animation has completed its last frame.
    pub is_ended: bool,
}

/// Number of frames of the animation.
pub open spec fn frame_count(a: Animation) -> int {
    a.frames@.len() as int
}

/// The frame shown at logical position `index`: positions are read modulo the
/// frame count, so a position beyond the list (left over from an out-of-range
/// `RepeatFrom` target) still denotes a frame.
pub open spec fn frame_at(a: Animation, index: int) -> Frame {
    a.frames@[index % frame_count(a)]
}

/// Duration, in nanoseconds, of the frame at logical position `index`.
pub open spec fn frame_nanos(a: Animation, index: int) -> int {
    frame_at(a, index).duration.nanos as int
}

/// Whether the cursor stands on (or beyond) the last frame.
pub open spec fn on_last_frame(a: Animation, s: PlaybackModel) -> bool {
    s.animation_frame_index >= frame_count(a) - 1
}

/// An animation that playback may be driven on: well-formed frames, at least
/// one of them, and at least two for ping-pong (a one-frame ping-pong has no
/// neighbour to turn toward).
pub open spec fn playable(a: Animation) -> bool {
    &&& a.wf()
    &&& a.frames@.len() >= 1
    &&& (a.mode is PingPong ==> a.frames@.len() >= 2)
}

/// The mode-specific transition applied when the current frame completes:
/// moves the logical position and/or flips the direction flag and/or marks
/// the end. Leaves `sprite_frame_index` and `elapsed_in_frame` to the caller.
pub open spec fn mode_transition(a: Animation, s: PlaybackModel) -> PlaybackModel {
    match a.mode {
        Mode::RepeatFrom(loop_from) => PlaybackModel {
            animation_frame_index: if on_last_frame(a, s) {
                loop_from as int
            } else {
                s.animation_frame_index + 1
            },
            ..s
        },
        Mode::PingPong => if s.going_backward {
            if s.animation_frame_index == 0 {
                PlaybackModel { going_backward: false, animation_frame_index: 1, ..s }
            } else {
                PlaybackModel { animation_frame_index: s.animation_frame_index - 1, ..s }
            }
        } else if on_last_frame(a, s) {
            PlaybackModel {
                going_backward: true,
                animation_frame_index: s.animation_frame_index - 1,
                ..s
            }
        } else {
            PlaybackModel { animation_frame_index: s.animation_frame_index + 1, ..s }
        },
        Mode::Once => if on_last_frame(a, s) {
            PlaybackModel { is_ended: true, ..s }
        } else {
            PlaybackModel { animation_frame_index: s.animation_frame_index + 1, ..s }
        },
    }
}

/// One step of the catch-up loop: apply the mode transition, consume the
/// completed frame's duration, and re-read the sprite index at the new
/// position.
pub open spec fn complete_frame(a: Animation, s: PlaybackModel) -> PlaybackModel {
    let t = mode_transition(a, s);
    PlaybackModel {
        sprite_frame_index: frame_at(a, t.animation_frame_index).index as int,
        elapsed_in_frame: s.elapsed_in_frame - frame_nanos(a, s.animation_frame_index),
        ..t
    }
}

/// Complete frames while the accumulated time covers the current frame's
/// duration. Terminates because every frame of a well-formed animation
/// consumes at least one nanosecond.
pub open spec fn drained(a: Animation, s: PlaybackModel) -> PlaybackModel
    decreases s.elapsed_in_frame,
        when a.wf() && a.frames@.len() >= 1
{
    if s.elapsed_in_frame >= frame_nanos(a, s.animation_frame_index) {
        drained(a, complete_frame(a, s))
    } else {
        s
    }
}

/// The state right after a delta arrives, before any frame completes: the
/// sprite index is re-read (so even a zero delta yields a well-defined
/// current index) and the delta is credited.
pub open spec fn begun(a: Animation, s: PlaybackModel, delta_nanos: int) -> PlaybackModel {
    PlaybackModel {
        sprite_frame_index: frame_at(a, s.animation_frame_index).index as int,
        elapsed_in_frame: s.elapsed_in_frame + delta_nanos,
        ..s
    }
}

/// The full effect of one `update` call with the given delta.
pub open spec fn updated(a: Animation, s: PlaybackModel, delta_nanos: int) -> PlaybackModel {
    drained(a, begun(a, s, delta_nanos))
}

/// The model of a freshly created state: first frame, no time accumulated,
/// playing forward, not ended.
pub open spec fn initial_model() -> PlaybackModel {
    PlaybackModel {
        animation_frame_index: 0,
        sprite_frame_index: 0,
        elapsed_in_frame: 0,
        going_backward: false,
        is_ended: false,
    }
}

/// Animation playback state: the mutable cursor of one playing instance of
/// an [`Animation`].
#[derive(Clone, Debug, PartialEq, Eq, Structural)]
pub struct State {
    /// Logical position within the animation's frame list.
    pub animation_frame_index: usize,
    /// Cached atlas index of the current frame, as shown to the renderer.
    pub sprite_frame_index: usize,
    /// Time accumulated toward completing the current frame.
    pub elapsed_in_frame: Duration,
    /// Direction flag; meaningful only under `Mode::PingPong`.
    pub going_backward: bool,
    /// True once a `Mode::Once` animation has completed its last frame.
    pub is_ended: bool,
}

impl View for State {
    type V = PlaybackModel;

    open spec fn view(&self) -> PlaybackModel {
        PlaybackModel {
            animation_frame_index: self.animation_frame_index as int,
            sprite_frame_index: self.sprite_frame_index as int,
            elapsed_in_frame: self.elapsed_in_frame.nanos as int,
            going_backward: self.going_backward,
            is_ended: self.is_ended,
        }
    }
}

impl Default for State {
    /// Same as [`State::new`].
    fn default() -> (r: State)
        ensures
            r@ == initial_model(),
    {
        let r = State {
            animation_frame_index: 0,
            sprite_frame_index: 0,
            elapsed_in_frame: Duration { nanos: 0 },
            going_backward: false,
            is_ended: false,
        };
        proof {
            assert(r@ =~= initial_model());
        }
        r
    }
}

impl State {
    /// Create a new state: first frame, no time accumulated, playing
    /// forward, not ended.
    #[must_use]
    pub fn new() -> (r: State)
        ensures
            r@ == initial_model(),
    {
        State::default()
    }

    /// Reset the animation state.
    ///
    /// The animation will restart from the first frame, as if it were
    /// freshly spawned.
    pub fn reset(&mut self)
        ensures
            final(self)@ == initial_model(),
    {
        *self = State::default();
    }

    /// The atlas index of the frame that should be showing now.
    #[must_use]
    pub fn frame_index(&self) -> (r: usize)
        ensures
            r == self@.sprite_frame_index,
    {
        self.sprite_frame_index
    }

    /// The logical position within the animation's frame list, as distinct
    /// from the atlas index that frame points to.
    #[must_use]
    pub fn animation_frame_index(&self) -> (r: usize)
        ensures
            r == self@.animation_frame_index,
    {
        self.animation_frame_index
    }

    /// True once an animation in `Mode::Once` has completed its last frame.
    #[must_use]
    pub fn is_ended(&self) -> (r: bool)
        ensures
            r == self@.is_ended,
    {
        self.is_ended
    }

    /// The frame the cursor currently stands on.
    #[must_use]
    fn frame(&self, animation: &Animation) -> (r: Frame)
        requires
            animation.frames@.len() >= 1,
        ensures
            r == frame_at(*animation, self@.animation_frame_index),
    {
        animation.frames[self.animation_frame_index % animation.frames.len()]
    }

    /// Advance the playback state by `delta`.
    ///
    /// Credits `delta` to the time accumulated in the current frame, then
    /// completes frames one by one (applying the mode's transition rule)
    /// while the accumulated time covers the current frame's duration, so a
    /// single large delta correctly skips through several frames. The exact
    /// remainder is carried forward: no time is ever lost.
    pub fn update(&mut self, animation: &Animation, delta: Duration)
        requires
            playable(*animation),
            old(self)@.elapsed_in_frame + delta.nanos <= u128::MAX,
        ensures
            final(self)@ == updated(*animation, old(self)@, delta.nanos as int),
    {
        let ghost target = updated(*animation, old(self)@, delta.nanos as int);
        let mut frame = self.frame(animation);
        self.sprite_frame_index = frame.index;
        self.elapsed_in_frame = Duration { nanos: self.elapsed_in_frame.nanos + delta.nanos };
        proof {
            assert(self@ =~= begun(*animation, old(self)@, delta.nanos as int));
        }
        while self.elapsed_in_frame.nanos >= frame.duration.nanos
            invariant
                playable(*animation),
                frame == frame_at(*animation, self@.animation_frame_index),
                self@.sprite_frame_index == frame_at(
                    *animation,
                    self@.animation_frame_index,
                ).index,
                drained(*animation, self@) == target,
            decreases self@.elapsed_in_frame,
        {
            let ghost prev = self@;
            let len: usize = animation.frames.len();
            let on_last = self.animation_frame_index >= len - 1;
            match animation.mode {
                Mode::RepeatFrom(loop_from) => {
                    if on_last {
                        self.animation_frame_index = loop_from;
                    } else {
                        self.animation_frame_index = self.animation_frame_index + 1;
                    }
                },
                Mode::PingPong => {
                    if self.going_backward {
                        if self.animation_frame_index == 0 {
                            self.going_backward = false;
                            self.animation_frame_index = 1;
                        } else {
                            self.animation_frame_index = self.animation_frame_index - 1;
                        }
                    } else if on_last {
                        self.going_backward = true;
                        self.animation_frame_index = self.animation_frame_index - 1;
                    } else {
                        self.animation_frame_index = self.animation_frame_index + 1;
                    }
                },
                Mode::Once => {
                    if on_last {
                        self.is_ended = true;
                    } else {
                        self.animation_frame_index = self.animation_frame_index + 1;
                    }
                },
            }
            self.elapsed_in_frame = Duration {
                nanos: self.elapsed_in_frame.nanos - frame.duration.nanos,
            };
            frame = self.frame(animation);
            self.sprite_frame_index = frame.index;
            proof {
                assert(self@ =~= complete_frame(*animation, prev));
            }
        }
    }
}

/// Nanoseconds the catch-up loop consumes from state `s`: the total duration
/// of the frames it completes.
pub open spec fn drained_nanos(a: Animation, s: PlaybackModel) -> int
    decreases s.elapsed_in_frame,
        when a.wf() && a.frames@.len() >= 1
{
    if s.elapsed_in_frame >= frame_nanos(a, s.animation_frame_index) {
        frame_nanos(a, s.animation_frame_index) + drained_nanos(a, complete_frame(a, s))
    } else {
        0
    }
}

/// Total duration of the frames that one `update` call with the given delta
/// completes.
pub open spec fn consumed_nanos(a: Animation, s: PlaybackModel, delta_nanos: int) -> int {
    drained_nanos(a, begun(a, s, delta_nanos))
}

/// The state after a whole sequence of `update` calls, one per delta.
pub open spec fn updated_seq(a: Animation, s: PlaybackModel, deltas: Seq<int>) -> PlaybackModel
    decreases deltas.len(),
{
    if deltas.len() == 0 {
        s
    } else {
        updated_seq(a, updated(a, s, deltas[0]), deltas.drop_first())
    }
}

/// Total duration of the frames completed across a whole sequence of
/// `update` calls.
pub open spec fn consumed_seq(a: Animation, s: PlaybackModel, deltas: Seq<int>) -> int
    decreases deltas.len(),
{
    if deltas.len() == 0 {
        0
    } else {
        consumed_nanos(a, s, deltas[0]) + consumed_seq(
            a,
            updated(a, s, deltas[0]),
            deltas.drop_first(),
        )
    }
}

/// Sum of a sequence of deltas.
pub open spec fn sum_seq(deltas: Seq<int>) -> int
    decreases deltas.len(),
{
    if deltas.len() == 0 {
        0
    } else {
        deltas[0] + sum_seq(deltas.drop_first())
    }
}

/// A state as `update` leaves it: the accumulated time lies strictly below
/// the current frame's duration, and the sprite index caches the current
/// frame's atlas index.
pub open spec fn at_rest(a: Animation, s: PlaybackModel) -> bool {
    &&& s.elapsed_in_frame < frame_nanos(a, s.animation_frame_index)
    &&& s.sprite_frame_index == frame_at(a, s.animation_frame_index).index
}

proof fn lemma_drained_rests(a: Animation, s: PlaybackModel)
    requires
        a.wf(),
        a.frames@.len() >= 1,
        s.sprite_frame_index == frame_at(a, s.animation_frame_index).index,
    ensures
        at_rest(a, drained(a, s)),
    decreases s.elapsed_in_frame,
{
    if s.elapsed_in_frame >= frame_nanos(a, s.animation_frame_index) {
        lemma_drained_rests(a, complete_frame(a, s));
    }
}

/// Law: `update` always leaves the state at rest. In particular the time
/// accumulated toward the current frame is strictly below that frame's
/// duration once the call returns.
pub proof fn lemma_update_at_rest(a: Animation, s: PlaybackModel, delta_nanos: int)
    requires
        a.wf(),
        a.frames@.len() >= 1,
    ensures
        at_rest(a, updated(a, s, delta_nanos)),
{
    lemma_drained_rests(a, begun(a, s, delta_nanos));
}

/// Law (stability at rest): on a state at rest — as every state left by
/// `update` is — an update with a zero delta changes nothing at all: not the
/// sprite index, not the logical position, not the end flag, and not the
/// accumulated time.
pub proof fn lemma_zero_delta_update(a: Animation, s: PlaybackModel)
    requires
        a.wf(),
        a.frames@.len() >= 1,
        at_rest(a, s),
    ensures
        updated(a, s, 0) == s,
{
    assert(begun(a, s, 0) =~= s);
}

proof fn lemma_drained_accounting(a: Animation, s: PlaybackModel)
    requires
        a.wf(),
        a.frames@.len() >= 1,
    ensures
        drained(a, s).elapsed_in_frame + drained_nanos(a, s) == s.elapsed_in_frame,
    decreases s.elapsed_in_frame,
{
    if s.elapsed_in_frame >= frame_nanos(a, s.animation_frame_index) {
        lemma_drained_accounting(a, complete_frame(a, s));
    }
}

/// Law (no drift): over any sequence of updates, in every mode, the time
/// still accumulated toward the current frame plus the total duration of all
/// completed frames equals the initially accumulated time plus the sum of
/// all deltas. Starting from a fresh state, accumulated plus consumed time
/// is exactly the sum of the deltas: no time is ever lost or invented.
pub proof fn lemma_no_drift(a: Animation, s: PlaybackModel, deltas: Seq<int>)
    requires
        a.wf(),
        a.frames@.len() >= 1,
    ensures
        updated_seq(a, s, deltas).elapsed_in_frame + consumed_seq(a, s, deltas)
            == s.elapsed_in_frame + sum_seq(deltas),
    decreases deltas.len(),
{
    if deltas.len() > 0 {
        lemma_drained_accounting(a, begun(a, s, deltas[0]));
        lemma_no_drift(a, updated(a, s, deltas[0]), deltas.drop_first());
    }
}

/// `s` with `extra` more nanoseconds accumulated.
pub open spec fn add_elapsed(s: PlaybackModel, extra: int) -> PlaybackModel {
    PlaybackModel { elapsed_in_frame: s.elapsed_in_frame + extra, ..s }
}

proof fn lemma_drained_extra(a: Animation, t: PlaybackModel, extra: int)
    requires
        a.wf(),
        a.frames@.len() >= 1,
        extra >= 0,
    ensures
        drained(a, add_elapsed(drained(a, t), extra)) == drained(a, add_elapsed(t, extra)),
    decreases t.elapsed_in_frame,
{
    if t.elapsed_in_frame >= frame_nanos(a, t.animation_frame_index) {
        lemma_drained_extra(a, complete_frame(a, t), extra);
        assert(add_elapsed(complete_frame(a, t), extra) =~= complete_frame(
            a,
            add_elapsed(t, extra),
        ));
    }
}

/// Law (additivity of deltas, frame-skip correctness): one update with delta
/// `d1 + d2` lands in exactly the same state as two successive updates with
/// `d1` and then `d2`. A single call whose delta spans several frames
/// therefore skips through them just as separate per-frame calls would.
pub proof fn lemma_update_additive(a: Animation, s: PlaybackModel, d1: int, d2: int)
    requires
        a.wf(),
        a.frames@.len() >= 1,
        d1 >= 0,
        d2 >= 0,
    ensures
        updated(a, updated(a, s, d1), d2) == updated(a, s, d1 + d2),
{
    let t = begun(a, s, d1);
    lemma_drained_rests(a, t);
    assert(begun(a, drained(a, t), d2) =~= add_elapsed(drained(a, t), d2));
    lemma_drained_extra(a, t, d2);
    assert(add_elapsed(t, d2) =~= begun(a, s, d1 + d2));
}

proof fn lemma_drained_once_frozen(a: Animation, t: PlaybackModel)
    requires
        a.wf(),
        a.frames@.len() >= 1,
        a.mode is Once,
        on_last_frame(a, t),
        t.sprite_frame_index == frame_at(a, t.animation_frame_index).index,
    ensures
        drained(a, t).animation_frame_index == t.animation_frame_index,
        drained(a, t).sprite_frame_index == t.sprite_frame_index,
        drained(a, t).going_backward == t.going_backward,
        drained(a, t).is_ended == (t.is_ended || t.elapsed_in_frame >= frame_nanos(
            a,
            t.animation_frame_index,
        )),
    decreases t.elapsed_in_frame,
{
    if t.elapsed_in_frame >= frame_nanos(a, t.animation_frame_index) {
        lemma_drained_once_frozen(a, complete_frame(a, t));
    }
}

/// The cursor stands on an actual position of the frame list.
pub open spec fn in_range(a: Animation, s: PlaybackModel) -> bool {
    0 <= s.animation_frame_index < frame_count(a)
}

/// The animation's loop target, if it has one, names an actual frame. An
/// out-of-range target is accepted by construction but parks the cursor past
/// the end forever (see `repeat_from`); this predicate rules that out.
pub open spec fn well_targeted(a: Animation) -> bool {
    a.mode matches Mode::RepeatFrom(loop_from) ==> loop_from < a.frames@.len()
}

proof fn lemma_drained_in_range(a: Animation, s: PlaybackModel)
    requires
        playable(a),
        well_targeted(a),
        in_range(a, s),
    ensures
        in_range(a, drained(a, s)),
    decreases s.elapsed_in_frame,
{
    if s.elapsed_in_frame >= frame_nanos(a, s.animation_frame_index) {
        lemma_drained_in_range(a, complete_frame(a, s));
    }
}

/// Law: as long as the loop target names an actual frame, the cursor never
/// leaves the frame list: an update of an in-range state leaves an in-range
/// state, in every mode.
pub proof fn lemma_update_in_range(a: Animation, s: PlaybackModel, delta_nanos: int)
    requires
        playable(a),
        well_targeted(a),
        in_range(a, s),
    ensures
        in_range(a, updated(a, s, delta_nanos)),
{
    lemma_drained_in_range(a, begun(a, s, delta_nanos));
}

/// Law (turnaround shows no frame twice): under ping-pong, completing a
/// frame always moves the cursor to a different in-range position — at the
/// endpoints the direction flips and the cursor moves away within the same
/// step, so no frame is ever shown twice in a row.
pub proof fn lemma_ping_pong_always_moves(a: Animation, s: PlaybackModel)
    requires
        playable(a),
        a.mode is PingPong,
        in_range(a, s),
    ensures
        complete_frame(a, s).animation_frame_index != s.animation_frame_index,
        in_range(a, complete_frame(a, s)),
{
}

/// Law (freezing at the end): in `Once` mode, an update on a state that
/// stands on the last frame never moves the cursor: the logical position and
/// the sprite index stay put, and the end flag is raised exactly when the
/// accumulated time covers the last frame's duration (and never lowered).
/// Extra time is simply drained away.
pub proof fn lemma_once_frozen(a: Animation, s: PlaybackModel, delta_nanos: int)
    requires
        a.wf(),
        a.frames@.len() >= 1,
        a.mode is Once,
        on_last_frame(a, s),
    ensures
        updated(a, s, delta_nanos).animation_frame_index == s.animation_frame_index,
        updated(a, s, delta_nanos).sprite_frame_index == frame_at(
            a,
            s.animation_frame_index,
        ).index,
        updated(a, s, delta_nanos).going_backward == s.going_backward,
        updated(a, s, delta_nanos).is_ended == (s.is_ended || s.elapsed_in_frame + delta_nanos
            >= frame_nanos(a, s.animation_frame_index)),
{
    lemma_drained_once_frozen(a, begun(a, s, delta_nanos));
}

} // verus!
