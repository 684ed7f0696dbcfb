//! A sprite-sheet animation timing library.
//!
//! An [`Animation`] is an ordered list of [`Frame`]s (an atlas index plus a
//! display duration) together with a playback [`Mode`]. A [`State`] is the
//! mutable cursor of one playing instance: on every tick, [`State::update`]
//! consumes an elapsed-time delta and decides which atlas frame should be
//! showing now, carrying any remainder forward so that no time is ever lost.
//!
//! Every public operation carries a contract, and the timing laws of the
//! playback machine (exact time accounting, zero-delta stability, additivity
//! of deltas) are stated and proved in [`state`].

pub use animation::{Animation, Frame, FrameRate, Mode};
pub use sheet::{AnimationMode, SpriteSheetAnimation};
pub use state::State;
pub use time::Duration;

pub mod animation;
pub mod dto;
pub mod sheet;
pub mod state;
pub mod time;
