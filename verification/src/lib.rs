//! Ping-pong frame animation library.
//!
//! The core of the library is a frame sequencer: a small state machine that
//! owns a current position into an ordered, non-empty set of frames, a
//! playback direction and a pause flag, and that advances the position on a
//! fixed cadence according to ping-pong rules (play forward to the last
//! frame, reverse back to the first, repeat), with an optional pause each
//! time a full loop completes.
//!
//! Around the sequencer the library offers:
//! - frame-set construction with dimension validation ([`frames`]);
//! - the state machine of a small terminal animation demo ([`eye`]).
//!
//! Window management, image decoding, rendering and input reading are left
//! to the callers; the library works on plain values.

pub mod eye;
pub mod frames;
pub mod sequencer;

pub use eye::AnimationAction;
pub use eye::EyeState;
pub use eye::InputSignal;
pub use frames::FrameImage;
pub use frames::FrameSet;
pub use frames::LoadError;
pub use sequencer::Direction;
pub use sequencer::FrameChangeEvent;
pub use sequencer::Sequencer;
