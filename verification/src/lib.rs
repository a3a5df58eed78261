//! Decision logic of a one-shot sound playback command.
//!
//! Playing a sound file takes four fallible steps against the outside world:
//! opening the file, decoding it, acquiring the default audio output and
//! creating a sink on that output. The first step that fails ends the command
//! with the failure's own text; when all four succeed the decoded stream is
//! enqueued on the sink and the command answers success at once, without
//! waiting for the sound to end.
//!
//! The library performs none of these steps. It decides, from how the steps
//! went so far, what has to happen next; the caller performs the step and
//! reports back. See [`playback::Playback`].
//!
//! Ownership of the audio output is decided here as well: a playback that
//! reaches [`playback::Action::Play`] hands the output stream and the sink to
//! an owner that outlives the command, so that the sound is played to its end.
pub mod laws;
pub mod playback;
pub mod request;
pub mod step;

pub use playback::{Action, ActionView, Playback, PlaybackView, Report};
pub use request::PlaybackRequest;
pub use step::Step;
