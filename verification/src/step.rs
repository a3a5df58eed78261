//! The fallible steps of a playback, in the order in which they are attempted.
use vstd::prelude::*;

verus! {

/// One piece of outside work that a playback needs and that may fail.
#[derive(Clone, Copy, Debug, PartialEq, Eq, Structural)]
pub enum Step {
    /// Open the requested file for reading.
    OpenFile,
    /// Decode the opened file as an audio stream, detecting its format.
    Decode,
    /// Acquire a handle to the default audio output device.
    AcquireOutput,
    /// Create a sink bound to the acquired output.
    CreateSink,
}

impl Step {
    /// Number of steps of a playback.
    pub open spec fn count() -> nat {
        4
    }

    /// Position of the step in the order of attempts, counted from zero.
    pub open spec fn index(self) -> nat {
        match self {
            Step::OpenFile => 0,
            Step::Decode => 1,
            Step::AcquireOutput => 2,
            Step::CreateSink => 3,
        }
    }

    /// The step that is attempted once `self` has succeeded, if any is left.
    pub open spec fn following(self) -> Option<Step> {
        match self {
            Step::OpenFile => Some(Step::Decode),
            Step::Decode => Some(Step::AcquireOutput),
            Step::AcquireOutput => Some(Step::CreateSink),
            Step::CreateSink => None,
        }
    }

    /// The step to attempt after this one has succeeded; `None` after the last.
    pub fn next(self) -> (step: Option<Step>)
        ensures
            step == self.following(),
    {
        match self {
            Step::OpenFile => Some(Step::Decode),
            Step::Decode => Some(Step::AcquireOutput),
            Step::AcquireOutput => Some(Step::CreateSink),
            Step::CreateSink => None,
        }
    }
}

/// The steps are numbered without gaps, each step's successor is the step with
/// the next number, and only the last step has none.
pub proof fn lemma_steps_in_order(step: Step)
    ensures
        step.index() < Step::count(),
        step.index() == 0 <==> step == Step::OpenFile,
        match step.following() {
            Some(next) => next.index() == step.index() + 1,
            None => step.index() + 1 == Step::count(),
        },
{
}

} // verus!
