//! The playback state machine: from the steps reported so far to what is due.
//!
//! A [`Playback`] is driven by its caller in a loop. The caller asks for the
//! [`Action`] that is due, performs it against the outside world and, for a
//! step, reports how it went with [`Playback::record`]. The loop ends with
//! [`Action::Play`] or [`Action::Fail`], either of which carries the answer of
//! the whole command.
use crate::request::PlaybackRequest;
use crate::step::Step;
use vstd::prelude::*;

verus! {

/// What the caller has to do next for a playback.
#[derive(Debug, PartialEq, Eq)]
pub enum Action {
    /// Attempt this step and report how it went.
    Perform(Step),
    /// Every step has succeeded. Enqueue the decoded stream on the sink and
    /// answer success at once, without waiting for the sound to end. The
    /// output stream and the sink pass to an owner that outlives the command
    /// and keeps them until the sink has played everything.
    Play,
    /// A step has failed. Attempt nothing further, release what the earlier
    /// steps acquired and answer with this text, which is the description
    /// that was reported for the failed step, unchanged.
    Fail(String),
}

/// An [`Action`] as contracts see it: texts are sequences of characters.
pub enum ActionView {
    Perform(Step),
    Play,
    Fail(Seq<char>),
}

impl View for Action {
    type V = ActionView;

    open spec fn view(&self) -> ActionView {
        match self {
            Action::Perform(step) => ActionView::Perform(*step),
            Action::Play => ActionView::Play,
            Action::Fail(text) => ActionView::Fail(text@),
        }
    }
}

impl Clone for Action {
    fn clone(&self) -> (copy: Action)
        ensures
            copy@ == self@,
    {
        match self {
            Action::Perform(step) => Action::Perform(*step),
            Action::Play => Action::Play,
            Action::Fail(text) => Action::Fail(text.clone()),
        }
    }
}

/// How an attempted step went, as contracts see it: success, or the
/// description of the failure.
pub type Report = Result<(), Seq<char>>;

/// The report that a caller's `outcome` stands for.
pub open spec fn report_of(outcome: Result<(), String>) -> Report {
    match outcome {
        Ok(_) => Ok(()),
        Err(text) => Err(text@),
    }
}

impl ActionView {
    /// The action with which every playback begins.
    pub open spec fn initial() -> ActionView {
        ActionView::Perform(Step::OpenFile)
    }

    /// The action that is due once `report` has come in while `self` was due.
    ///
    /// A failed step ends the playback with the failure's text. A successful
    /// step leads to the following step, the last one to playing. Once the
    /// playback has ended no report changes it.
    pub open spec fn after(self, report: Report) -> ActionView {
        match self {
            ActionView::Perform(step) => match report {
                Err(text) => ActionView::Fail(text),
                Ok(_) => match step.following() {
                    Some(next) => ActionView::Perform(next),
                    None => ActionView::Play,
                },
            },
            ActionView::Play => ActionView::Play,
            ActionView::Fail(text) => ActionView::Fail(text),
        }
    }

    /// The action that is due after all of `reports` have come in, in order,
    /// to a fresh playback.
    pub open spec fn after_all(reports: Seq<Report>) -> ActionView
        decreases reports.len(),
    {
        if reports.len() == 0 {
            ActionView::initial()
        } else {
            ActionView::after_all(reports.drop_last()).after(reports.last())
        }
    }

    /// The answer of the command while `self` is due: none while a step is
    /// still to be attempted, success when the sound is to be played, and the
    /// failure's text otherwise.
    pub open spec fn answer(self) -> Option<Report> {
        match self {
            ActionView::Perform(_) => None,
            ActionView::Play => Some(Ok(())),
            ActionView::Fail(text) => Some(Err(text)),
        }
    }
}

/// The state of one playback: the request and the action that is due.
#[derive(Debug, PartialEq, Eq)]
pub struct Playback {
    request: PlaybackRequest,
    due: Action,
}

/// A [`Playback`] as contracts see it.
pub struct PlaybackView {
    /// The path of the requested file.
    pub path: Seq<char>,
    /// The action that is due.
    pub due: ActionView,
}

impl View for Playback {
    type V = PlaybackView;

    closed spec fn view(&self) -> PlaybackView {
        PlaybackView { path: self.request@, due: self.due@ }
    }
}

impl Playback {
    /// A fresh playback of `request`: nothing has been attempted, and opening
    /// the file is due.
    pub fn new(request: PlaybackRequest) -> (playback: Playback)
        ensures
            playback@.path == request@,
            playback@.due == ActionView::initial(),
    {
        Playback { request, due: Action::Perform(Step::OpenFile) }
    }

    /// The request that is being played.
    pub fn request(&self) -> (request: &PlaybackRequest)
        ensures
            request@ == self@.path,
    {
        &self.request
    }

    /// The action that is due.
    pub fn action(&self) -> (action: Action)
        ensures
            action@ == self@.due,
    {
        self.due.clone()
    }

    /// Takes in how the step that was due went: `Ok`, or the description of
    /// the failure. When no step was due the report is ignored.
    pub fn record(&mut self, outcome: Result<(), String>)
        ensures
            final(self)@.path == old(self)@.path,
            final(self)@.due == old(self)@.due.after(report_of(outcome)),
    {
        if let Action::Perform(step) = &self.due {
            let due = match outcome {
                Err(text) => Action::Fail(text),
                Ok(_) => match step.next() {
                    Some(next) => Action::Perform(next),
                    None => Action::Play,
                },
            };
            self.due = due;
        }
    }

    /// The answer of the command, once it is known: `None` while a step is
    /// still to be attempted, `Ok` when the sound is to be played, and
    /// otherwise the text of the step that failed.
    pub fn answer(&self) -> (answer: Option<Result<(), String>>)
        ensures
            match answer {
                None => self@.due.answer() == None::<Report>,
                Some(Ok(_)) => self@.due.answer() == Some(Ok::<(), Seq<char>>(())),
                Some(Err(text)) => self@.due.answer() == Some(Err::<(), Seq<char>>(text@)),
            },
    {
        match &self.due {
            Action::Perform(_) => None,
            Action::Play => Some(Ok(())),
            Action::Fail(text) => Some(Err(text.clone())),
        }
    }
}

} // verus!
