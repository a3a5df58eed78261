//! What a caller asks for: one file to be played.
use vstd::prelude::*;

verus! {

/// A request to play one sound file.
///
/// The request is its path and nothing else. Any string is accepted: whether
/// it names a readable file that holds decodable audio is found out only when
/// the playback is attempted.
#[derive(Debug, PartialEq, Eq)]
pub struct PlaybackRequest {
    path: String,
}

impl View for PlaybackRequest {
    type V = Seq<char>;

    /// The path of the requested file.
    closed spec fn view(&self) -> Seq<char> {
        self.path@
    }
}

impl Clone for PlaybackRequest {
    fn clone(&self) -> (copy: PlaybackRequest)
        ensures
            copy@ == self@,
    {
        PlaybackRequest { path: self.path.clone() }
    }
}

impl PlaybackRequest {
    /// A request for the file at `path`.
    pub fn new(path: &str) -> (request: PlaybackRequest)
        ensures
            request@ == path@,
    {
        PlaybackRequest { path: path.to_owned() }
    }

    /// The path of the requested file, as it was given.
    pub fn path(&self) -> (path: &str)
        ensures
            path@ == self@,
    {
        self.path.as_str()
    }
}

} // verus!
