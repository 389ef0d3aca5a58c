//! The lookup of one artifact, as a state machine.
//!
//! The library decides; a driver performs. A lookup hands the driver one
//! [`Action`] at a time, and the driver hands back the [`Event`] that the
//! action ended in, until the action is [`Action::Finish`].

use crate::artifact::{decoded, encoded, Artifact, ArtifactView};
use crate::error::{ErrorKind, IconError, IconErrorView};
use crate::request::{Target, TargetView};
use vstd::prelude::*;

verus! {

/// What a lookup is waiting for.
#[derive(Debug, Clone, PartialEq, Eq)]
pub enum Phase {
    /// For the cache directory to exist.
    Directory,
    /// To learn whether the cache file exists.
    Probe,
    /// For the content of the cache file.
    Read,
    /// For the origin's answer.
    Fetch,
    /// For the fetched artifact to be written.
    Write(Artifact),
    /// For nothing: the lookup has finished.
    Done,
}

/// The mathematical value of a [`Phase`].
pub enum PhaseView {
    Directory,
    Probe,
    Read,
    Fetch,
    Write(ArtifactView),
    Done,
}

impl View for Phase {
    type V = PhaseView;

    open spec fn view(&self) -> PhaseView {
        match *self {
            Phase::Directory => PhaseView::Directory,
            Phase::Probe => PhaseView::Probe,
            Phase::Read => PhaseView::Read,
            Phase::Fetch => PhaseView::Fetch,
            Phase::Write(a) => PhaseView::Write(a@),
            Phase::Done => PhaseView::Done,
        }
    }
}

/// What the driver reports.
#[derive(Debug, Clone, PartialEq, Eq)]
pub enum Event {
    /// The cache directory exists, or was created.
    DirectoryReady,
    /// The cache directory could not be created.
    DirectoryFailed(String),
    /// The cache file exists.
    FilePresent,
    /// The cache file does not exist.
    FileAbsent,
    /// The whole content of the cache file.
    ReadDone(Vec<u8>),
    /// The cache file could not be read.
    ReadFailed(String),
    /// The origin answered: its status, its `content-type` header if it
    /// sent one, and the whole body.
    Responded(u16, Option<String>, Vec<u8>),
    /// The origin could not be reached, or its answer could not be read.
    Unreachable(String),
    /// The cache file was written.
    Written,
    /// The cache file could not be written.
    WriteFailed(String),
}

/// The mathematical value of an [`Event`].
pub enum EventView {
    DirectoryReady,
    DirectoryFailed(Seq<char>),
    FilePresent,
    FileAbsent,
    ReadDone(Seq<u8>),
    ReadFailed(Seq<char>),
    Responded(u16, Option<Seq<char>>, Seq<u8>),
    Unreachable(Seq<char>),
    Written,
    WriteFailed(Seq<char>),
}

/// The value of a string that may be missing.
pub open spec fn text_view(text: Option<String>) -> Option<Seq<char>> {
    match text {
        Some(t) => Some(t@),
        None => None,
    }
}

impl View for Event {
    type V = EventView;

    open spec fn view(&self) -> EventView {
        match *self {
            Event::DirectoryReady => EventView::DirectoryReady,
            Event::DirectoryFailed(t) => EventView::DirectoryFailed(t@),
            Event::FilePresent => EventView::FilePresent,
            Event::FileAbsent => EventView::FileAbsent,
            Event::ReadDone(data) => EventView::ReadDone(data@),
            Event::ReadFailed(t) => EventView::ReadFailed(t@),
            Event::Responded(status, content_type, body) => EventView::Responded(
                status,
                text_view(content_type),
                body@,
            ),
            Event::Unreachable(t) => EventView::Unreachable(t@),
            Event::Written => EventView::Written,
            Event::WriteFailed(t) => EventView::WriteFailed(t@),
        }
    }
}

/// The value of a lookup's result.
pub open spec fn outcome_view(outcome: Result<Artifact, IconError>) -> Result<
    ArtifactView,
    IconErrorView,
> {
    match outcome {
        Ok(a) => Ok(a@),
        Err(e) => Err(e@),
    }
}

/// What the driver is to do next.
#[derive(Debug, PartialEq, Eq)]
pub enum Action {
    /// Create the cache directory, and what leads to it, unless it exists.
    EnsureDirectory,
    /// Tell whether the file of this name exists in the cache directory.
    Probe(String),
    /// Read the whole file of this name.
    Read(String),
    /// Send a GET request to this URL and read the whole answer.
    Fetch(String),
    /// Write these bytes to the file of this name.
    Write(String, Vec<u8>),
    /// Nothing more: this is the lookup's result.
    Finish(Result<Artifact, IconError>),
}

/// The mathematical value of an [`Action`].
pub enum ActionView {
    EnsureDirectory,
    Probe(Seq<char>),
    Read(Seq<char>),
    Fetch(Seq<char>),
    Write(Seq<char>, Seq<u8>),
    Finish(Result<ArtifactView, IconErrorView>),
}

impl View for Action {
    type V = ActionView;

    open spec fn view(&self) -> ActionView {
        match *self {
            Action::EnsureDirectory => ActionView::EnsureDirectory,
            Action::Probe(name) => ActionView::Probe(name@),
            Action::Read(name) => ActionView::Read(name@),
            Action::Fetch(url) => ActionView::Fetch(url@),
            Action::Write(name, data) => ActionView::Write(name@, data@),
            Action::Finish(outcome) => ActionView::Finish(outcome_view(outcome)),
        }
    }
}

/// One lookup in progress.
#[derive(Debug, Clone, PartialEq, Eq)]
pub struct Lookup {
    pub target: Target,
    pub phase: Phase,
}

/// The mathematical value of a [`Lookup`].
pub struct LookupView {
    pub target: TargetView,
    pub phase: PhaseView,
}

impl View for Lookup {
    type V = LookupView;

    open spec fn view(&self) -> LookupView {
        LookupView { target: self.target@, phase: self.phase@ }
    }
}

/// The artifact that an origin's answer gives: the status must lie in
/// 200..=299, and the `content-type` header must be there.
pub open spec fn checked_response(
    status: u16,
    content_type: Option<Seq<char>>,
    body: Seq<u8>,
) -> Result<ArtifactView, IconErrorView> {
    if status < 200 || status > 299 {
        Err(IconError::of_kind_view(ErrorKind::FetchStatus(status)))
    } else {
        match content_type {
            None => Err(IconError::of_kind_view(ErrorKind::MissingContentType)),
            Some(mime) => Ok(ArtifactView { mime, bytes: body }),
        }
    }
}

/// The artifact that the content of a cache file gives.
pub open spec fn checked_file(data: Seq<u8>) -> Result<ArtifactView, IconErrorView> {
    match decoded(data) {
        Ok(a) => Ok(a),
        Err(c) => Err(IconError::of_kind_view(ErrorKind::DeserializeFailed(c))),
    }
}

/// A lookup that has finished, with its result.
pub open spec fn finished(
    lookup: LookupView,
    outcome: Result<ArtifactView, IconErrorView>,
) -> (LookupView, ActionView) {
    (LookupView { target: lookup.target, phase: PhaseView::Done }, ActionView::Finish(outcome))
}

/// A lookup that goes on in another phase, with the next action.
pub open spec fn waiting(lookup: LookupView, phase: PhaseView, action: ActionView) -> (
    LookupView,
    ActionView,
) {
    (LookupView { target: lookup.target, phase }, action)
}

/// The lookup's transition: the state and the action that follow an event.
///
/// A present file is read and never fetched again; an absent one is fetched,
/// and written only once the answer has been accepted and encoded in full.
/// Every failure ends the lookup. So does an event that the phase was not
/// waiting for.
pub open spec fn next(lookup: LookupView, event: EventView) -> (LookupView, ActionView) {
    let name = lookup.target.file_name;
    match (lookup.phase, event) {
        (PhaseView::Directory, EventView::DirectoryReady) => waiting(
            lookup,
            PhaseView::Probe,
            ActionView::Probe(name),
        ),
        (PhaseView::Directory, EventView::DirectoryFailed(text)) => finished(
            lookup,
            Err(IconErrorView { kind: ErrorKind::DirectoryCreationFailed, text }),
        ),
        (PhaseView::Probe, EventView::FilePresent) => waiting(
            lookup,
            PhaseView::Read,
            ActionView::Read(name),
        ),
        (PhaseView::Probe, EventView::FileAbsent) => waiting(
            lookup,
            PhaseView::Fetch,
            ActionView::Fetch(lookup.target.url),
        ),
        (PhaseView::Read, EventView::ReadDone(data)) => finished(lookup, checked_file(data)),
        (PhaseView::Read, EventView::ReadFailed(text)) => finished(
            lookup,
            Err(IconErrorView { kind: ErrorKind::ReadFailed, text }),
        ),
        (PhaseView::Fetch, EventView::Responded(status, content_type, body)) => {
            match checked_response(status, content_type, body) {
                Ok(a) => waiting(lookup, PhaseView::Write(a), ActionView::Write(name, encoded(a))),
                Err(e) => finished(lookup, Err(e)),
            }
        },
        (PhaseView::Fetch, EventView::Unreachable(text)) => finished(
            lookup,
            Err(IconErrorView { kind: ErrorKind::FetchFailed, text }),
        ),
        (PhaseView::Write(a), EventView::Written) => finished(lookup, Ok(a)),
        (PhaseView::Write(_), EventView::WriteFailed(text)) => finished(
            lookup,
            Err(IconErrorView { kind: ErrorKind::WriteFailed, text }),
        ),
        _ => finished(lookup, Err(IconError::of_kind_view(ErrorKind::UnexpectedEvent))),
    }
}

/// Judges an origin's answer: an artifact where the status lies in 200..=299
/// and a `content-type` header came with it, an error otherwise.
pub fn check_response(status: u16, content_type: Option<String>, body: Vec<u8>) -> (r: Result<
    Artifact,
    IconError,
>)
    ensures
        outcome_view(r) == checked_response(status, text_view(content_type), body@),
{
    if status < 200 || status > 299 {
        return Err(IconError::of_kind(ErrorKind::FetchStatus(status)));
    }
    match content_type {
        None => Err(IconError::of_kind(ErrorKind::MissingContentType)),
        Some(mime) => Ok(Artifact { mime, bytes: body }),
    }
}

/// Judges the content of a cache file.
pub fn check_file(data: &[u8]) -> (r: Result<Artifact, IconError>)
    ensures
        outcome_view(r) == checked_file(data@),
{
    match Artifact::decode(data) {
        Ok(a) => Ok(a),
        Err(c) => Err(IconError::of_kind(ErrorKind::DeserializeFailed(c))),
    }
}

/// Ends a lookup with its result.
fn finish(target: Target, outcome: Result<Artifact, IconError>) -> (r: (Lookup, Action))
    ensures
        r.0@ == (LookupView { target: target@, phase: PhaseView::Done }),
        r.1@ == ActionView::Finish(outcome_view(outcome)),
{
    (Lookup { target, phase: Phase::Done }, Action::Finish(outcome))
}

impl Lookup {
    /// Starts the lookup of a target. The first action is to make sure that
    /// the cache directory exists.
    pub fn begin(target: Target) -> (r: (Lookup, Action))
        ensures
            r.0@ == (LookupView { target: target@, phase: PhaseView::Directory }),
            r.1@ == ActionView::EnsureDirectory,
    {
        (Lookup { target, phase: Phase::Directory }, Action::EnsureDirectory)
    }

    /// Takes the event that the last action ended in, and gives the lookup
    /// as it then stands with the next action.
    pub fn step(self, event: Event) -> (r: (Lookup, Action))
        ensures
            (r.0@, r.1@) == next(self@, event@),
            r.0.target@ == self.target@,
    {
        let Lookup { target, phase } = self;
        match (phase, event) {
            (Phase::Directory, Event::DirectoryReady) => {
                let name = target.file_name.clone();
                (Lookup { target, phase: Phase::Probe }, Action::Probe(name))
            },
            (Phase::Directory, Event::DirectoryFailed(text)) => {
                let e = IconError::new(ErrorKind::DirectoryCreationFailed, text);
                finish(target, Err(e))
            },
            (Phase::Probe, Event::FilePresent) => {
                let name = target.file_name.clone();
                (Lookup { target, phase: Phase::Read }, Action::Read(name))
            },
            (Phase::Probe, Event::FileAbsent) => {
                let url = target.url.clone();
                (Lookup { target, phase: Phase::Fetch }, Action::Fetch(url))
            },
            (Phase::Read, Event::ReadDone(data)) => {
                let outcome = check_file(data.as_slice());
                finish(target, outcome)
            },
            (Phase::Read, Event::ReadFailed(text)) => {
                let e = IconError::new(ErrorKind::ReadFailed, text);
                finish(target, Err(e))
            },
            (Phase::Fetch, Event::Responded(status, content_type, body)) => {
                match check_response(status, content_type, body) {
                    Ok(artifact) => {
                        let name = target.file_name.clone();
                        let data = artifact.encode();
                        (Lookup { target, phase: Phase::Write(artifact) }, Action::Write(name, data))
                    },
                    Err(e) => finish(target, Err(e)),
                }
            },
            (Phase::Fetch, Event::Unreachable(text)) => {
                let e = IconError::new(ErrorKind::FetchFailed, text);
                finish(target, Err(e))
            },
            (Phase::Write(artifact), Event::Written) => finish(target, Ok(artifact)),
            (Phase::Write(_), Event::WriteFailed(text)) => {
                let e = IconError::new(ErrorKind::WriteFailed, text);
                finish(target, Err(e))
            },
            _ => finish(target, Err(IconError::of_kind(ErrorKind::UnexpectedEvent))),
        }
    }
}

} // verus!
