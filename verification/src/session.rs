//! The lifecycle controller: one decrypt, watch, re-encrypt run for one
//! document.
//!
//! A [`Session`] decides; it performs nothing. Each call of
//! [`Session::step`] takes the outcome of the last action as an [`Event`]
//! and answers with the next [`Action`] for the caller to perform. The
//! caller performs exactly that action and reports back with one event.
//!
//! Closure of the document is inferred from the absence of the sentinel
//! file alone. That is a heuristic: an application that never creates the
//! sentinel, or removes it for a moment while the document is still open, is
//! taken to have closed the document. Change notifications are drained for
//! diagnostics and never decide anything. Nothing bounds the wait.
//!
//! Failures are handled unevenly, on purpose. A failure before the
//! application is watched releases the workspace and leaves the document as
//! it was. A failure while re-encrypting ends the session at once: the
//! plaintext holds the user's edits, so the session asks neither for its
//! deletion nor for the release of the workspace, and what becomes of the
//! workspace after the failure has been reported is left to the caller that
//! owns it. A failed attempt to open the application is not a failure of the
//! session at all.
//!
//! One session serves one document, and two sessions must not run on the
//! same document at once: nothing here guards against that.

use crate::codec::{
    decrypt, decrypt_outcome, encrypt, encrypt_outcome, key_material_valid, outcome_view,
    valid_key_material, BLOCK_LEN,
};
use crate::error::ErrorKind;
use vstd::prelude::*;

verus! {

/// Seconds to wait after launching the application before the first look
/// at the sentinel, unless the caller sets another grace period.
pub const DEFAULT_GRACE_SECS: u64 = 5;

/// Seconds between two looks at the sentinel, unless the caller sets
/// another interval.
pub const DEFAULT_POLL_SECS: u64 = 1;

/// How long the observer waits.
#[derive(Clone, Copy, Debug, PartialEq, Eq, Structural)]
pub struct Timing {
    /// Seconds granted to the application to start and create its sentinel.
    pub grace_secs: u64,
    /// Seconds between two looks at the sentinel.
    pub poll_secs: u64,
}

impl Default for Timing {
    fn default() -> (timing: Timing)
        ensures
            timing.grace_secs == DEFAULT_GRACE_SECS,
            timing.poll_secs == DEFAULT_POLL_SECS,
    {
        Timing { grace_secs: DEFAULT_GRACE_SECS, poll_secs: DEFAULT_POLL_SECS }
    }
}

/// The states of the lifecycle.
#[derive(Clone, Copy, Debug, PartialEq, Eq, Structural)]
pub enum Phase {
    /// No document has been received yet.
    Idle,
    /// The plaintext is being produced and handed to the application.
    Decrypting,
    /// The application is taken to hold the document open.
    Watching,
    /// The edited plaintext is being encrypted back over the document.
    ReEncrypting,
    /// The plaintext and the workspace are being removed, after a successful
    /// re-encryption or after a failure that came before the application
    /// was watched.
    Cleanup,
    /// The session ended and the document holds the edited content.
    Done,
    /// The session ended with an error.
    Failed,
}

/// Where exactly a session stands: its phase, refined by the one answer it
/// is waiting for.
#[derive(Clone, Copy, Debug, PartialEq, Eq, Structural)]
pub enum Stage {
    /// Waiting for a document.
    Idle,
    /// Waiting for the workspace to be created.
    CreatingWorkspace,
    /// Waiting for the content of the encrypted document.
    ReadingDocument,
    /// Waiting for the plaintext to be written into the workspace.
    WritingPlaintext,
    /// Waiting for the change-notification watch to be set up.
    StartingWatch,
    /// Waiting for the attempt to open the plaintext in the application.
    Launching,
    /// Waiting for the grace period to pass.
    Grace,
    /// Waiting to learn whether the sentinel exists.
    Polling,
    /// Waiting for the notification queue to be looked at.
    Draining,
    /// Waiting for the poll interval to pass.
    Pausing,
    /// Waiting for the content of the edited plaintext.
    ReadingPlaintext,
    /// Waiting for the document to be overwritten with the new ciphertext.
    WritingDocument,
    /// Waiting for the plaintext to be deleted.
    DeletingPlaintext,
    /// Waiting for the workspace to be destroyed after a successful run.
    Releasing,
    /// Waiting for the workspace to be destroyed after the given failure.
    Aborting(ErrorKind),
    /// Ended successfully.
    Done,
    /// Ended with the given failure.
    Failed(ErrorKind),
}

/// What the caller reports back.
#[derive(Debug, PartialEq, Eq)]
pub enum Event {
    /// A document was received.
    Start,
    /// The last action succeeded.
    Completed,
    /// The last action failed.
    Failed,
    /// The last action was a read; it succeeded with this content.
    Contents(Vec<u8>),
    /// The last action was a wait; the time has passed.
    Elapsed,
    /// The sentinel exists.
    SentinelPresent,
    /// The sentinel does not exist, or could not be looked at.
    SentinelAbsent,
    /// A change notification was taken from the queue.
    Notified,
}

/// Mathematical view of an [`Event`].
pub enum EventView {
    Start,
    Completed,
    Failed,
    Contents(Seq<u8>),
    Elapsed,
    SentinelPresent,
    SentinelAbsent,
    Notified,
}

impl View for Event {
    type V = EventView;

    open spec fn view(&self) -> EventView {
        match *self {
            Event::Start => EventView::Start,
            Event::Completed => EventView::Completed,
            Event::Failed => EventView::Failed,
            Event::Contents(bytes) => EventView::Contents(bytes@),
            Event::Elapsed => EventView::Elapsed,
            Event::SentinelPresent => EventView::SentinelPresent,
            Event::SentinelAbsent => EventView::SentinelAbsent,
            Event::Notified => EventView::Notified,
        }
    }
}

/// What the caller is asked to do next.
#[derive(Debug, PartialEq, Eq)]
pub enum Action {
    /// Create the private workspace directory.
    CreateWorkspace,
    /// Read the whole encrypted document; answer with `Contents`.
    ReadDocument,
    /// Write these bytes as the plaintext document in the workspace.
    WritePlaintext(Vec<u8>),
    /// Subscribe to change notifications on the plaintext document.
    WatchPlaintext,
    /// Open the plaintext document in the default application.
    OpenPlaintext,
    /// Wait this many seconds; answer with `Elapsed`.
    Wait(u64),
    /// Look whether the sentinel exists; answer with `SentinelPresent` or
    /// `SentinelAbsent`.
    CheckSentinel,
    /// Take at most one change notification from the queue, without
    /// blocking; answer with `Notified` if there was one.
    DrainNotification,
    /// Read the whole plaintext document; answer with `Contents`.
    ReadPlaintext,
    /// Overwrite the encrypted document with these bytes.
    WriteDocument(Vec<u8>),
    /// Delete the plaintext document from the workspace.
    DeletePlaintext,
    /// Remove the workspace directory and all it holds.
    DestroyWorkspace,
    /// The session has ended; there is nothing more to do.
    Exit,
    /// The event was not the answer awaited and has been ignored; the answer
    /// to the last action is still awaited.
    Await,
}

/// Mathematical view of an [`Action`].
pub enum ActionView {
    CreateWorkspace,
    ReadDocument,
    WritePlaintext(Seq<u8>),
    WatchPlaintext,
    OpenPlaintext,
    Wait(u64),
    CheckSentinel,
    DrainNotification,
    ReadPlaintext,
    WriteDocument(Seq<u8>),
    DeletePlaintext,
    DestroyWorkspace,
    Exit,
    Await,
}

impl View for Action {
    type V = ActionView;

    open spec fn view(&self) -> ActionView {
        match *self {
            Action::CreateWorkspace => ActionView::CreateWorkspace,
            Action::ReadDocument => ActionView::ReadDocument,
            Action::WritePlaintext(bytes) => ActionView::WritePlaintext(bytes@),
            Action::WatchPlaintext => ActionView::WatchPlaintext,
            Action::OpenPlaintext => ActionView::OpenPlaintext,
            Action::Wait(secs) => ActionView::Wait(secs),
            Action::CheckSentinel => ActionView::CheckSentinel,
            Action::DrainNotification => ActionView::DrainNotification,
            Action::ReadPlaintext => ActionView::ReadPlaintext,
            Action::WriteDocument(bytes) => ActionView::WriteDocument(bytes@),
            Action::DeletePlaintext => ActionView::DeletePlaintext,
            Action::DestroyWorkspace => ActionView::DestroyWorkspace,
            Action::Exit => ActionView::Exit,
            Action::Await => ActionView::Await,
        }
    }
}

/// One run of the lifecycle for one document.
pub struct Session {
    stage: Stage,
    key: Vec<u8>,
    iv: Vec<u8>,
    timing: Timing,
}

/// Mathematical view of a [`Session`].
pub struct SessionView {
    pub stage: Stage,
    pub key: Seq<u8>,
    pub iv: Seq<u8>,
    pub timing: Timing,
}

impl View for Session {
    type V = SessionView;

    closed spec fn view(&self) -> SessionView {
        SessionView { stage: self.stage, key: self.key@, iv: self.iv@, timing: self.timing }
    }
}

/// The phase a stage belongs to.
pub open spec fn phase_of(stage: Stage) -> Phase {
    match stage {
        Stage::Idle => Phase::Idle,
        Stage::CreatingWorkspace
        | Stage::ReadingDocument
        | Stage::WritingPlaintext
        | Stage::StartingWatch
        | Stage::Launching => Phase::Decrypting,
        Stage::Grace | Stage::Polling | Stage::Draining | Stage::Pausing => Phase::Watching,
        Stage::ReadingPlaintext | Stage::WritingDocument => Phase::ReEncrypting,
        Stage::DeletingPlaintext | Stage::Releasing | Stage::Aborting(_) => Phase::Cleanup,
        Stage::Done => Phase::Done,
        Stage::Failed(_) => Phase::Failed,
    }
}

/// Where a session goes, and what it asks for, once the document has been
/// read and decryption has given `outcome`.
pub open spec fn decrypted_reaction(outcome: Result<Seq<u8>, ErrorKind>) -> (Stage, ActionView) {
    match outcome {
        Ok(plaintext) => (Stage::WritingPlaintext, ActionView::WritePlaintext(plaintext)),
        Err(e) => (Stage::Aborting(e), ActionView::DestroyWorkspace),
    }
}

/// Where a session goes, and what it asks for, once the plaintext has been
/// read back and encryption has given `outcome`.
pub open spec fn encrypted_reaction(outcome: Result<Seq<u8>, ErrorKind>) -> (Stage, ActionView) {
    match outcome {
        Ok(ciphertext) => (Stage::WritingDocument, ActionView::WriteDocument(ciphertext)),
        Err(e) => (Stage::Failed(e), ActionView::Exit),
    }
}

/// The transition table: the stage a session moves to, and the action it
/// answers with, when it stands as `s` says and is handed `event`.
///
/// Failures before the application is watched release the workspace and
/// leave the document untouched. Failures while re-encrypting end the
/// session at once, with neither the plaintext deleted nor the workspace
/// released. Any pair the table does not list leaves the stage as it is.
pub open spec fn react(s: SessionView, event: EventView) -> (Stage, ActionView) {
    match (s.stage, event) {
        (Stage::Idle, EventView::Start) => if key_material_valid(s.key, s.iv) {
            (Stage::CreatingWorkspace, ActionView::CreateWorkspace)
        } else {
            (Stage::Failed(ErrorKind::InvalidKeyMaterial), ActionView::Exit)
        },
        (Stage::CreatingWorkspace, EventView::Completed) => (
            Stage::ReadingDocument,
            ActionView::ReadDocument,
        ),
        (Stage::CreatingWorkspace, EventView::Failed) => (
            Stage::Failed(ErrorKind::IoFailure),
            ActionView::Exit,
        ),
        (Stage::ReadingDocument, EventView::Contents(ciphertext)) => decrypted_reaction(
            decrypt_outcome(ciphertext, s.key, s.iv),
        ),
        (Stage::ReadingDocument, EventView::Failed) => (
            Stage::Aborting(ErrorKind::IoFailure),
            ActionView::DestroyWorkspace,
        ),
        (Stage::WritingPlaintext, EventView::Completed) => (
            Stage::StartingWatch,
            ActionView::WatchPlaintext,
        ),
        (Stage::WritingPlaintext, EventView::Failed) => (
            Stage::Aborting(ErrorKind::IoFailure),
            ActionView::DestroyWorkspace,
        ),
        (Stage::StartingWatch, EventView::Completed) => (
            Stage::Launching,
            ActionView::OpenPlaintext,
        ),
        (Stage::StartingWatch, EventView::Failed) => (
            Stage::Aborting(ErrorKind::WatchSetupFailure),
            ActionView::DestroyWorkspace,
        ),
        (Stage::Launching, EventView::Completed) | (Stage::Launching, EventView::Failed) => (
            Stage::Grace,
            ActionView::Wait(s.timing.grace_secs),
        ),
        (Stage::Grace, EventView::Elapsed) => (Stage::Polling, ActionView::CheckSentinel),
        (Stage::Polling, EventView::SentinelPresent) => (
            Stage::Draining,
            ActionView::DrainNotification,
        ),
        (Stage::Polling, EventView::SentinelAbsent) => (
            Stage::ReadingPlaintext,
            ActionView::ReadPlaintext,
        ),
        (Stage::Draining, EventView::Completed)
        | (Stage::Draining, EventView::Notified)
        | (Stage::Draining, EventView::Failed) => (
            Stage::Pausing,
            ActionView::Wait(s.timing.poll_secs),
        ),
        (Stage::Pausing, EventView::Elapsed) => (Stage::Polling, ActionView::CheckSentinel),
        (Stage::ReadingPlaintext, EventView::Contents(plaintext)) => encrypted_reaction(
            encrypt_outcome(plaintext, s.key, s.iv),
        ),
        (Stage::ReadingPlaintext, EventView::Failed) => (
            Stage::Failed(ErrorKind::IoFailure),
            ActionView::Exit,
        ),
        (Stage::WritingDocument, EventView::Completed) => (
            Stage::DeletingPlaintext,
            ActionView::DeletePlaintext,
        ),
        (Stage::WritingDocument, EventView::Failed) => (
            Stage::Failed(ErrorKind::IoFailure),
            ActionView::Exit,
        ),
        (Stage::DeletingPlaintext, EventView::Completed) => (
            Stage::Releasing,
            ActionView::DestroyWorkspace,
        ),
        (Stage::DeletingPlaintext, EventView::Failed) => (
            Stage::Aborting(ErrorKind::IoFailure),
            ActionView::DestroyWorkspace,
        ),
        (Stage::Releasing, EventView::Completed) => (Stage::Done, ActionView::Exit),
        (Stage::Releasing, EventView::Failed) => (
            Stage::Failed(ErrorKind::IoFailure),
            ActionView::Exit,
        ),
        (Stage::Aborting(e), EventView::Completed) | (Stage::Aborting(e), EventView::Failed) => (
            Stage::Failed(e),
            ActionView::Exit,
        ),
        (Stage::Done, _) | (Stage::Failed(_), _) => (s.stage, ActionView::Exit),
        _ => (s.stage, ActionView::Await),
    }
}

/// The session `s` after it has been handed `event`.
pub open spec fn advance(s: SessionView, event: EventView) -> SessionView {
    SessionView { stage: react(s, event).0, ..s }
}

/// The session `s` after it has been handed `events`, first to last.
pub open spec fn run(s: SessionView, events: Seq<EventView>) -> SessionView
    decreases events.len(),
{
    if events.len() == 0 {
        s
    } else {
        advance(run(s, events.drop_last()), events.last())
    }
}

/// The stage and the action that follow a decryption with the given
/// outcome.
pub fn on_decrypted(outcome: Result<Vec<u8>, ErrorKind>) -> (r: (Stage, Action))
    ensures
        (r.0, r.1@) == decrypted_reaction(outcome_view(outcome)),
{
    match outcome {
        Ok(plaintext) => (Stage::WritingPlaintext, Action::WritePlaintext(plaintext)),
        Err(e) => (Stage::Aborting(e), Action::DestroyWorkspace),
    }
}

/// The stage and the action that follow an encryption with the given
/// outcome.
pub fn on_encrypted(outcome: Result<Vec<u8>, ErrorKind>) -> (r: (Stage, Action))
    ensures
        (r.0, r.1@) == encrypted_reaction(outcome_view(outcome)),
{
    match outcome {
        Ok(ciphertext) => (Stage::WritingDocument, Action::WriteDocument(ciphertext)),
        Err(e) => (Stage::Failed(e), Action::Exit),
    }
}

impl Session {
    /// A session that has not received its document yet.
    ///
    /// The key material is taken as it is; a session with a key or an IV of
    /// the wrong length fails on `Start`, before any action is asked for.
    pub fn new(key: Vec<u8>, iv: Vec<u8>, timing: Timing) -> (session: Session)
        ensures
            session@ == (SessionView { stage: Stage::Idle, key: key@, iv: iv@, timing }),
    {
        Session { stage: Stage::Idle, key, iv, timing }
    }

    /// The stage the session stands at.
    pub fn stage(&self) -> (stage: Stage)
        ensures
            stage == self@.stage,
    {
        self.stage
    }

    /// The phase the session is in.
    pub fn phase(&self) -> (phase: Phase)
        ensures
            phase == phase_of(self@.stage),
    {
        match self.stage {
            Stage::Idle => Phase::Idle,
            Stage::CreatingWorkspace
            | Stage::ReadingDocument
            | Stage::WritingPlaintext
            | Stage::StartingWatch
            | Stage::Launching => Phase::Decrypting,
            Stage::Grace | Stage::Polling | Stage::Draining | Stage::Pausing => Phase::Watching,
            Stage::ReadingPlaintext | Stage::WritingDocument => Phase::ReEncrypting,
            Stage::DeletingPlaintext | Stage::Releasing | Stage::Aborting(_) => Phase::Cleanup,
            Stage::Done => Phase::Done,
            Stage::Failed(_) => Phase::Failed,
        }
    }

    /// Whether the session has ended, successfully or not.
    pub fn is_finished(&self) -> (finished: bool)
        ensures
            finished == (self@.stage is Done || self@.stage is Failed),
    {
        match self.stage {
            Stage::Done | Stage::Failed(_) => true,
            _ => false,
        }
    }

    /// The failure the session ended with, or is about to end with once the
    /// workspace has been released.
    pub fn failure(&self) -> (failure: Option<ErrorKind>)
        ensures
            failure == match self@.stage {
                Stage::Failed(e) | Stage::Aborting(e) => Some(e),
                _ => None,
            },
    {
        match self.stage {
            Stage::Failed(e) | Stage::Aborting(e) => Some(e),
            _ => None,
        }
    }

    /// Takes the outcome of the last action and answers with the next one.
    ///
    /// The stage and the action are those of the transition table; key
    /// material and timing never change. A ciphertext handed out for the
    /// document is complete, and decrypts under the session's key material
    /// to exactly the plaintext that was read back.
    pub fn step(&mut self, event: Event) -> (action: Action)
        requires
            event matches Event::Contents(bytes) ==> bytes@.len() + BLOCK_LEN <= isize::MAX,
        ensures
            (final(self)@.stage, action@) == react(old(self)@, event@),
            final(self)@ == advance(old(self)@, event@),
            action matches Action::WriteDocument(ciphertext) ==> (event matches Event::Contents(
                plaintext,
            ) && decrypt_outcome(ciphertext@, old(self)@.key, old(self)@.iv) == Ok::<
                Seq<u8>,
                ErrorKind,
            >(plaintext@)),
    {
        let (stage, action) = match self.stage {
            Stage::Idle => match event {
                Event::Start => if valid_key_material(self.key.as_slice(), self.iv.as_slice()) {
                    (Stage::CreatingWorkspace, Action::CreateWorkspace)
                } else {
                    (Stage::Failed(ErrorKind::InvalidKeyMaterial), Action::Exit)
                },
                _ => (self.stage, Action::Await),
            },
            Stage::CreatingWorkspace => match event {
                Event::Completed => (Stage::ReadingDocument, Action::ReadDocument),
                Event::Failed => (Stage::Failed(ErrorKind::IoFailure), Action::Exit),
                _ => (self.stage, Action::Await),
            },
            Stage::ReadingDocument => match event {
                Event::Contents(ciphertext) => on_decrypted(
                    decrypt(ciphertext.as_slice(), self.key.as_slice(), self.iv.as_slice()),
                ),
                Event::Failed => (Stage::Aborting(ErrorKind::IoFailure), Action::DestroyWorkspace),
                _ => (self.stage, Action::Await),
            },
            Stage::WritingPlaintext => match event {
                Event::Completed => (Stage::StartingWatch, Action::WatchPlaintext),
                Event::Failed => (Stage::Aborting(ErrorKind::IoFailure), Action::DestroyWorkspace),
                _ => (self.stage, Action::Await),
            },
            Stage::StartingWatch => match event {
                Event::Completed => (Stage::Launching, Action::OpenPlaintext),
                Event::Failed => (
                    Stage::Aborting(ErrorKind::WatchSetupFailure),
                    Action::DestroyWorkspace,
                ),
                _ => (self.stage, Action::Await),
            },
            Stage::Launching => match event {
                Event::Completed | Event::Failed => (
                    Stage::Grace,
                    Action::Wait(self.timing.grace_secs),
                ),
                _ => (self.stage, Action::Await),
            },
            Stage::Grace => match event {
                Event::Elapsed => (Stage::Polling, Action::CheckSentinel),
                _ => (self.stage, Action::Await),
            },
            Stage::Polling => match event {
                Event::SentinelPresent => (Stage::Draining, Action::DrainNotification),
                Event::SentinelAbsent => (Stage::ReadingPlaintext, Action::ReadPlaintext),
                _ => (self.stage, Action::Await),
            },
            Stage::Draining => match event {
                Event::Completed | Event::Notified | Event::Failed => (
                    Stage::Pausing,
                    Action::Wait(self.timing.poll_secs),
                ),
                _ => (self.stage, Action::Await),
            },
            Stage::Pausing => match event {
                Event::Elapsed => (Stage::Polling, Action::CheckSentinel),
                _ => (self.stage, Action::Await),
            },
            Stage::ReadingPlaintext => match event {
                Event::Contents(plaintext) => on_encrypted(
                    encrypt(plaintext.as_slice(), self.key.as_slice(), self.iv.as_slice()),
                ),
                Event::Failed => (Stage::Failed(ErrorKind::IoFailure), Action::Exit),
                _ => (self.stage, Action::Await),
            },
            Stage::WritingDocument => match event {
                Event::Completed => (Stage::DeletingPlaintext, Action::DeletePlaintext),
                Event::Failed => (Stage::Failed(ErrorKind::IoFailure), Action::Exit),
                _ => (self.stage, Action::Await),
            },
            Stage::DeletingPlaintext => match event {
                Event::Completed => (Stage::Releasing, Action::DestroyWorkspace),
                Event::Failed => (Stage::Aborting(ErrorKind::IoFailure), Action::DestroyWorkspace),
                _ => (self.stage, Action::Await),
            },
            Stage::Releasing => match event {
                Event::Completed => (Stage::Done, Action::Exit),
                Event::Failed => (Stage::Failed(ErrorKind::IoFailure), Action::Exit),
                _ => (self.stage, Action::Await),
            },
            Stage::Aborting(e) => match event {
                Event::Completed | Event::Failed => (Stage::Failed(e), Action::Exit),
                _ => (self.stage, Action::Await),
            },
            Stage::Done | Stage::Failed(_) => (self.stage, Action::Exit),
        };
        self.stage = stage;
        action
    }
}

} // verus!
