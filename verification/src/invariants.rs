//! What holds of every session, whatever the caller reports.
//!
//! Each statement here is about the transition table of
//! [`crate::session`], and so about every call of `Session::step`.

use crate::codec::{encrypt_outcome, key_material_valid};
use crate::error::ErrorKind;
use crate::session::{
    advance, phase_of, react, run, ActionView, EventView, Phase, SessionView, Stage,
};
use vstd::prelude::*;

verus! {

/// Whether the workspace has been released, or the session has ended: from
/// such a stage no further release is ever asked for.
pub open spec fn past_release(stage: Stage) -> bool {
    stage is Releasing || stage is Aborting || stage is Done || stage is Failed
}

/// The action a session that starts as `s` answers to the event at index `i`
/// of `events`, having been handed all the events before it.
pub open spec fn action_at(s: SessionView, events: Seq<EventView>, i: int) -> ActionView {
    react(run(s, events.take(i)), events[i]).1
}

/// Only the stage ever changes: key material and timing stay as they were
/// when the session was made.
pub proof fn lemma_run_keeps_configuration(s: SessionView, events: Seq<EventView>)
    ensures
        run(s, events).key == s.key,
        run(s, events).iv == s.iv,
        run(s, events).timing == s.timing,
    decreases events.len(),
{
    if events.len() > 0 {
        lemma_run_keeps_configuration(s, events.drop_last());
    }
}

/// Handing a session two runs of events in turn is handing it their
/// concatenation.
pub proof fn lemma_run_concat(s: SessionView, first: Seq<EventView>, second: Seq<EventView>)
    ensures
        run(s, first + second) == run(run(s, first), second),
    decreases second.len(),
{
    if second.len() == 0 {
        assert(first + second =~= first);
    } else {
        lemma_run_concat(s, first, second.drop_last());
        assert((first + second).drop_last() =~= first + second.drop_last());
        assert((first + second).last() == second.last());
    }
}

/// A session leaves `Watching` in one way only: it is waiting to learn
/// whether the sentinel exists, and is told that it does not. It then asks
/// for the plaintext to be read back.
pub proof fn lemma_only_absence_ends_watching(s: SessionView, event: EventView)
    requires
        phase_of(s.stage) == Phase::Watching,
        phase_of(react(s, event).0) != Phase::Watching,
    ensures
        s.stage == Stage::Polling,
        event == EventView::SentinelAbsent,
        react(s, event) == (Stage::ReadingPlaintext, ActionView::ReadPlaintext),
{
}

/// While the sentinel exists, so that no event reports it absent, a session
/// that is watching stays in `Watching`, however many waits elapse and
/// however many notifications are drained. In particular it never starts
/// re-encrypting.
pub proof fn lemma_watching_holds_while_sentinel_present(s: SessionView, events: Seq<EventView>)
    requires
        phase_of(s.stage) == Phase::Watching,
        forall|i: int| 0 <= i < events.len() ==> events[i] != EventView::SentinelAbsent,
    ensures
        phase_of(run(s, events).stage) == Phase::Watching,
    decreases events.len(),
{
    if events.len() > 0 {
        let earlier = events.drop_last();
        assert forall|i: int| 0 <= i < earlier.len() implies earlier[i]
            != EventView::SentinelAbsent by {
            assert(earlier[i] == events[i]);
        }
        lemma_watching_holds_while_sentinel_present(s, earlier);
        assert(events.last() == events[events.len() - 1]);
    }
}

/// A session that has ended stays as it is and answers every event with
/// `Exit`: it cannot be used again.
pub proof fn lemma_ended_session_is_inert(s: SessionView, event: EventView)
    requires
        s.stage is Done || s.stage is Failed,
    ensures
        react(s, event) == (s.stage, ActionView::Exit),
        advance(s, event) == s,
{
}

/// With a key or an IV of the wrong length a session fails on `Start` with
/// `InvalidKeyMaterial` and asks for nothing: no workspace is created and no
/// file is read.
pub proof fn lemma_bad_key_material_stops_before_io(s: SessionView)
    requires
        s.stage is Idle,
        !key_material_valid(s.key, s.iv),
    ensures
        react(s, EventView::Start) == (
            Stage::Failed(ErrorKind::InvalidKeyMaterial),
            ActionView::Exit,
        ),
{
}

/// A session made with a key or an IV of the wrong length never asks for
/// anything to be done, whatever it is handed, and never gets further than
/// having failed for its key material.
pub proof fn lemma_bad_key_material_never_acts(s: SessionView, events: Seq<EventView>)
    requires
        s.stage is Idle,
        !key_material_valid(s.key, s.iv),
    ensures
        run(s, events).stage is Idle || run(s, events).stage == Stage::Failed(
            ErrorKind::InvalidKeyMaterial,
        ),
        forall|i: int|
            0 <= i < events.len() ==> {
                let action = #[trigger] action_at(s, events, i);
                action == ActionView::Await || action == ActionView::Exit
            },
    decreases events.len(),
{
    if events.len() > 0 {
        let earlier = events.drop_last();
        lemma_bad_key_material_never_acts(s, earlier);
        lemma_run_keeps_configuration(s, earlier);
        assert forall|i: int| 0 <= i < events.len() implies {
            let action = #[trigger] action_at(s, events, i);
            action == ActionView::Await || action == ActionView::Exit
        } by {
            if i < earlier.len() {
                assert(events.take(i) =~= earlier.take(i));
                assert(action_at(s, events, i) == action_at(s, earlier, i));
            } else {
                assert(events.take(i) =~= earlier);
            }
        }
    }
}

/// The document is overwritten in one situation only: the plaintext has
/// just been read back and has been encrypted as a whole. What is written is
/// the complete ciphertext of that plaintext under the session's key
/// material. In particular no failure before or while watching touches the
/// document.
pub proof fn lemma_document_overwritten_only_with_ciphertext(s: SessionView, event: EventView)
    requires
        react(s, event).1 is WriteDocument,
    ensures
        s.stage == Stage::ReadingPlaintext,
        event matches EventView::Contents(plaintext) && encrypt_outcome(plaintext, s.key, s.iv)
            == Ok::<Seq<u8>, ErrorKind>(react(s, event).1->WriteDocument_0),
        react(s, event).0 == Stage::WritingDocument,
{
}

/// The plaintext is deleted on success only: the deletion is asked for
/// exactly when the overwrite of the document has been reported complete.
pub proof fn lemma_plaintext_deleted_only_after_overwrite(s: SessionView, event: EventView)
    ensures
        react(s, event).1 is DeletePlaintext <==> (s.stage == Stage::WritingDocument && event
            == EventView::Completed),
{
}

/// A failure while re-encrypting ends the session at once and keeps the
/// user's edits: the session answers `Exit`, asking neither for the
/// plaintext to be deleted nor for the workspace to be released.
pub proof fn lemma_failed_reencryption_keeps_plaintext(s: SessionView, event: EventView)
    requires
        phase_of(s.stage) == Phase::ReEncrypting,
        react(s, event).0 is Failed,
    ensures
        react(s, event).1 == ActionView::Exit,
{
}

/// A failure before the application is watched releases the workspace
/// before the session ends: leaving `Decrypting` for anything but `Watching`
/// either asks for the workspace to be destroyed, or happens because the
/// workspace could not be created in the first place.
pub proof fn lemma_failed_decryption_releases_workspace(s: SessionView, event: EventView)
    requires
        phase_of(s.stage) == Phase::Decrypting,
        phase_of(react(s, event).0) != Phase::Decrypting,
        phase_of(react(s, event).0) != Phase::Watching,
    ensures
        (react(s, event).0 is Aborting && react(s, event).1 == ActionView::DestroyWorkspace) || (
        s.stage == Stage::CreatingWorkspace && event == EventView::Failed && react(s, event) == (
            Stage::Failed(ErrorKind::IoFailure),
            ActionView::Exit,
        )),
{
}

/// Once the release of the workspace has been asked for, the session never
/// goes back, and never asks for it again.
pub proof fn lemma_release_is_final(s: SessionView, events: Seq<EventView>)
    requires
        past_release(s.stage),
    ensures
        past_release(run(s, events).stage),
        forall|i: int|
            0 <= i < events.len() ==> #[trigger] action_at(s, events, i)
                != ActionView::DestroyWorkspace,
    decreases events.len(),
{
    if events.len() > 0 {
        let earlier = events.drop_last();
        lemma_release_is_final(s, earlier);
        assert forall|i: int| 0 <= i < events.len() implies #[trigger] action_at(s, events, i)
            != ActionView::DestroyWorkspace by {
            if i < earlier.len() {
                assert(events.take(i) =~= earlier.take(i));
                assert(action_at(s, events, i) == action_at(s, earlier, i));
            } else {
                assert(events.take(i) =~= earlier);
            }
        }
    }
}

/// The workspace is released at most once: in any run of events, from any
/// stage, the session asks for the workspace to be destroyed at no more than
/// one point.
pub proof fn lemma_workspace_released_at_most_once(
    s: SessionView,
    events: Seq<EventView>,
    i: int,
    j: int,
)
    requires
        0 <= i < j < events.len(),
        action_at(s, events, i) == ActionView::DestroyWorkspace,
    ensures
        action_at(s, events, j) != ActionView::DestroyWorkspace,
{
    let upto = events.take(i + 1);
    let rest = events.skip(i + 1);
    let mid = run(s, upto);
    assert(upto.drop_last() =~= events.take(i));
    assert(upto.last() == events[i]);
    assert(past_release(mid.stage));
    lemma_release_is_final(mid, rest);
    lemma_run_concat(s, upto, rest.take(j - i - 1));
    assert(upto + rest.take(j - i - 1) =~= events.take(j));
    assert(rest[j - i - 1] == events[j]);
    assert(action_at(mid, rest, j - i - 1) == action_at(s, events, j));
}

/// A session that is waiting for its workspace to be released, or has ended
/// in `Done`, has asked for the release on its way there. With
/// [`lemma_workspace_released_at_most_once`], it has asked exactly once.
pub proof fn lemma_release_was_asked_for(s: SessionView, events: Seq<EventView>)
    requires
        !past_release(s.stage),
    ensures
        (run(s, events).stage is Releasing || run(s, events).stage is Aborting || run(
            s,
            events,
        ).stage is Done) ==> exists|i: int|
            0 <= i < events.len() && #[trigger] action_at(s, events, i)
                == ActionView::DestroyWorkspace,
    decreases events.len(),
{
    if events.len() > 0 {
        let earlier = events.drop_last();
        let before = run(s, earlier);
        let after = run(s, events);
        lemma_release_was_asked_for(s, earlier);
        if after.stage is Releasing || after.stage is Aborting || after.stage is Done {
            if before.stage is Releasing || before.stage is Aborting || before.stage is Done {
                let i = choose|i: int|
                    0 <= i < earlier.len() && #[trigger] action_at(s, earlier, i)
                        == ActionView::DestroyWorkspace;
                assert(events.take(i) =~= earlier.take(i));
                assert(action_at(s, events, i) == ActionView::DestroyWorkspace);
            } else {
                let last = events.len() - 1;
                assert(events.take(last) =~= earlier);
                assert(action_at(s, events, last) == ActionView::DestroyWorkspace);
            }
        }
    }
}

} // verus!
