//! Names inside the ephemeral workspace.
//!
//! The workspace is a private, uniquely named directory that lives as long
//! as one session. It holds the plaintext document and, while the
//! application has the document open, the sentinel the application creates
//! next to it.
//!
//! The two names are coupled by an assumption about the application: that it
//! names its lock file after the document it opens, with `~$` in place of the
//! first two characters. An application that follows another convention, or
//! none, is never seen to hold the document.

use vstd::prelude::*;

verus! {

/// Name of the plaintext document inside the workspace.
pub const DOCUMENT_NAME: &'static str = "test-original.docx";

/// Name of the sentinel the application is expected to create next to the
/// plaintext document while it holds the document open.
pub const SENTINEL_NAME: &'static str = "~$st-original.docx";

/// The name under which an application is assumed to lock a document of
/// the given name: `~$`, then the name without its first two characters.
pub open spec fn lock_name(document: Seq<char>) -> Seq<char> {
    seq!['~', '$'] + document.skip(2)
}

/// The sentinel's name is the lock name of the document's name. This is
/// the one place where the assumption about the application is written
/// down.
pub proof fn lemma_sentinel_locks_document()
    ensures
        SENTINEL_NAME@ == lock_name(DOCUMENT_NAME@),
{
    reveal_strlit("test-original.docx");
    reveal_strlit("~$st-original.docx");
    assert(SENTINEL_NAME@ =~= lock_name(DOCUMENT_NAME@));
}

} // verus!
