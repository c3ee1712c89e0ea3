//! Telling an encrypted document from a plain one by its name.
//!
//! A path that ends in `.enc` names an encrypted document, to be opened for
//! editing in a session. Any other path names a plain document, which is
//! encrypted once into a new file of the same name with `.enc` appended.

use vstd::prelude::*;
use vstd::string::*;

verus! {

/// The characters that mark the name of an encrypted document: `.enc`.
pub open spec fn encrypted_suffix() -> Seq<char> {
    seq!['.', 'e', 'n', 'c']
}

/// Whether a name ends in the marker of an encrypted document.
pub open spec fn has_encrypted_suffix(name: Seq<char>) -> bool {
    name.len() >= 4 && name.subrange(name.len() - 4, name.len() as int) == encrypted_suffix()
}

/// What is to be done with a document that has been received.
#[derive(Debug, PartialEq, Eq)]
pub enum Request {
    /// The document is encrypted: run a session on it.
    Edit,
    /// The document is plain: encrypt it into the file of this name.
    Encrypt(String),
}

/// What `classify` answers for a path.
pub open spec fn request_for(path: Seq<char>, request: Request) -> bool {
    if has_encrypted_suffix(path) {
        request is Edit
    } else {
        request matches Request::Encrypt(output) && output@ == path + encrypted_suffix()
    }
}

/// Whether `path` names an encrypted document.
pub fn is_encrypted_name(path: &str) -> (encrypted: bool)
    ensures
        encrypted == has_encrypted_suffix(path@),
{
    let n: usize = path.unicode_len();
    if n < 4 {
        return false;
    }
    let encrypted = path.get_char(n - 4) == '.' && path.get_char(n - 3) == 'e' && path.get_char(
        n - 2,
    ) == 'n' && path.get_char(n - 1) == 'c';
    proof {
        let tail = path@.subrange(n - 4, n as int);
        if encrypted {
            assert(tail =~= encrypted_suffix());
        } else {
            assert(tail[0] != '.' || tail[1] != 'e' || tail[2] != 'n' || tail[3] != 'c');
        }
    }
    encrypted
}

/// The name of the encrypted counterpart of a plain document: `path` with
/// the marker appended.
pub fn encrypted_name(path: &str) -> (name: String)
    ensures
        name@ == path@ + encrypted_suffix(),
        has_encrypted_suffix(name@),
{
    let name = String::from_str(path).concat(".enc");
    proof {
        reveal_strlit(".enc");
        assert(".enc"@ =~= encrypted_suffix());
        assert(name@.subrange(name@.len() - 4, name@.len() as int) =~= encrypted_suffix());
    }
    name
}

/// Decides by its name what is to be done with the document at `path`.
pub fn classify(path: &str) -> (request: Request)
    ensures
        request_for(path@, request),
{
    if is_encrypted_name(path) {
        Request::Edit
    } else {
        Request::Encrypt(encrypted_name(path))
    }
}

} // verus!
