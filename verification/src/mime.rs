//! The content type under which a file is served.

use vstd::prelude::*;

verus! {

/// The MIME type that `mime_guess` guesses first for a file of this path,
/// or `application/octet-stream` where it has no guess.
pub uninterp spec fn mime_type_of(path: Seq<char>) -> Seq<char>;

/// Calls `mime_guess::from_path(path).first_or_octet_stream()` and returns
/// the type's text. The guess goes by the path's extension through
/// `mime_guess`'s tables; the contract only names it.
#[verifier::external_body]
pub(crate) fn guess_mime_type(path: &str) -> (r: String)
    ensures
        r@ == mime_type_of(path@),
{
    mime_guess::from_path(path).first_or_octet_stream().as_ref().to_string()
}

} // verus!
