//! The relay's embedded web front end.

use vstd::prelude::*;
use crate::mime::{guess_mime_type, mime_type_of};

verus! {

/// The answer to a request for a front-end file.
pub enum StaticFileReply {
    /// `200 OK` with the file, under the type its path suggests.
    Found { content_type: String, body: Vec<u8> },
    /// `404 Not Found` with a short text.
    NotFound { text: String },
}

/// Serves the front-end file at `path`; `asset` is what the embedded
/// folder holds there.
pub fn handle_static_file(path: &str, asset: Option<Vec<u8>>) -> (r: StaticFileReply)
    ensures
        match asset {
            Some(data) => r matches StaticFileReply::Found { content_type, body } && content_type@
                == mime_type_of(path@) && body@ == data@,
            None => r matches StaticFileReply::NotFound { text } && text@ == "404 Not Found"@,
        },
{
    match asset {
        Some(data) => StaticFileReply::Found { content_type: guess_mime_type(path), body: data },
        None => StaticFileReply::NotFound { text: "404 Not Found".to_owned() },
    }
}

} // verus!
