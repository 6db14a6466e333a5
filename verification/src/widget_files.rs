//! The files that a plugin embeds for its widget.

use vstd::prelude::*;
use crate::mime::{guess_mime_type, mime_type_of};

verus! {

/// A widget file served over HTTP.
pub struct WidgetFile {
    pub content_type: String,
    pub body: Vec<u8>,
}

/// The content of an embedded file: what the embedded folder holds, or
/// nothing.
pub open spec fn file_content(asset: Option<Vec<u8>>) -> Seq<u8> {
    match asset {
        Some(data) => data@,
        None => Seq::empty(),
    }
}

/// The answer to a request for a widget file: always `200 OK`, with the
/// type that the file name suggests.
pub fn widget_file(filename: &str, content: Vec<u8>) -> (r: WidgetFile)
    ensures
        r.content_type@ == mime_type_of(filename@),
        r.body@ == content@,
{
    WidgetFile { content_type: guess_mime_type(filename), body: content }
}

} // verus!
