//! The console plugin as the space sees it.

use vstd::prelude::*;
use crate::plugin_server::widget_ws_path;
use crate::widget_files::{file_content, widget_file, WidgetFile};
use crate::mime::mime_type_of;

verus! {

/// The plugin's id.
pub const PLUGIN_ID: &'static str = "console";

/// The console plugin.
#[derive(Debug)]
pub struct ConsolePlugin;

impl ConsolePlugin {
    /// The plugins this one needs: none.
    pub fn get_plugin_dependencies(&self) -> (r: Vec<String>)
        ensures
            r@.len() == 0,
    {
        Vec::new()
    }

    /// The route on which the console receives commands.
    pub fn ws_path(&self) -> (r: String)
        ensures
            r@ == "/widget/"@ + PLUGIN_ID@ + "/ws"@,
    {
        widget_ws_path(PLUGIN_ID)
    }
}

/// The content of an embedded widget file; an empty body where the file
/// is missing.
pub fn handle_static_file(asset: Option<Vec<u8>>) -> (r: Vec<u8>)
    ensures
        r@ == file_content(asset),
{
    match asset {
        Some(content) => content,
        None => Vec::new(),
    }
}

/// `GET /widget/console/file/{filename}`.
pub fn serve_widget_file(filename: &str, asset: Option<Vec<u8>>) -> (r: WidgetFile)
    ensures
        r.content_type@ == mime_type_of(filename@),
        r.body@ == file_content(asset),
{
    let content = handle_static_file(asset);
    widget_file(filename, content)
}

} // verus!
