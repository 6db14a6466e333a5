//! The table of loaded plugins. A plugin library registers its plugins
//! by name; loading a library adds them to the table, replacing plugins
//! of the same name.

use vstd::prelude::*;
use crate::string_map::StringMap;
use crate::text::{ends_with, has_suffix};

verus! {

/// Why a plugin library was refused.
#[derive(PartialEq, Eq, Structural, Clone, Copy, Debug)]
pub enum PluginLoadError {
    /// The library was built with another compiler or another plugin core.
    VersionMismatch,
}

/// Version checks to prevent accidental ABI incompatibilities: a library
/// is accepted only when it was built with the same compiler and the same
/// plugin core as the server.
pub fn check_plugin_versions(
    plugin_rustc_version: &str,
    plugin_core_version: &str,
    rustc_version: &str,
    core_version: &str,
) -> (r: Result<(), PluginLoadError>)
    ensures
        r is Ok <==> (plugin_rustc_version@ == rustc_version@ && plugin_core_version@
            == core_version@),
        r matches Err(e) ==> e == PluginLoadError::VersionMismatch,
{
    let a = plugin_rustc_version.to_owned();
    let b = rustc_version.to_owned();
    let c = plugin_core_version.to_owned();
    let d = core_version.to_owned();
    if a != b || c != d {
        Err(PluginLoadError::VersionMismatch)
    } else {
        Ok(())
    }
}

/// Whether the file at `file_path` is a plugin library: whether its name
/// ends with the platform's library extension.
pub fn is_plugin_library(file_path: &str, extension: &str) -> (r: bool)
    ensures
        r == has_suffix(file_path@, extension@),
        r <==> (extension@.len() <= file_path@.len() && forall|i: int|
            0 <= i < extension@.len() ==> #[trigger] file_path@[file_path@.len() - extension@.len()
                + i] == extension@[i]),
{
    ends_with(file_path, extension)
}

/// Collects the plugins that one library registers.
pub struct PluginRegistrar<P> {
    pub plugins: StringMap<P>,
}

impl<P> PluginRegistrar<P> {
    /// A registrar that has collected nothing yet.
    pub fn new() -> (r: Self)
        ensures
            r.plugins.view() == Map::<Seq<char>, P>::empty(),
    {
        PluginRegistrar { plugins: StringMap::new() }
    }

    /// Registers `plugin` under `name`, replacing a plugin of that name.
    pub fn register_plugin(&mut self, name: &str, plugin: P)
        ensures
            final(self).plugins.view() == old(self).plugins.view().insert(name@, plugin),
    {
        self.plugins.insert(name.to_owned(), plugin);
    }
}

/// A map of the plugins.
pub struct PluginHandler<P> {
    pub plugins: StringMap<P>,
}

impl<P> PluginHandler<P> {
    /// A handler with no plugins.
    pub fn new() -> (r: Self)
        ensures
            r.plugins.view() == Map::<Seq<char>, P>::empty(),
    {
        PluginHandler { plugins: StringMap::new() }
    }

    /// Adds all plugins that a library registered; a plugin replaces one
    /// of the same name that was loaded before.
    pub fn add_plugins(&mut self, registrar: PluginRegistrar<P>)
        ensures
            final(self).plugins.view() == old(self).plugins.view().union_prefer_right(
                registrar.plugins.view(),
            ),
    {
        self.plugins.extend(registrar.plugins);
    }
}

} // verus!
