//! Restarting the server when a file in the plugins folder changes.

use vstd::prelude::*;

verus! {

/// What the file watcher and the server loop share.
pub struct WatcherData<H> {
    /// The running server, once it was started.
    pub handle: Option<H>,
    /// A plugin file changed since the server was last started.
    pub needs_restart: bool,
}

impl<H> WatcherData<H> {
    /// No server started yet, no change seen.
    pub fn new() -> (r: Self)
        ensures
            r.handle is None,
            !r.needs_restart,
    {
        WatcherData { handle: None, needs_restart: false }
    }

    /// Whether the server loop should (re)start the server: a change was
    /// seen, or the server has not started for the first time. The change
    /// is consumed.
    pub fn take_restart_request(&mut self) -> (r: bool)
        ensures
            r == (old(self).needs_restart || old(self).handle is None),
            !final(self).needs_restart,
            final(self).handle == old(self).handle,
    {
        let r = self.needs_restart || self.handle.is_none();
        self.needs_restart = false;
        r
    }
}

impl<H> WatcherData<H> {
    /// A plugin file changed at `current_ms`, the watcher having started
    /// waiting at `last_ms`: when the change is due (see `restart_due`) a
    /// restart is requested, and the answer is whether the running server
    /// must be stopped for it.
    pub fn change_seen(&mut self, current_ms: u64, last_ms: u64) -> (stop: bool)
        ensures
            final(self).needs_restart == (old(self).needs_restart || current_ms >= last_ms + 1000),
            final(self).handle == old(self).handle,
            stop == (current_ms >= last_ms + 1000 && old(self).handle is Some),
    {
        if restart_due(current_ms, last_ms) {
            self.needs_restart = true;
            self.handle.is_some()
        } else {
            false
        }
    }
}

/// Whether a change seen at `current_ms` should restart the server, when
/// the watcher started waiting at `last_ms` (milliseconds): a file change
/// often comes as several events, and only those at least a second after
/// restart the server.
pub fn restart_due(current_ms: u64, last_ms: u64) -> (r: bool)
    ensures
        r == (current_ms >= last_ms + 1000),
{
    current_ms >= last_ms && current_ms - last_ms >= 1000
}

} // verus!
