//! Configuration state: the configuration in effect and the modification time of the
//! file it came from, reloaded when that time changes.
//!
//! A file that fails to parse keeps the configuration that was in effect: a half-saved
//! or broken file must not throw the scheme or the page size back to defaults.
//! Reading the file is the caller's part; these functions decide what to keep.

use vstd::prelude::*;

verus! {

/// A file's modification time as nanoseconds since the epoch; `None` when the file is
/// missing or gives no time.
pub type FileTime = Option<u128>;

/// The configuration in effect and its file's modification time.
#[derive(Debug)]
pub struct Settings<C> {
    config: C,
    modified: FileTime,
}

impl<C> Settings<C> {
    pub closed spec fn current(&self) -> C {
        self.config
    }

    pub closed spec fn stamp(&self) -> FileTime {
        self.modified
    }

    /// First load: the parsed file, or `fallback` when it did not parse; `modified` is the
    /// file's time as read before parsing.
    pub fn load(parsed: Option<C>, fallback: C, modified: FileTime) -> (s: Self)
        ensures
            s.current() == (match parsed {
                Some(c) => c,
                None => fallback,
            }),
            s.stamp() == modified,
    {
        match parsed {
            Some(config) => Settings { config, modified },
            None => Settings { config: fallback, modified },
        }
    }

    /// A given configuration, not tied to any file.
    pub fn with_config(config: C) -> (s: Self)
        ensures
            s.current() == config,
            s.stamp() is None,
    {
        Settings { config, modified: None }
    }

    /// Whether `modified` is the time the configuration in effect was read at (then
    /// there is nothing to reread).
    pub fn is_current(&self, modified: FileTime) -> (r: bool)
        ensures
            r == (modified == self.stamp()),
    {
        match (modified, self.modified) {
            (Some(a), Some(b)) => a == b,
            (None, None) => true,
            _ => false,
        }
    }

    /// The file now has time `modified` and, when reread, parsed as `parsed`. Nothing
    /// changes if the time is the one already seen. Otherwise the time is remembered (so
    /// a broken file is not retried every round) and a parsed configuration takes effect.
    /// Returns whether a new configuration took effect.
    pub fn reload_if_changed(&mut self, modified: FileTime, parsed: Option<C>) -> (reloaded: bool)
        ensures
            modified == old(self).stamp() ==> !reloaded && final(self).current() == old(self).current()
                && final(self).stamp() == old(self).stamp(),
            modified != old(self).stamp() ==> final(self).stamp() == modified && reloaded == parsed is Some
                && final(self).current() == (match parsed {
                Some(c) => c,
                None => old(self).current(),
            }),
    {
        if self.is_current(modified) {
            return false;
        }
        self.modified = modified;
        match parsed {
            Some(config) => {
                self.config = config;
                true
            },
            None => false,
        }
    }

    /// The configuration in effect.
    pub fn config(&self) -> (r: &C)
        ensures
            *r == self.current(),
    {
        &self.config
    }
}

} // verus!
