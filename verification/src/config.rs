//! The configuration values the startup path threads through explicitly:
//! the dev-mode flag and the default log-filter directive it selects.

use vstd::prelude::*;

verus! {

/// Logging configuration carried through startup as a plain value rather
/// than a process-wide mutable flag.
#[derive(Debug, Clone, Copy)]
pub struct LogSettings {
    dev_mode: bool,
}

impl LogSettings {
    pub closed spec fn spec_dev_mode(self) -> bool {
        self.dev_mode
    }

    /// Production settings: dev mode off.
    pub fn new() -> (r: Self)
        ensures
            !r.spec_dev_mode(),
    {
        Self { dev_mode: false }
    }

    /// Turn dev mode on or off.
    pub fn set_dev_mode(&mut self, enabled: bool)
        ensures
            final(self).spec_dev_mode() == enabled,
    {
        self.dev_mode = enabled;
    }

    /// Whether dev mode is on.
    pub fn dev_mode(&self) -> (r: bool)
        ensures
            r == self.spec_dev_mode(),
    {
        self.dev_mode
    }
}

/// The log-filter directive used when none is configured: everything from
/// `debug` up in dev mode, from `info` up otherwise.
pub fn default_env_filter(dev_mode: bool) -> (r: &'static str)
    ensures
        dev_mode ==> r@ == "debug"@,
        !dev_mode ==> r@ == "info"@,
{
    if dev_mode {
        "debug"
    } else {
        "info"
    }
}

} // verus!
