//! The command line options.
use vstd::prelude::*;

verus! {

/// Whether to install or uninstall the systemd service; the command line
/// parser refuses both at once.
#[derive(Debug, Clone, Copy, PartialEq, Eq, Structural)]
pub struct CliArgs {
    pub install: bool,
    pub uninstall: bool,
}

impl CliArgs {
    /// The options as parsed; the parser never gives both.
    pub fn new(install: bool, uninstall: bool) -> (r: Self)
        requires
            !(install && uninstall),
        ensures
            r.install == install,
            r.uninstall == uninstall,
    {
        CliArgs { install, uninstall }
    }
}

} // verus!
