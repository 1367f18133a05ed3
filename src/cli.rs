use vstd::prelude::*;

verus! {

/// The command line: one subcommand.
#[derive(Debug, Clone, Copy, PartialEq, Eq, Structural)]
pub struct Cli {
    pub cmd: TdxCommand,
}

/// Utilities for managing the host TDX environment.
#[derive(Debug, Clone, Copy, PartialEq, Eq, Structural)]
pub enum TdxCommand {
    /// Probe the system for TDX support.
    Check,
}

} // verus!
