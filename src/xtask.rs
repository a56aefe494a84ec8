use vstd::prelude::*;

use crate::build_ebpf::Options as BuildOptions;
use crate::run::Options as RunOptions;

verus! {

/// A build task.
#[derive(Debug)]
pub enum Command {
    /// Compile the filter program.
    BuildEbpf(BuildOptions),
    /// Compile everything and run the supervisor.
    Run(RunOptions),
}

/// The task asked for.
#[derive(Debug)]
pub struct Options {
    pub command: Command,
}

} // verus!
