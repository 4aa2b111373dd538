//! The command-line surface: which operation to run and on which
//! directories. Parsing the actual command line happens outside the
//! library; these are the values it produces.

use vstd::prelude::*;

verus! {

/// The two operations the tool offers.
pub enum SubCommand {
    /// Install the toolchains and tools a config file names.
    Install { source_dir: Option<String> },
    /// Assemble a redistributable package per configured selection.
    Package { source_dir: Option<String>, output_dir: Option<String> },
}

/// The parsed command-line options.
pub struct Options {
    pub subcommand: SubCommand,
}

} // verus!
