//! The orchestration command surface: a thin description of the three
//! workflows the harness exposes, each operating on one serialized
//! sequence descriptor file.
use vstd::prelude::*;

verus! {

/// The testbench command line: one subcommand naming the workflow to run
/// and the sequence descriptor it operates on.
#[derive(Debug)]
pub struct AutoschematicTestBenchCommand {
    pub command: AutoschematicTestBenchSubcommand,
}

/// The three workflows of the harness.
#[derive(Debug)]
pub enum AutoschematicTestBenchSubcommand {
    /// Create a blank sequence file.
    Init { sequence: String },
    /// Run a test sequence and verify that the resulting transactions
    /// matched the sequence.
    Run { sequence: String },
    /// Run a test sequence and save its transactions back to that same
    /// sequence file.
    Record { sequence: String },
}

impl AutoschematicTestBenchCommand {
    /// The descriptor path the command operates on, whichever workflow it
    /// names.
    pub fn sequence_path(&self) -> (r: &String)
        ensures
            self.command matches AutoschematicTestBenchSubcommand::Init { sequence } ==> r@
                == sequence@,
            self.command matches AutoschematicTestBenchSubcommand::Run { sequence } ==> r@
                == sequence@,
            self.command matches AutoschematicTestBenchSubcommand::Record { sequence } ==> r@
                == sequence@,
    {
        match &self.command {
            AutoschematicTestBenchSubcommand::Init { sequence } => sequence,
            AutoschematicTestBenchSubcommand::Run { sequence } => sequence,
            AutoschematicTestBenchSubcommand::Record { sequence } => sequence,
        }
    }
}

} // verus!
