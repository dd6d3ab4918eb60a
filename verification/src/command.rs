//! Commands of the operating system, as plain values. The caller runs a
//! command and records how it ended.

use vstd::prelude::*;

verus! {

/// A program and the arguments it is started with.
#[derive(Debug, PartialEq, Eq)]
pub struct CommandLine {
    pub program: String,
    pub args: Vec<String>,
}

/// What a [`CommandLine`] stands for.
pub struct CommandLineModel {
    pub program: Seq<char>,
    pub args: Seq<Seq<char>>,
}

impl DeepView for CommandLine {
    type V = CommandLineModel;

    open spec fn deep_view(&self) -> CommandLineModel {
        CommandLineModel { program: self.program@, args: self.args.deep_view() }
    }
}

impl View for CommandLine {
    type V = CommandLineModel;

    open spec fn view(&self) -> CommandLineModel {
        self.deep_view()
    }
}

/// How a command ended.
#[derive(Debug, PartialEq, Eq)]
pub struct CommandOutput {
    /// Whether the command reported success.
    pub success: bool,
    /// What the command wrote to its error stream.
    pub stderr: Vec<u8>,
}

} // verus!
