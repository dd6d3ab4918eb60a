//! The mounting of the volume: the command that mounts it and the reading of
//! how the command ended.

use crate::command::{CommandLine, CommandLineModel, CommandOutput};
use crate::config::Mount;
use crate::model::lemma_push_deep_view;
use crate::text::{decode_or, text_or};
use vstd::prelude::*;
use vstd::string::*;

verus! {

/// Why the volume was not mounted.
#[derive(Debug)]
pub enum MountError {
    /// The command could not be started.
    SpawnFailed(std::io::Error),
    /// The command reported a failure, with what it wrote to its error
    /// stream.
    ExternalCommandFailed(String),
}

impl From<std::io::Error> for MountError {
    fn from(err: std::io::Error) -> (r: MountError) {
        MountError::SpawnFailed(err)
    }
}

impl vstd::std_specs::convert::FromSpecImpl<std::io::Error> for MountError {
    open spec fn obeys_from_spec() -> bool {
        true
    }

    open spec fn from_spec(err: std::io::Error) -> MountError {
        MountError::SpawnFailed(err)
    }
}

/// The command that mounts `block_device` on `target`.
pub open spec fn mount_command_for(target: Seq<char>, block_device: Seq<char>) -> CommandLineModel {
    CommandLineModel { program: "/bin/mount"@, args: seq![block_device, target] }
}

/// Builds the command that mounts the block device on the configured target.
pub fn mount_command(config: &Mount, block_device: &str) -> (command: CommandLine)
    ensures
        command@ == mount_command_for(config.target@, block_device@),
{
    let mut args: Vec<String> = Vec::new();
    let device = String::from_str(block_device);
    proof {
        lemma_push_deep_view(args, device);
    }
    args.push(device);
    let target = config.target.clone();
    proof {
        lemma_push_deep_view(args, target);
    }
    args.push(target);
    let command = CommandLine { program: String::from_str("/bin/mount"), args };
    assert(command.args.deep_view() =~= seq![block_device@, config.target@]);
    command
}

/// Reads how the mount command ended: a command that reports a failure
/// gives the text of its error stream, or a fixed phrase where the stream
/// holds no text.
pub fn mount_outcome(output: CommandOutput) -> (r: Result<(), MountError>)
    ensures
        output.success ==> r is Ok,
        !output.success ==> (r matches Err(MountError::ExternalCommandFailed(text)) && text@
            == text_or(output.stderr@, "unable to decode mount stderr"@)),
{
    if output.success {
        Ok(())
    } else {
        Err(
            MountError::ExternalCommandFailed(
                decode_or(output.stderr, "unable to decode mount stderr"),
            ),
        )
    }
}

} // verus!
