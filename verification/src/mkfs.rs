//! The making of the file system: the command that makes it, the reading of
//! how the command ended, and the test for a file system that is there
//! already.

use crate::command::{CommandLine, CommandLineModel, CommandOutput};
use crate::config::FileSystem;
use crate::model::lemma_push_deep_view;
use crate::text::{decode_or, split_words, text_or, words};
use vstd::prelude::*;
use vstd::string::*;

verus! {

/// Why no file system was made.
#[derive(Debug)]
pub enum MakeFilesystemError {
    /// The command could not be started, or the device could not be read.
    SpawnFailed(std::io::Error),
    /// The command reported a failure, with what it wrote to its error
    /// stream.
    ExternalCommandFailed(String),
}

impl From<std::io::Error> for MakeFilesystemError {
    fn from(err: std::io::Error) -> (r: MakeFilesystemError) {
        MakeFilesystemError::SpawnFailed(err)
    }
}

impl vstd::std_specs::convert::FromSpecImpl<std::io::Error> for MakeFilesystemError {
    open spec fn obeys_from_spec() -> bool {
        true
    }

    open spec fn from_spec(err: std::io::Error) -> MakeFilesystemError {
        MakeFilesystemError::SpawnFailed(err)
    }
}

/// The command that makes a file system on `block_device`: the configured
/// options, word by word, and the device behind them.
pub open spec fn mkfs_command_for(mkfs: Seq<char>, block_device: Seq<char>) -> CommandLineModel {
    CommandLineModel { program: "/sbin/mkfs"@, args: words(mkfs).push(block_device) }
}

/// Builds the command that makes the file system.
pub fn mkfs_command(config: &FileSystem, block_device: &str) -> (command: CommandLine)
    ensures
        command@ == mkfs_command_for(config.mkfs@, block_device@),
{
    let mut args = split_words(config.mkfs.as_str());
    let device = String::from_str(block_device);
    proof {
        lemma_push_deep_view(args, device);
    }
    args.push(device);
    CommandLine { program: String::from_str("/sbin/mkfs"), args }
}

/// Reads how the command that makes the file system ended: a command that
/// reports a failure gives the text of its error stream, or a fixed phrase
/// where the stream holds no text.
pub fn mkfs_outcome(output: CommandOutput) -> (r: Result<(), MakeFilesystemError>)
    ensures
        output.success ==> r is Ok,
        !output.success ==> (r matches Err(MakeFilesystemError::ExternalCommandFailed(text))
            && text@ == text_or(output.stderr@, "unable to decode mkfs stderr"@)),
{
    if output.success {
        Ok(())
    } else {
        Err(
            MakeFilesystemError::ExternalCommandFailed(
                decode_or(output.stderr, "unable to decode mkfs stderr"),
            ),
        )
    }
}

/// The number of bytes from the start of a device that show whether it holds
/// a file system.
pub const PROBE_LEN: usize = 2048;

/// Where the two bytes of the magic number of an ext2, ext3 or ext4 file
/// system stand.
pub const EXT_MAGIC_AT: usize = 0x438;

/// The first bytes of a device show an ext2, ext3 or ext4 file system: they
/// are all there, and the magic number stands in its place.
pub open spec fn shows_filesystem(prefix: Seq<u8>) -> bool {
    &&& prefix.len() >= PROBE_LEN
    &&& prefix[EXT_MAGIC_AT as int] == 0x53
    &&& prefix[EXT_MAGIC_AT + 1] == 0xEF
}

/// Whether the first bytes of a device show a file system. `prefix` holds
/// what one read of up to [`PROBE_LEN`] bytes from the start of the device
/// brought.
pub fn filesystem_exists(prefix: &[u8]) -> (r: bool)
    ensures
        r == shows_filesystem(prefix@),
{
    if prefix.len() < PROBE_LEN {
        false
    } else {
        prefix[EXT_MAGIC_AT] == 0x53 && prefix[EXT_MAGIC_AT + 1] == 0xEF
    }
}

} // verus!
