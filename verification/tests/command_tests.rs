use ebs_bootstrap::command::{CommandLine, CommandOutput};
use ebs_bootstrap::config::{default_file_system, default_mount, FileSystem, Mount};
use ebs_bootstrap::mkfs::{
    filesystem_exists, mkfs_command, mkfs_outcome, MakeFilesystemError, EXT_MAGIC_AT, PROBE_LEN,
};
use ebs_bootstrap::mount::{mount_command, mount_outcome, MountError};
use ebs_bootstrap::text::{blank, decode_or, split_words};

fn strings(words: &[&str]) -> Vec<String> {
    words.iter().map(|word| String::from(*word)).collect()
}

#[test]
fn words_are_the_runs_between_blanks() {
    assert_eq!(split_words("-t ext4 -m 0"), strings(&["-t", "ext4", "-m", "0"]));
    assert_eq!(split_words(""), Vec::<String>::new());
    assert_eq!(split_words("   "), Vec::<String>::new());
    assert_eq!(split_words("one"), strings(&["one"]));
    assert_eq!(split_words("  one"), strings(&["one"]));
    assert_eq!(split_words("one  "), strings(&["one"]));
    assert_eq!(split_words(" a\tb\nc\r\nd\u{c}e  f "), strings(&["a", "b", "c", "d", "e", "f"]));
    assert_eq!(split_words("-L größe -m 0"), strings(&["-L", "größe", "-m", "0"]));
    // Only the five blank characters separate words.
    assert_eq!(split_words("a\u{a0}b"), strings(&["a\u{a0}b"]));
}

#[test]
fn blank_characters() {
    for c in [' ', '\t', '\n', '\u{c}', '\r'] {
        assert!(blank(c));
    }
    for c in ['a', '-', '0', '\u{b}', '\u{a0}', '\0'] {
        assert!(!blank(c));
    }
}

#[test]
fn the_mkfs_command_takes_the_options_word_by_word_and_the_device_last() {
    let command = mkfs_command(&default_file_system(), "/dev/xvdh");
    assert_eq!(
        command,
        CommandLine {
            program: String::from("/sbin/mkfs"),
            args: strings(&["-t", "ext4", "-m", "0", "/dev/xvdh"]),
        }
    );
    let command = mkfs_command(&FileSystem { mkfs: String::from("-t ext4 -m 5") }, "/dev/sdf");
    assert_eq!(command.args, strings(&["-t", "ext4", "-m", "5", "/dev/sdf"]));
    let command = mkfs_command(&FileSystem { mkfs: String::new() }, "/dev/sdf");
    assert_eq!(command.args, strings(&["/dev/sdf"]));
}

#[test]
fn the_mount_command_takes_the_device_and_the_target() {
    let command = mount_command(&default_mount(), "/dev/xvdh");
    assert_eq!(
        command,
        CommandLine { program: String::from("/bin/mount"), args: strings(&["/dev/xvdh", "/mnt"]) }
    );
    let command = mount_command(&Mount { target: String::from("/mnt/test dir") }, "/dev/sdf");
    assert_eq!(command.args, strings(&["/dev/sdf", "/mnt/test dir"]));
}

#[test]
fn a_command_that_succeeds_gives_no_error() {
    assert!(mount_outcome(CommandOutput { success: true, stderr: vec![] }).is_ok());
    assert!(mount_outcome(CommandOutput { success: true, stderr: b"warning".to_vec() }).is_ok());
    assert!(mkfs_outcome(CommandOutput { success: true, stderr: vec![] }).is_ok());
    assert!(mkfs_outcome(CommandOutput { success: true, stderr: vec![0xff] }).is_ok());
}

#[test]
fn a_command_that_fails_gives_its_error_stream() {
    match mount_outcome(CommandOutput { success: false, stderr: b"mount: no such device".to_vec() }) {
        Err(MountError::ExternalCommandFailed(text)) => assert_eq!(text, "mount: no such device"),
        other => panic!("unexpected result: {:?}", other),
    }
    match mkfs_outcome(CommandOutput { success: false, stderr: "mkfs: größe".as_bytes().to_vec() }) {
        Err(MakeFilesystemError::ExternalCommandFailed(text)) => assert_eq!(text, "mkfs: größe"),
        other => panic!("unexpected result: {:?}", other),
    }
    match mkfs_outcome(CommandOutput { success: false, stderr: vec![] }) {
        Err(MakeFilesystemError::ExternalCommandFailed(text)) => assert_eq!(text, ""),
        other => panic!("unexpected result: {:?}", other),
    }
}

#[test]
fn an_error_stream_that_is_no_text_gives_a_fixed_phrase() {
    match mount_outcome(CommandOutput { success: false, stderr: vec![b'a', 0xff, b'b'] }) {
        Err(MountError::ExternalCommandFailed(text)) => {
            assert_eq!(text, "unable to decode mount stderr")
        }
        other => panic!("unexpected result: {:?}", other),
    }
    match mkfs_outcome(CommandOutput { success: false, stderr: vec![0xc3] }) {
        Err(MakeFilesystemError::ExternalCommandFailed(text)) => {
            assert_eq!(text, "unable to decode mkfs stderr")
        }
        other => panic!("unexpected result: {:?}", other),
    }
}

#[test]
fn decode_or_reads_text_or_falls_back() {
    assert_eq!(decode_or(vec![0xe2, 0x98, 0x83], "none"), "☃");
    assert_eq!(decode_or(vec![0xe2, 0x98], "none"), "none");
    // An overlong encoding and a surrogate are no text.
    assert_eq!(decode_or(vec![0xc0, 0x80], "none"), "none");
    assert_eq!(decode_or(vec![0xed, 0xa0, 0x80], "none"), "none");
}

#[test]
fn a_spawn_failure_converts_into_the_error_of_each_step() {
    let err = MountError::from(std::io::Error::new(std::io::ErrorKind::NotFound, "no mount"));
    assert!(matches!(err, MountError::SpawnFailed(_)));
    let err =
        MakeFilesystemError::from(std::io::Error::new(std::io::ErrorKind::NotFound, "no mkfs"));
    assert!(matches!(err, MakeFilesystemError::SpawnFailed(_)));
}

#[test]
fn the_magic_number_shows_a_file_system() {
    assert_eq!(PROBE_LEN, 2048);
    assert_eq!(EXT_MAGIC_AT, 0x438);
    let mut prefix = vec![0u8; 2048];
    assert!(!filesystem_exists(&prefix));
    prefix[0x438] = 0x53;
    assert!(!filesystem_exists(&prefix));
    prefix[0x439] = 0xEF;
    assert!(filesystem_exists(&prefix));
    prefix[0x438] = 0xEF;
    prefix[0x439] = 0x53;
    assert!(!filesystem_exists(&prefix));
}

#[test]
fn a_short_read_shows_no_file_system() {
    let mut prefix = vec![0u8; 2047];
    prefix[0x438] = 0x53;
    prefix[0x439] = 0xEF;
    assert!(!filesystem_exists(&prefix));
    assert!(!filesystem_exists(&prefix[..0x43a]));
    assert!(!filesystem_exists(&[]));
    prefix.push(0);
    assert!(filesystem_exists(&prefix));
    prefix.push(0);
    assert!(filesystem_exists(&prefix));
}
