//! The configuration schema and its validation rules.

use crate::tags::{TagMap, TagModel};
use crate::text::text_eq;
use vstd::prelude::*;
use vstd::string::*;

verus! {

/// `serde_yaml::Error`, the error with which the YAML reader rejects a
/// document. Nothing is known of what a value of it holds.
#[verifier::external_type_specification]
#[verifier::external_body]
pub struct ExYamlError(serde_yaml::Error);

/// `std::io::Error`, the error with which the operating system refuses to
/// read a file or to start a command. Nothing is known of what a value of it
/// holds.
#[verifier::external_type_specification]
#[verifier::external_body]
pub struct ExIoError(std::io::Error);

/// The whole configuration.
#[derive(Debug)]
pub struct Config {
    pub block_provider: BlockProvider,
    pub file_system: FileSystem,
    pub mount: Mount,
}

/// Where the block device comes from.
#[derive(Debug)]
pub enum BlockProvider {
    AwsEbs(EbsBlockProviderConfig),
    ReservedForFuture,
}

/// The volume wanted: its class, its size, and the tags by which volumes of
/// this deployment are created and found again.
#[derive(Debug)]
pub struct EbsBlockProviderConfig {
    pub volume_type: String,
    pub size: i32,
    pub ebs_tags: TagMap,
}

impl Clone for EbsBlockProviderConfig {
    fn clone(&self) -> (r: EbsBlockProviderConfig)
        ensures
            r@ == self@,
    {
        EbsBlockProviderConfig {
            volume_type: self.volume_type.clone(),
            size: self.size,
            ebs_tags: self.ebs_tags.clone(),
        }
    }
}

/// How the file system on the volume is made.
#[derive(Debug)]
pub struct FileSystem {
    /// Options handed to the file-system maker, separated by white space.
    pub mkfs: String,
}

/// Where the volume is mounted.
#[derive(Debug)]
pub struct Mount {
    /// The directory the volume is mounted on.
    pub target: String,
}

/// What an [`EbsBlockProviderConfig`] stands for.
pub struct VolumeSpecModel {
    pub volume_type: Seq<char>,
    pub size: int,
    pub tags: Seq<TagModel>,
}

/// What a [`BlockProvider`] stands for.
pub enum BlockProviderModel {
    AwsEbs(VolumeSpecModel),
    ReservedForFuture,
}

/// What a [`Config`] stands for.
pub struct ConfigModel {
    pub block_provider: BlockProviderModel,
    pub mkfs: Seq<char>,
    pub target: Seq<char>,
}

impl DeepView for EbsBlockProviderConfig {
    type V = VolumeSpecModel;

    open spec fn deep_view(&self) -> VolumeSpecModel {
        VolumeSpecModel {
            volume_type: self.volume_type@,
            size: self.size as int,
            tags: self.ebs_tags@,
        }
    }
}

impl View for EbsBlockProviderConfig {
    type V = VolumeSpecModel;

    open spec fn view(&self) -> VolumeSpecModel {
        self.deep_view()
    }
}

impl DeepView for BlockProvider {
    type V = BlockProviderModel;

    open spec fn deep_view(&self) -> BlockProviderModel {
        match self {
            BlockProvider::AwsEbs(ebs) => BlockProviderModel::AwsEbs(ebs@),
            BlockProvider::ReservedForFuture => BlockProviderModel::ReservedForFuture,
        }
    }
}

impl View for BlockProvider {
    type V = BlockProviderModel;

    open spec fn view(&self) -> BlockProviderModel {
        self.deep_view()
    }
}

impl DeepView for Config {
    type V = ConfigModel;

    open spec fn deep_view(&self) -> ConfigModel {
        ConfigModel {
            block_provider: self.block_provider@,
            mkfs: self.file_system.mkfs@,
            target: self.mount.target@,
        }
    }
}

impl View for Config {
    type V = ConfigModel;

    open spec fn view(&self) -> ConfigModel {
        self.deep_view()
    }
}

/// Why a configuration cannot be used.
#[derive(Debug)]
pub enum ConfigError {
    YamlParseError(serde_yaml::Error),
    IoError(std::io::Error),
    InvalidBlockProviderAwsEbs(String),
    InvalidFileSystem(String),
    InvalidMount(String),
}

/// What a [`ConfigError`] stands for: the section at fault and the message.
/// Of a failure to read or parse, only that it happened.
pub enum ConfigErrorModel {
    YamlParseError,
    IoError,
    InvalidBlockProviderAwsEbs(Seq<char>),
    InvalidFileSystem(Seq<char>),
    InvalidMount(Seq<char>),
}

impl DeepView for ConfigError {
    type V = ConfigErrorModel;

    open spec fn deep_view(&self) -> ConfigErrorModel {
        match self {
            ConfigError::YamlParseError(_) => ConfigErrorModel::YamlParseError,
            ConfigError::IoError(_) => ConfigErrorModel::IoError,
            ConfigError::InvalidBlockProviderAwsEbs(msg) => ConfigErrorModel::InvalidBlockProviderAwsEbs(msg@),
            ConfigError::InvalidFileSystem(msg) => ConfigErrorModel::InvalidFileSystem(msg@),
            ConfigError::InvalidMount(msg) => ConfigErrorModel::InvalidMount(msg@),
        }
    }
}

impl View for ConfigError {
    type V = ConfigErrorModel;

    open spec fn view(&self) -> ConfigErrorModel {
        self.deep_view()
    }
}

/// What the YAML reader says of its error in one fixed phrase. Calls
/// `std::error::Error::description` on a `serde_yaml::Error`; nothing is
/// claimed of the text.
#[verifier::external_body]
#[allow(deprecated)]
fn yaml_error_description(err: &serde_yaml::Error) -> (r: &str) {
    std::error::Error::description(err)
}

/// What the operating system says of its error in one fixed phrase. Calls
/// `std::error::Error::description` on a `std::io::Error`; nothing is claimed
/// of the text.
#[verifier::external_body]
#[allow(deprecated)]
fn io_error_description(err: &std::io::Error) -> (r: &str) {
    std::error::Error::description(err)
}

impl ConfigError {
    /// The section of the configuration that is at fault, in words.
    pub fn description(&self) -> (r: &str)
        ensures
            self is InvalidBlockProviderAwsEbs ==> r@
                == "invalid configuration in block-provider aws-ebs"@,
            self is InvalidFileSystem ==> r@ == "invalid configuration in file-system"@,
            self is InvalidMount ==> r@ == "invalid configuration in mount"@,
    {
        match self {
            ConfigError::YamlParseError(err) => yaml_error_description(err),
            ConfigError::IoError(err) => io_error_description(err),
            ConfigError::InvalidBlockProviderAwsEbs(_) => {
                "invalid configuration in block-provider aws-ebs"
            },
            ConfigError::InvalidFileSystem(_) => "invalid configuration in file-system",
            ConfigError::InvalidMount(_) => "invalid configuration in mount",
        }
    }

    /// The message of the error: for an invalid section the message it was
    /// made with, for a failure to read or parse what the reader reports.
    pub fn to_string(&self) -> (r: String)
        ensures
            self matches ConfigError::YamlParseError(err)
                ==> vstd::string::to_string_from_display_ensures::<serde_yaml::Error>(err, r),
            self matches ConfigError::IoError(err)
                ==> vstd::string::to_string_from_display_ensures::<std::io::Error>(err, r),
            self matches ConfigError::InvalidBlockProviderAwsEbs(msg) ==> r@ == msg@,
            self matches ConfigError::InvalidFileSystem(msg) ==> r@ == msg@,
            self matches ConfigError::InvalidMount(msg) ==> r@ == msg@,
    {
        match self {
            ConfigError::YamlParseError(err) => err.to_string(),
            ConfigError::IoError(err) => err.to_string(),
            ConfigError::InvalidBlockProviderAwsEbs(msg) => msg.clone(),
            ConfigError::InvalidFileSystem(msg) => msg.clone(),
            ConfigError::InvalidMount(msg) => msg.clone(),
        }
    }
}

impl From<serde_yaml::Error> for ConfigError {
    fn from(err: serde_yaml::Error) -> (r: ConfigError) {
        ConfigError::YamlParseError(err)
    }
}

impl vstd::std_specs::convert::FromSpecImpl<serde_yaml::Error> for ConfigError {
    open spec fn obeys_from_spec() -> bool {
        true
    }

    open spec fn from_spec(err: serde_yaml::Error) -> ConfigError {
        ConfigError::YamlParseError(err)
    }
}

impl From<std::io::Error> for ConfigError {
    fn from(err: std::io::Error) -> (r: ConfigError) {
        ConfigError::IoError(err)
    }
}

impl vstd::std_specs::convert::FromSpecImpl<std::io::Error> for ConfigError {
    open spec fn obeys_from_spec() -> bool {
        true
    }

    open spec fn from_spec(err: std::io::Error) -> ConfigError {
        ConfigError::IoError(err)
    }
}

/// The volume type used when the configuration names none.
pub fn default_ebs_volume_type() -> (r: String)
    ensures
        r@ == "gp2"@,
{
    String::from_str("gp2")
}

/// The file-system section used when the configuration has none.
pub fn default_file_system() -> (r: FileSystem)
    ensures
        r.mkfs@ == "-t ext4 -m 0"@,
{
    FileSystem { mkfs: default_file_system_mkfs() }
}

/// The file-system options used when the configuration names none.
pub fn default_file_system_mkfs() -> (r: String)
    ensures
        r@ == "-t ext4 -m 0"@,
{
    String::from_str("-t ext4 -m 0")
}

/// The mount section used when the configuration has none.
pub fn default_mount() -> (r: Mount)
    ensures
        r.target@ == "/mnt"@,
{
    Mount { target: default_mount_target() }
}

/// The mount point used when the configuration names none.
pub fn default_mount_target() -> (r: String)
    ensures
        r@ == "/mnt"@,
{
    String::from_str("/mnt")
}

/// The volume classes that the provider offers.
pub open spec fn known_volume_type(volume_type: Seq<char>) -> bool {
    ||| volume_type == "gp2"@
    ||| volume_type == "io1"@
    ||| volume_type == "st1"@
    ||| volume_type == "sc1"@
}

/// What is wrong with a volume type, if anything.
pub open spec fn volume_type_fault(volume_type: Seq<char>) -> Option<ConfigErrorModel> {
    if known_volume_type(volume_type) {
        None
    } else {
        Some(
            ConfigErrorModel::InvalidBlockProviderAwsEbs(
                "invalid volume type, expected gp2, io1, st1, sc1: "@ + volume_type,
            ),
        )
    }
}

/// What is wrong with the description of a volume, if anything: the type is
/// looked at first, then the size, then the tags.
pub open spec fn volume_spec_fault(spec: VolumeSpecModel) -> Option<ConfigErrorModel> {
    if volume_type_fault(spec.volume_type) is Some {
        volume_type_fault(spec.volume_type)
    } else if spec.size < 0 {
        Some(ConfigErrorModel::InvalidBlockProviderAwsEbs("invalid volume size"@))
    } else if spec.tags.len() == 0 {
        Some(ConfigErrorModel::InvalidBlockProviderAwsEbs("at least one ebs tag is required"@))
    } else {
        None
    }
}

/// What is wrong with the file-system section, if anything.
pub open spec fn file_system_fault(mkfs: Seq<char>) -> Option<ConfigErrorModel> {
    if mkfs.len() == 0 {
        Some(ConfigErrorModel::InvalidFileSystem("required parameter mkfs"@))
    } else {
        None
    }
}

/// What is wrong with the mount section, if anything.
pub open spec fn mount_fault(target: Seq<char>) -> Option<ConfigErrorModel> {
    if target.len() == 0 {
        Some(ConfigErrorModel::InvalidMount("required parameter target"@))
    } else {
        None
    }
}

/// The first fault of a configuration, if it has any: the block provider is
/// looked at first, then the file system, then the mount.
pub open spec fn config_fault(config: ConfigModel) -> Option<ConfigErrorModel>
    recommends
        config.block_provider is AwsEbs,
{
    let spec = config.block_provider->AwsEbs_0;
    if volume_spec_fault(spec) is Some {
        volume_spec_fault(spec)
    } else if file_system_fault(config.mkfs) is Some {
        file_system_fault(config.mkfs)
    } else {
        mount_fault(config.target)
    }
}

/// Checks a configuration and returns its first fault, if it has any.
pub fn validate_config(config: &Config) -> (r: Option<ConfigError>)
    requires
        config.block_provider is AwsEbs,
    ensures
        r.deep_view() == config_fault(config@),
{
    match validate_block_provider(&config.block_provider) {
        Some(err) => Some(err),
        None => match validate_file_system(&config.file_system) {
            Some(err) => Some(err),
            None => validate_mount(&config.mount),
        },
    }
}

/// Checks the block provider section.
pub fn validate_block_provider(block_provider: &BlockProvider) -> (r: Option<ConfigError>)
    requires
        block_provider is AwsEbs,
    ensures
        r.deep_view() == volume_spec_fault(block_provider@->AwsEbs_0),
{
    match block_provider {
        BlockProvider::AwsEbs(ebs_block_provider_config) => {
            validate_block_provider_aws_ebs_config(ebs_block_provider_config)
        },
        BlockProvider::ReservedForFuture => None,
    }
}

/// Checks the description of a volume.
pub fn validate_block_provider_aws_ebs_config(config: &EbsBlockProviderConfig) -> (r: Option<
    ConfigError,
>)
    ensures
        r.deep_view() == volume_spec_fault(config@),
{
    match validate_block_provider_aws_ebs_volume_type(config.volume_type.as_str()) {
        Some(err) => Some(err),
        None => {
            if config.size < 0 {
                Some(
                    ConfigError::InvalidBlockProviderAwsEbs(String::from_str("invalid volume size")),
                )
            } else if config.ebs_tags.len() == 0 {
                Some(
                    ConfigError::InvalidBlockProviderAwsEbs(
                        String::from_str("at least one ebs tag is required"),
                    ),
                )
            } else {
                None
            }
        },
    }
}

/// Checks a volume type.
pub fn validate_block_provider_aws_ebs_volume_type(volume_type: &str) -> (r: Option<ConfigError>)
    ensures
        r.deep_view() == volume_type_fault(volume_type@),
{
    if text_eq(volume_type, "gp2") || text_eq(volume_type, "io1") || text_eq(volume_type, "st1")
        || text_eq(volume_type, "sc1") {
        None
    } else {
        let msg = String::from_str("invalid volume type, expected gp2, io1, st1, sc1: ").concat(
            volume_type,
        );
        Some(ConfigError::InvalidBlockProviderAwsEbs(msg))
    }
}

/// Checks the file-system section.
pub fn validate_file_system(config: &FileSystem) -> (r: Option<ConfigError>)
    ensures
        r.deep_view() == file_system_fault(config.mkfs@),
{
    if config.mkfs.as_str().is_empty() {
        Some(ConfigError::InvalidFileSystem(String::from_str("required parameter mkfs")))
    } else {
        None
    }
}

/// Checks the mount section.
pub fn validate_mount(config: &Mount) -> (r: Option<ConfigError>)
    ensures
        r.deep_view() == mount_fault(config.target@),
{
    if config.target.as_str().is_empty() {
        Some(ConfigError::InvalidMount(String::from_str("required parameter target")))
    } else {
        None
    }
}

} // verus!
