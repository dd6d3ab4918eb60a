use ebs_bootstrap::config::{
    default_ebs_volume_type, default_file_system, default_file_system_mkfs, default_mount,
    default_mount_target, validate_config, BlockProvider, Config, ConfigError,
    EbsBlockProviderConfig, FileSystem, Mount,
};
use ebs_bootstrap::tags::TagMap;

#[test]
fn validate_block_provider_aws_ebs_volume_type() {
    let config = Config {
        block_provider: BlockProvider::AwsEbs(EbsBlockProviderConfig {
            ebs_tags: TagMap::new(),
            size: 200,
            volume_type: String::from("grr-arg"),
        }),
        file_system: default_file_system(),
        mount: default_mount(),
    };
    let err = validate_config(&config).expect("expected config error");
    assert_eq!(
        "invalid configuration in block-provider aws-ebs",
        err.description()
    );
    assert_eq!(
        "invalid volume type, expected gp2, io1, st1, sc1: grr-arg",
        err.to_string()
    );
}

#[test]
fn validate_block_provider_aws_ebs_size() {
    let config = Config {
        block_provider: BlockProvider::AwsEbs(EbsBlockProviderConfig {
            ebs_tags: TagMap::new(),
            size: -100,
            volume_type: String::from("gp2"),
        }),
        file_system: default_file_system(),
        mount: default_mount(),
    };
    let err = validate_config(&config).expect("expected config error");
    assert_eq!(
        "invalid configuration in block-provider aws-ebs",
        err.description()
    );
    assert_eq!("invalid volume size", err.to_string());
}

#[test]
fn validate_block_provider_aws_ebs_tags() {
    let config = Config {
        block_provider: BlockProvider::AwsEbs(EbsBlockProviderConfig {
            ebs_tags: TagMap::new(),
            size: 200,
            volume_type: String::from("gp2"),
        }),
        file_system: default_file_system(),
        mount: default_mount(),
    };
    let err = validate_config(&config).expect("expected config error");
    assert_eq!(
        "invalid configuration in block-provider aws-ebs",
        err.description()
    );
    assert_eq!("at least one ebs tag is required", err.to_string());
}

#[test]
fn validate_file_system_mkfs() {
    let mut ebs_tags = TagMap::new();
    ebs_tags.insert(String::from("a"), String::from("b"));
    let config = Config {
        block_provider: BlockProvider::AwsEbs(EbsBlockProviderConfig {
            ebs_tags: ebs_tags,
            size: 200,
            volume_type: String::from("gp2"),
        }),
        file_system: FileSystem { mkfs: String::from("") },
        mount: default_mount(),
    };
    let err = validate_config(&config).expect("expected config error");
    assert_eq!("invalid configuration in file-system", err.description());
    assert_eq!("required parameter mkfs", err.to_string());
}

#[test]
fn validate_mount_target() {
    let mut ebs_tags = TagMap::new();
    ebs_tags.insert(String::from("a"), String::from("b"));
    let config = Config {
        block_provider: BlockProvider::AwsEbs(EbsBlockProviderConfig {
            ebs_tags: ebs_tags,
            size: 200,
            volume_type: String::from("gp2"),
        }),
        file_system: default_file_system(),
        mount: Mount { target: String::from("") },
    };
    let err = validate_config(&config).expect("expected config error");
    assert_eq!("invalid configuration in mount", err.description());
    assert_eq!("required parameter target", err.to_string());
}

#[test]
fn valid_configuration_has_no_fault() {
    let mut ebs_tags = TagMap::new();
    ebs_tags.insert(String::from("a"), String::from("b"));
    for volume_type in ["gp2", "io1", "st1", "sc1"] {
        let mut tags = TagMap::new();
        tags.insert(String::from("a"), String::from("b"));
        let config = Config {
            block_provider: BlockProvider::AwsEbs(EbsBlockProviderConfig {
                ebs_tags: tags,
                size: 0,
                volume_type: String::from(volume_type),
            }),
            file_system: default_file_system(),
            mount: default_mount(),
        };
        assert!(validate_config(&config).is_none());
    }
}

#[test]
fn volume_type_is_checked_before_size_and_tags() {
    let config = Config {
        block_provider: BlockProvider::AwsEbs(EbsBlockProviderConfig {
            ebs_tags: TagMap::new(),
            size: -1,
            volume_type: String::from("gp3"),
        }),
        file_system: FileSystem { mkfs: String::new() },
        mount: Mount { target: String::new() },
    };
    match validate_config(&config) {
        Some(ConfigError::InvalidBlockProviderAwsEbs(msg)) => {
            assert_eq!(msg, "invalid volume type, expected gp2, io1, st1, sc1: gp3")
        }
        other => panic!("unexpected result: {:?}", other),
    }
}

#[test]
fn defaults_have_their_documented_values() {
    assert_eq!(default_ebs_volume_type(), "gp2");
    assert_eq!(default_file_system_mkfs(), "-t ext4 -m 0");
    assert_eq!(default_file_system().mkfs, "-t ext4 -m 0");
    assert_eq!(default_mount_target(), "/mnt");
    assert_eq!(default_mount().target, "/mnt");
}

#[test]
fn io_and_yaml_errors_convert_into_config_errors() {
    let io = std::io::Error::new(std::io::ErrorKind::NotFound, "no such file");
    let err = ConfigError::from(io);
    assert!(matches!(err, ConfigError::IoError(_)));
    assert_eq!(err.to_string(), "no such file");
    let yaml = serde_yaml::from_str::<i32>("[").unwrap_err();
    let text = yaml.to_string();
    let err = ConfigError::from(yaml);
    assert!(matches!(err, ConfigError::YamlParseError(_)));
    assert_eq!(err.to_string(), text);
}
