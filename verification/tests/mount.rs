use typed_fuse::mount::{build_mount_options, mount_plan};
use typed_fuse::{MountConfig, MountOption, ThreadPoolConfig, ThreadingMode};

#[test]
fn preserves_mount_policy_and_passthrough_options() {
    let mut config = MountConfig {
        fs_name: "encfs-test".to_string(),
        allow_other: true,
        allow_root: true,
        default_permissions: true,
        read_only: true,
        nonempty: true,
        volname: Some("Encrypted Files".to_string()),
        extra_options: Vec::new(),
    };
    config.parse_option_words(&["noatime"]);

    let options = build_mount_options(&config);
    assert!(options.contains(&MountOption::FsName("encfs-test".to_string())));
    assert!(options.contains(&MountOption::AllowOther));
    assert!(options.contains(&MountOption::AllowRoot));
    assert!(options.contains(&MountOption::DefaultPermissions));
    assert!(options.contains(&MountOption::ReadOnly));
    assert!(options.contains(&MountOption::NonEmpty));
    assert!(options.contains(&MountOption::VolName("Encrypted Files".to_string())));
    assert!(options.contains(&MountOption::Custom("noatime".to_string())));
    assert!(!options.iter().any(|option| matches!(
        option,
        MountOption::Custom(value) if value.starts_with("uid=") || value.starts_with("gid=")
    )));
}

#[test]
fn parse_option_words_recognizes_known_words_and_passes_through_others() {
    let mut config = MountConfig::new("fs");
    config.parse_option_words(&["allow_other", "allow_root", "nonempty", "ro", "noatime"]);
    assert!(config.allow_other);
    assert!(config.allow_root);
    assert!(config.nonempty);
    assert!(config.read_only);
    assert_eq!(config.extra_options, vec!["noatime".to_string()]);
}

#[test]
fn default_config_renders_name_and_default_permissions() {
    let config = MountConfig::new("fs");
    assert_eq!(
        build_mount_options(&config),
        vec![
            MountOption::FsName("fs".to_string()),
            MountOption::DefaultPermissions,
        ]
    );
}

#[test]
fn option_words_keep_their_order_and_repetitions() {
    let mut config = MountConfig::new("fs");
    config.default_permissions = false;
    config.parse_option_words(&["b", "ro", "a", "b", "ro ", "default_permissions"]);
    assert!(config.default_permissions);
    assert_eq!(
        build_mount_options(&config),
        vec![
            MountOption::FsName("fs".to_string()),
            MountOption::DefaultPermissions,
            MountOption::ReadOnly,
            MountOption::Custom("b".to_string()),
            MountOption::Custom("a".to_string()),
            MountOption::Custom("b".to_string()),
            MountOption::Custom("ro ".to_string()),
        ]
    );
}

#[test]
fn mount_plan_selects_the_dispatch() {
    let config = MountConfig::new("fs");
    let (options, session) = mount_plan(&config, true);
    assert_eq!(options, build_mount_options(&config));
    assert_eq!(session.threading, ThreadingMode::SingleThreaded);
    let (_, session) = mount_plan(&config, false);
    assert_eq!(
        session.threading,
        ThreadingMode::MultiThreaded(ThreadPoolConfig {
            max_threads: 10,
            idle_threads: None,
            clone_fd: false,
        })
    );
}
