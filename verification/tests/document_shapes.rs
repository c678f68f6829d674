use balena_migrate::balena_config::ImageType;
use balena_migrate::config::Config;
use balena_migrate::debug_config::DebugConfig;
use balena_migrate::config::{canonical_cli_work_dir, CliOptions};
use balena_migrate::error::MigErrorKind;
use balena_migrate::file_info::FileInfo;
use balena_migrate::migrate_config::MigrateWifis;

#[test]
fn wrong_shape_for_a_key_is_an_invalid_parameter() {
    let err = Config::from_string("migrate:\n  reboot: soon\n").unwrap_err();
    assert_eq!(err.kind(), MigErrorKind::InvParam);
    assert!(err.remark().contains("reboot"));

    let err = Config::from_string("migrate:\n  all_wifis: 3\n").unwrap_err();
    assert_eq!(err.kind(), MigErrorKind::InvParam);

    let err = Config::from_string("migrate:\n  wifis: notalist\n").unwrap_err();
    assert_eq!(err.kind(), MigErrorKind::InvParam);

    let err = Config::from_string("balena:\n  api:\n    port: 70000\n").unwrap_err();
    assert_eq!(err.kind(), MigErrorKind::InvParam);

    let err = Config::from_string("migrate: [1, 2\n").unwrap_err();
    assert_eq!(err.kind(), MigErrorKind::Upstream);
}

#[test]
fn zero_reboot_means_no_auto_reboot() {
    let config = Config::from_string("migrate:\n  reboot: 0\n").unwrap();
    assert_eq!(config.migrate.get_reboot(), &None);
    let config = Config::from_string("migrate:\n  reboot: 5\n").unwrap();
    assert_eq!(config.migrate.get_reboot(), &Some(5));
}

#[test]
fn all_wifis_wins_over_the_list() {
    let config = Config::from_string("migrate:\n  all_wifis: true\n  wifis:\n    - a\n").unwrap();
    assert_eq!(config.migrate.get_wifis(), MigrateWifis::All);
}

#[test]
fn absent_log_target_defaults() {
    let config = Config::from_string("migrate:\n  mode: agent\n").unwrap();
    assert_eq!(config.migrate.get_log_console(), false);
    assert_eq!(config.migrate.get_log_device(), None);
    assert_eq!(config.migrate.get_log_level(), "warn");
    assert_eq!(config.migrate.get_force_slug(), None);
    assert_eq!(config.balena.get_app_name(), None);
}

#[test]
fn debug_tree_reads_its_flags() {
    let config = Config::from_string(
        "debug:\n  no_flash: true\n  force_flash_device: /dev/sdb\n",
    )
    .unwrap();
    assert!(config.debug.is_no_flash());
    assert_eq!(config.debug.get_force_flash_device(), Some("/dev/sdb"));
    let fresh = DebugConfig::default();
    assert!(!fresh.is_no_flash());
    assert_eq!(fresh.get_force_flash_device(), None);
}

#[test]
fn plain_string_image_is_a_flasher_path() {
    let config = Config::from_string("balena:\n  image: plain.img.gz\n").unwrap();
    match config.balena.get_image_path() {
        Some(ImageType::Flasher(f)) => {
            assert_eq!(f.path, "plain.img.gz");
            assert!(f.hash.is_none());
        },
        _ => panic!("expected a flasher image reference"),
    }
}

#[test]
fn filesystem_image_reads_its_device_slug() {
    let config = Config::from_string(
        "balena:\n  image:\n    fs:\n      device_slug: beaglebone-black\n",
    )
    .unwrap();
    match config.balena.get_image_path() {
        Some(ImageType::FileSystems(fs)) => {
            assert_eq!(fs.device_slug.as_deref(), Some("beaglebone-black"));
        },
        _ => panic!("expected a filesystem image reference"),
    }
}

#[test]
fn work_dir_canonicalizes_through_the_filesystem() {
    let mut cli = CliOptions::none();
    cli.work_dir = Some(String::from("/usr/.."));
    let canonical = canonical_cli_work_dir(cli).unwrap();
    assert_eq!(canonical.work_dir.as_deref(), Some("/"));

    let mut missing = CliOptions::none();
    missing.work_dir = Some(String::from("/no/such/path/anywhere"));
    let err = canonical_cli_work_dir(missing).unwrap_err();
    assert_eq!(err.kind(), MigErrorKind::Upstream);

    assert!(canonical_cli_work_dir(CliOptions::none()).unwrap().work_dir.is_none());
}

#[test]
fn locating_an_artifact_resolves_and_stats_it() {
    // A path that exists as given is canonicalized and statted.
    let info = FileInfo::new("/dev/null", "/somewhere").unwrap().unwrap();
    assert_eq!(info.path, "/dev/null");
    assert_eq!(info.size, 0);
    // A relative name that exists nowhere is absent — a valid outcome.
    assert!(FileInfo::new("no-such-artifact.img", "/no/such/dir").unwrap().is_none());
}
