use balena_migrate::balena_config::ImageType;
use balena_migrate::config::{CliOptions, Config};
use balena_migrate::error::MigErrorKind;
use balena_migrate::migrate_config::MigMode;

fn doc_with(migrate_body: &str) -> Config {
    let mut text = String::from("migrate:\n");
    text.push_str(migrate_body);
    Config::from_string(&text).unwrap()
}

#[test]
fn mode_missing_without_override_fails() {
    // The document sets no mode; no command-line override: the mode
    // resolves to Invalid, which is a terminal validation failure.
    let base = doc_with("  work_dir: /tmp/w\n");
    let cli = CliOptions::none();
    let err = Config::resolve(&cli, base, None).unwrap_err();
    assert_eq!(err.kind(), MigErrorKind::InvParam);
}

#[test]
fn mode_missing_with_override_succeeds() {
    let base = doc_with("  work_dir: /tmp/w\n");
    let mut cli = CliOptions::none();
    cli.mode = Some(String::from("agent"));
    let resolved = Config::resolve(&cli, base, None).unwrap();
    assert_eq!(resolved.migrate.get_mig_mode(), &MigMode::Agent);
}

#[test]
fn mode_from_document_kept_without_override() {
    let base = doc_with("  work_dir: /tmp/w\n  mode: pretend\n");
    let cli = CliOptions::none();
    let resolved = Config::resolve(&cli, base, None).unwrap();
    assert_eq!(resolved.migrate.get_mig_mode(), &MigMode::Pretend);
}

#[test]
fn cli_mode_overrides_document_mode() {
    let base = doc_with("  work_dir: /tmp/w\n  mode: agent\n");
    let mut cli = CliOptions::none();
    cli.mode = Some(String::from("pretend"));
    let resolved = Config::resolve(&cli, base, None).unwrap();
    assert_eq!(resolved.migrate.get_mig_mode(), &MigMode::Pretend);
}

#[test]
fn unparseable_cli_mode_is_fatal() {
    let base = doc_with("  work_dir: /tmp/w\n  mode: agent\n");
    let mut cli = CliOptions::none();
    cli.mode = Some(String::from("sideways"));
    let err = Config::resolve(&cli, base, None).unwrap_err();
    assert_eq!(err.kind(), MigErrorKind::InvParam);
}

#[test]
fn invalid_mode_string_in_document_is_fatal() {
    let err = Config::from_string("migrate:\n  mode: extract-all\n").unwrap_err();
    assert_eq!(err.kind(), MigErrorKind::InvParam);
}

#[test]
fn work_dir_cli_beats_document() {
    let base = doc_with("  work_dir: /from/doc\n  mode: agent\n");
    let mut cli = CliOptions::none();
    cli.work_dir = Some(String::from("/from/cli"));
    let resolved = Config::resolve(&cli, base, Some(String::from("/doc/dir"))).unwrap();
    assert_eq!(resolved.migrate.get_work_dir(), "/from/cli");
}

#[test]
fn work_dir_document_beats_document_dir() {
    let base = doc_with("  work_dir: /from/doc\n  mode: agent\n");
    let cli = CliOptions::none();
    let resolved = Config::resolve(&cli, base, Some(String::from("/doc/dir"))).unwrap();
    assert_eq!(resolved.migrate.get_work_dir(), "/from/doc");
}

#[test]
fn work_dir_falls_back_to_document_dir() {
    let base = doc_with("  mode: agent\n");
    let cli = CliOptions::none();
    let resolved = Config::resolve(&cli, base, Some(String::from("/doc/dir"))).unwrap();
    assert_eq!(resolved.migrate.get_work_dir(), "/doc/dir");
}

#[test]
fn no_work_dir_anywhere_is_a_displayed_failure() {
    let base = doc_with("  mode: agent\n");
    let cli = CliOptions::none();
    let err = Config::resolve(&cli, base, None).unwrap_err();
    assert_eq!(err.kind(), MigErrorKind::Displayed);
}

#[test]
fn defaults_with_flags_resolve_to_pretend() {
    // No configuration document found anywhere: the defaults, overridden
    // by the work-dir and mode flags, resolve successfully.
    let mut cli = CliOptions::none();
    cli.work_dir = Some(String::from("/tmp/mig"));
    cli.mode = Some(String::from("pretend"));
    let resolved = Config::resolve(&cli, Config::default(), None).unwrap();
    assert_eq!(resolved.migrate.get_mig_mode(), &MigMode::Pretend);
    assert_eq!(resolved.migrate.get_work_dir(), "/tmp/mig");
    // The kernel and initramfs references are still the empty defaults:
    // artifact presence is enforced by artifact validation, which will
    // find nothing under these references.
    assert_eq!(resolved.migrate.get_kernel_path().path, "");
    assert_eq!(resolved.migrate.get_initrd_path().path, "");
}

#[test]
fn immediate_mode_requires_image_and_config() {
    let base = doc_with("  work_dir: /tmp/w\n  mode: immediate\n");
    let cli = CliOptions::none();
    let err = Config::resolve(&cli, base, None).unwrap_err();
    assert_eq!(err.kind(), MigErrorKind::InvParam);
}

#[test]
fn cli_image_becomes_flasher_reference() {
    let base = doc_with("  work_dir: /tmp/w\n  mode: agent\n");
    let mut cli = CliOptions::none();
    cli.image = Some(String::from("balena.img.gz"));
    let resolved = Config::resolve(&cli, base, None).unwrap();
    match resolved.balena.get_image_path() {
        Some(ImageType::Flasher(f)) => {
            assert_eq!(f.path, "balena.img.gz");
            assert!(f.hash.is_none());
        },
        _ => panic!("expected a flasher image reference"),
    }
}

#[test]
fn agent_mode_needs_no_image() {
    let base = doc_with("  work_dir: /tmp/w\n  mode: agent\n");
    let cli = CliOptions::none();
    assert!(Config::resolve(&cli, base, None).is_ok());
}
