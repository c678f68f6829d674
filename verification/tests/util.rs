use balena_migrate::error::{MigError, MigErrorKind};
use balena_migrate::cmd::{
    command_exists, exec_command, optional_cmds, required_cmds, whereis, CmdEntry, CmdRes,
    CmdStatus, CmdTable,
};
use balena_migrate::common::{format_size_with_unit, OSArch};
use balena_migrate::fsutil::{dir_exists, file_exists, path_append, path_parent};
use balena_migrate::migrate_config::{FailMode, MigMode, MigrateConfig};
use balena_migrate::strutil::{str_strip_prefix_all, str_strip_suffix_all, str_trim, u64_to_dec};
use balena_migrate::volume::{device_handle, DriveType, Volume, VolumeRow};

fn ok_res(stdout: &str) -> CmdRes {
    CmdRes {
        stdout: String::from(stdout),
        stderr: String::new(),
        status: CmdStatus { success: true, code: Some(0) },
    }
}

#[test]
fn error_constructors_carry_kind_and_remark() {
    let e = MigError::from_remark(MigErrorKind::Upstream, "wrapped failure");
    assert_eq!(e.kind(), MigErrorKind::Upstream);
    assert_eq!(e.remark(), "wrapped failure");
    let e = MigError::from_remark(MigErrorKind::InvState, "no socket address resolved");
    assert_eq!(e.kind(), MigErrorKind::InvState);
    let e = MigError::from_kind(MigErrorKind::NotImpl);
    assert_eq!(e.kind(), MigErrorKind::NotImpl);
    assert_eq!(e.remark(), "");
    let e = MigError::displayed();
    assert_eq!(e.kind(), MigErrorKind::Displayed);
}

#[test]
fn size_formatting_picks_binary_units() {
    assert_eq!(format_size_with_unit(0), "0 B");
    assert_eq!(format_size_with_unit(10240), "10240 B");
    assert_eq!(format_size_with_unit(10241), "10 KiB");
    assert_eq!(format_size_with_unit(20 * 1048576), "20 MiB");
    assert_eq!(format_size_with_unit(64 * 1073741824), "64 GiB");
    assert_eq!(u64_to_dec(18446744073709551615), "18446744073709551615");
}

#[test]
fn trimming_strips_surrounding_whitespace_only() {
    assert_eq!(str_trim("  /usr/bin/file \n"), "/usr/bin/file");
    assert_eq!(str_trim("\t\r\n "), "");
    assert_eq!(str_trim("a b"), "a b");
    assert_eq!(str_trim(""), "");
}

#[test]
fn os_arch_names() {
    assert_eq!(OSArch::AMD64.as_str(), "AMD64");
    assert_eq!(OSArch::ARMHF.as_str(), "ARMHF");
    assert_eq!(OSArch::I386.as_str(), "I386");
}

#[test]
fn mode_names_parse_case_insensitively() {
    assert_eq!(MigMode::from_str("immediate").unwrap(), MigMode::Immediate);
    assert_eq!(MigMode::from_str("IMMEDIATE").unwrap(), MigMode::Immediate);
    assert_eq!(MigMode::from_str("Agent").unwrap(), MigMode::Agent);
    assert_eq!(MigMode::from_str("pretend").unwrap(), MigMode::Pretend);
    let err = MigMode::from_str("extract-all").unwrap_err();
    assert_eq!(err.kind(), MigErrorKind::InvParam);
}

#[test]
fn fail_mode_names_parse_exactly() {
    assert_eq!(FailMode::from_str("Reboot").unwrap(), FailMode::Reboot);
    assert_eq!(FailMode::from_str("RescueShell").unwrap(), FailMode::RescueShell);
    assert!(FailMode::from_str("reboot").is_err());
}

#[test]
fn default_migrate_config_is_invalid_until_resolved() {
    let cfg = MigrateConfig::default();
    assert_eq!(cfg.get_mig_mode(), &MigMode::Invalid);
    assert!(!cfg.has_work_dir());
    assert!(cfg.check().is_err());
}

#[test]
fn whereis_takes_the_second_word() {
    let res = ok_res("file: /usr/bin/file /usr/share/man/man1/file.1.gz");
    assert_eq!(whereis("file", &res).unwrap(), "/usr/bin/file");

    // Only the command name came back: the command was not found.
    let res = ok_res("mokutil:");
    let err = whereis("mokutil", &res).unwrap_err();
    assert_eq!(err.kind(), MigErrorKind::NotFound);

    let res = ok_res("");
    let err = whereis("file", &res).unwrap_err();
    assert_eq!(err.kind(), MigErrorKind::InvParam);

    let failed = CmdRes {
        stdout: String::new(),
        stderr: String::from("boom"),
        status: CmdStatus { success: false, code: Some(2) },
    };
    let err = whereis("file", &failed).unwrap_err();
    assert_eq!(err.kind(), MigErrorKind::ExecProcess);
}

#[test]
fn command_table_distinguishes_unknown_and_absent() {
    let entries = vec![
        CmdEntry { name: String::from("file"), path: Some(String::from("/usr/bin/file")) },
        CmdEntry { name: String::from("mokutil"), path: None },
    ];
    let table = CmdTable::new(entries);
    assert_eq!(table.lookup("file").unwrap(), "/usr/bin/file");
    // Listed but absent: unavailable.
    assert_eq!(table.lookup("mokutil").unwrap_err().kind(), MigErrorKind::NotFound);
    // Not in the table at all: an invalid parameter.
    assert_eq!(table.lookup("dd").unwrap_err().kind(), MigErrorKind::InvParam);
    assert_eq!(required_cmds().len(), 5);
    assert_eq!(optional_cmds().len(), 2);
}

#[test]
fn lookup_answers_from_the_first_listing() {
    let entries = vec![
        CmdEntry { name: String::from("file"), path: None },
        CmdEntry { name: String::from("file"), path: Some(String::from("/usr/bin/file")) },
    ];
    let table = CmdTable::new(entries);
    // The first listing wins, even when a later one has a path.
    assert_eq!(table.lookup("file").unwrap_err().kind(), MigErrorKind::NotFound);
}

#[test]
fn unimplemented_command_helpers_say_so() {
    assert_eq!(command_exists("file").unwrap_err().kind(), MigErrorKind::NotImpl);
    assert_eq!(exec_command("file -bz x").unwrap_err().kind(), MigErrorKind::NotImpl);
}

#[test]
fn path_helpers_follow_unix_conventions() {
    assert_eq!(path_append("/work", "disk.img.gz"), "/work/disk.img.gz");
    assert_eq!(path_append("/work/", "disk.img.gz"), "/work/disk.img.gz");
    assert_eq!(path_append("/work", "/abs/path"), "/abs/path");
    assert_eq!(path_parent("/work/config.yml"), "/work");
    assert_eq!(path_parent("/config.yml"), "/");
    assert_eq!(path_parent("config.yml"), "");
}

#[test]
fn existence_checks_answer_the_filesystem() {
    assert!(file_exists("/"));
    assert!(dir_exists("/").unwrap());
    assert!(!file_exists("/no/such/path/anywhere"));
    assert!(!dir_exists("/no/such/path/anywhere").unwrap());
}

#[test]
fn drive_types_decode_from_codes() {
    assert_eq!(DriveType::from_u32(0), DriveType::Unknown);
    assert_eq!(DriveType::from_u32(2), DriveType::RemovableDisk);
    assert_eq!(DriveType::from_u32(3), DriveType::LocalDisk);
    assert_eq!(DriveType::from_u32(6), DriveType::RamDisk);
    assert_eq!(DriveType::from_u32(99), DriveType::Unknown);
}

fn sample_row(name: &str, boot: bool, system: bool) -> VolumeRow {
    VolumeRow {
        name: String::from(name),
        device_id: String::from("\\\\?\\Volume{523d4064-b421-4b2e-ba0e-320263dcbd27}\\"),
        label: String::new(),
        drive_letter: String::from("C:"),
        file_system: String::from("NTFS"),
        device: String::from("\\Device\\HarddiskVolume1"),
        boot_volume: boot,
        system_volume: system,
        page_file_present: false,
        block_size: 4096,
        capacity: 99614720,
        free_space: 36080640,
        max_filename_length: 255,
        drive_type: 3,
    }
}

#[test]
fn volume_queries_build_and_filter_rows() {
    let rows = vec![
        sample_row("vol0", false, true),
        sample_row("vol1", true, false),
        sample_row("vol2", false, false),
    ];
    let all = Volume::query_all(rows.clone());
    assert_eq!(all.len(), 3);
    assert_eq!(all[0].get_name(), "vol0");
    assert_eq!(all[0].drive_type, DriveType::LocalDisk);
    assert!(all[0].is_system());
    assert!(!all[0].is_boot());
    assert_eq!(all[1].get_drive_letter(), "C:");
    assert_eq!(all[1].get_device(), "\\Device\\HarddiskVolume1");
    assert_eq!(
        all[2].get_device_id(),
        "\\\\?\\Volume{523d4064-b421-4b2e-ba0e-320263dcbd27}\\"
    );

    let system = Volume::query_system_volumes(rows.clone());
    assert_eq!(system.len(), 1);
    assert_eq!(system[0].get_name(), "vol0");

    let boot = Volume::query_boot_volumes(rows);
    assert_eq!(boot.len(), 1);
    assert_eq!(boot[0].get_name(), "vol1");
}

#[test]
fn device_handle_strips_markers() {
    assert_eq!(
        device_handle("\\\\?\\Volume{523d4064-b421-4b2e-ba0e-320263dcbd27}\\"),
        "Volume{523d4064-b421-4b2e-ba0e-320263dcbd27}"
    );
    assert_eq!(device_handle("plain"), "plain");
    assert_eq!(str_strip_prefix_all("ababx", "ab"), "x");
    assert_eq!(str_strip_suffix_all("xfoofoo", "foo"), "x");
}
