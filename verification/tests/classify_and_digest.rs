use balena_migrate::balena_config::ImageType;
use balena_migrate::cmd::{CmdRes, CmdStatus};
use balena_migrate::config::{CliOptions, Config};
use balena_migrate::digest::{check_digest, check_ref_digest};
use balena_migrate::error::MigErrorKind;
use balena_migrate::file_info::{is_type_match, FileInfo, FileType};
use balena_migrate::file_ref::HashInfo;

fn ok_res(stdout: &str) -> CmdRes {
    CmdRes {
        stdout: String::from(stdout),
        stderr: String::new(),
        status: CmdStatus { success: true, code: Some(0) },
    }
}

const ALL_KINDS: [FileType; 8] = [
    FileType::OSImage,
    FileType::KernelAMD64,
    FileType::KernelARMHF,
    FileType::KernelI386,
    FileType::InitRD,
    FileType::Json,
    FileType::Text,
    FileType::DTB,
];

#[test]
fn zero_byte_file_matches_no_kind() {
    // The type-identification utility prints an empty description for a
    // zero-byte file; that description matches no signature.
    for kind in ALL_KINDS.iter() {
        assert!(!is_type_match(kind, ""));
    }
}

#[test]
fn signatures_match_their_descriptions() {
    assert!(is_type_match(
        &FileType::OSImage,
        "DOS/MBR boot sector; partition 1 ... (gzip compressed data, was \"balena.img\")"
    ));
    assert!(is_type_match(
        &FileType::OSImage,
        "x86 boot sector (gzip compressed data, last modified ...)"
    ));
    assert!(!is_type_match(&FileType::OSImage, "DOS/MBR boot sector; partition 1"));
    assert!(is_type_match(
        &FileType::InitRD,
        "ASCII cpio archive (SVR4 with no CRC) (gzip compressed data)"
    ));
    assert!(is_type_match(&FileType::KernelAMD64, "Linux kernel x86 boot executable bzImage, version 4.15"));
    assert!(is_type_match(&FileType::KernelAMD64, "x86 boot sector"));
    assert!(is_type_match(&FileType::KernelARMHF, "Linux kernel ARM boot executable zImage (little-endian)"));
    assert!(!is_type_match(&FileType::KernelARMHF, "Linux kernel x86 boot executable bzImage"));
    assert!(is_type_match(&FileType::KernelI386, "Linux kernel i386 boot executable bzImage, version 4.4"));
    assert!(is_type_match(&FileType::Json, "ASCII text"));
    assert!(is_type_match(&FileType::Text, "ASCII text, with very long lines"));
    assert!(!is_type_match(&FileType::Json, "UTF-8 Unicode text"));
    assert!(is_type_match(&FileType::DTB, "Device Tree Blob version 17"));
    // The generic answer also matches: a known weak check.
    assert!(is_type_match(&FileType::DTB, "data"));
}

#[test]
fn is_type_judges_utility_output() {
    let info = FileInfo { path: String::from("/work/balena.img.gz"), size: 1024 };
    let res = ok_res("DOS/MBR boot sector (gzip compressed data)");
    assert_eq!(info.is_type(Some(&res), &FileType::OSImage).unwrap(), true);
    assert_eq!(info.is_type(Some(&res), &FileType::KernelARMHF).unwrap(), false);

    // A run that printed nothing is a hard error, distinct from "did
    // not match".
    let empty = ok_res("");
    let err = info.is_type(Some(&empty), &FileType::OSImage).unwrap_err();
    assert_eq!(err.kind(), MigErrorKind::InvParam);

    let failed = CmdRes {
        stdout: String::from("data"),
        stderr: String::from("file: cannot open"),
        status: CmdStatus { success: false, code: Some(1) },
    };
    let err = info.is_type(Some(&failed), &FileType::DTB).unwrap_err();
    assert_eq!(err.kind(), MigErrorKind::InvParam);

    // The platform without the utility must fail with "not
    // implemented", never silently succeed.
    let err = info.is_type(None, &FileType::OSImage).unwrap_err();
    assert_eq!(err.kind(), MigErrorKind::NotImpl);
    let err = info.expect_type(None, &FileType::OSImage).unwrap_err();
    assert_eq!(err.kind(), MigErrorKind::NotImpl);
}

#[test]
fn expect_type_names_kind_and_path() {
    let info = FileInfo { path: String::from("/work/notes.txt"), size: 9 };
    let res = ok_res("ASCII text");
    assert!(info.expect_type(Some(&res), &FileType::Text).is_ok());

    let err = info.expect_type(Some(&res), &FileType::OSImage).unwrap_err();
    assert_eq!(err.kind(), MigErrorKind::InvParam);
    assert!(err.remark().contains("balena OS image"));
    assert!(err.remark().contains("/work/notes.txt"));
}

#[test]
fn matching_digest_verifies() {
    // The flasher image artifact with a matching digest: verification
    // succeeds, case-insensitively.
    let expected = HashInfo::Md5(String::from("4834C4FFB3EE0CF0BE850242A693C9B6"));
    assert!(check_digest("disk.img.gz", &expected, "4834c4ffb3ee0cf0be850242a693c9b6").is_ok());
}

#[test]
fn absent_expected_digest_is_not_an_error() {
    assert!(check_ref_digest("disk.img.gz", &None, "whatever").is_ok());
    let expected = Some(HashInfo::Md5(String::from("00ff")));
    assert!(check_ref_digest("disk.img.gz", &expected, "00FF").is_ok());
    assert!(check_ref_digest("disk.img.gz", &expected, "00fe").is_err());
}

#[test]
fn flipped_digest_fails_naming_both_values() {
    // One hex character of the expected digest flipped: verification
    // fails and the error names both values.
    let expected = HashInfo::Md5(String::from("4834c4ffb3ee0cf0be850242a693c9b7"));
    let err = check_digest("disk.img.gz", &expected, "4834c4ffb3ee0cf0be850242a693c9b6")
        .unwrap_err();
    assert_eq!(err.kind(), MigErrorKind::InvParam);
    assert!(err.remark().contains("disk.img.gz"));
    assert!(err.remark().contains("md5"));
    assert!(err.remark().contains("4834c4ffb3ee0cf0be850242a693c9b7"));
    assert!(err.remark().contains("4834c4ffb3ee0cf0be850242a693c9b6"));
}

#[test]
fn end_to_end_immediate_with_matching_digest() {
    // A document configures immediate mode, a work dir, and a flasher
    // image with an expected digest; the artifact classifies as an OS
    // image and its computed digest matches: resolution and validation
    // succeed.
    let text = "migrate:\n  work_dir: ./work\n  mode: immediate\nbalena:\n  image:\n    dd:\n      path: disk.img.gz\n      hash:\n        md5: 4834c4ffb3ee0cf0be850242a693c9b6\n  config:\n    path: config.json\n";
    let base = Config::from_string(text).unwrap();
    let resolved = Config::resolve(&CliOptions::none(), base, None).unwrap();
    let image_ref = match resolved.balena.get_image_path() {
        Some(ImageType::Flasher(f)) => f.clone(),
        _ => panic!("expected a flasher image"),
    };
    let info = FileInfo { path: String::from("./work/disk.img.gz"), size: 4096 };
    let res = ok_res("DOS/MBR boot sector (gzip compressed data, was \"disk.img\")");
    assert!(info.expect_type(Some(&res), &FileType::OSImage).is_ok());
    let expected = image_ref.hash.unwrap();
    assert!(check_digest(&info.path, &expected, "4834c4ffb3ee0cf0be850242a693c9b6").is_ok());
}

#[test]
fn end_to_end_immediate_with_mismatched_digest() {
    // The same scenario, but the computed digest of the artifact does
    // not match the configured one: validation fails with a mismatch
    // error naming the artifact.
    let expected = HashInfo::Md5(String::from("4834c4ffb3ee0cf0be850242a693c9b6"));
    let err = check_digest("disk.img.gz", &expected, "ffffffffffffffffffffffffffffffff")
        .unwrap_err();
    assert_eq!(err.kind(), MigErrorKind::InvParam);
    assert!(err.remark().contains("disk.img.gz"));
}
