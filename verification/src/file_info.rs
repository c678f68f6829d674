//! The artifact locator and classifier. Locating resolves a name against
//! the current directory or the work directory and stats it; classifying
//! matches the one-line description printed by the external
//! type-identification utility against the signature pattern of the
//! expected artifact kind. Running the utility happens outside this
//! crate; its captured output is interpreted and matched here.

use vstd::prelude::*;

use crate::cmd::CmdRes;
use crate::error::{MigError, MigErrorKind};
use crate::fsutil::{
    canonicalize, file_exists, file_size, path_append, path_is_absolute, spec_is_absolute,
    spec_path_append,
};
use crate::strutil::{
    contains_seq, has_prefix, has_suffix, lemma_contains_append, lemma_contains_extend,
    str_contains, str_has_prefix, str_has_suffix,
};

verus! {

/// The closed set of artifact roles the migration recognises.
#[derive(Clone, Copy, Debug, PartialEq, Eq, Structural)]
pub enum FileType {
    OSImage,
    KernelAMD64,
    KernelARMHF,
    KernelI386,
    InitRD,
    Json,
    Text,
    DTB,
}

/// The signature pattern of an artifact kind, applied to the utility's
/// description line. An OS image is a DOS/MBR or x86 boot sector,
/// gzip-compressed; an initramfs is an ASCII cpio archive,
/// gzip-compressed; the provisioning document and plain text are ASCII
/// text (a heuristic: JSON-ness is not verified here); kernels are the
/// matching boot executables; a device-tree blob is one, or the generic
/// answer "data" — a known weak check that also accepts many unrelated
/// binary files.
pub open spec fn spec_is_type_match(ftype: FileType, descr: Seq<char>) -> bool {
    match ftype {
        FileType::OSImage => (has_prefix(descr, "DOS/MBR boot sector"@) || has_prefix(
            descr,
            "x86 boot sector"@,
        )) && contains_seq(descr, "(gzip compressed data"@) && has_suffix(descr, ")"@),
        FileType::InitRD => has_prefix(descr, "ASCII cpio archive"@) && contains_seq(
            descr,
            "(gzip compressed data"@,
        ) && has_suffix(descr, ")"@),
        FileType::Json => has_prefix(descr, "ASCII text"@),
        FileType::Text => has_prefix(descr, "ASCII text"@),
        FileType::KernelAMD64 => has_prefix(descr, "Linux kernel x86 boot executable bzImage"@)
            || has_prefix(descr, "x86 boot sector"@),
        FileType::KernelARMHF => has_prefix(descr, "Linux kernel ARM boot executable zImage"@),
        FileType::KernelI386 => has_prefix(descr, "Linux kernel i386 boot executable bzImage"@),
        FileType::DTB => has_prefix(descr, "Device Tree Blob"@) || has_prefix(descr, "data"@),
    }
}

/// The human-readable description of an artifact kind, as seen by
/// specifications.
pub open spec fn spec_descr(ftype: FileType) -> Seq<char> {
    match ftype {
        FileType::OSImage => "balena OS image"@,
        FileType::KernelAMD64 => "balena migrate kernel image for AMD64"@,
        FileType::KernelARMHF => "balena migrate kernel image for ARMHF"@,
        FileType::KernelI386 => "balena migrate kernel image for I386"@,
        FileType::InitRD => "balena migrate initramfs"@,
        FileType::DTB => "Device Tree Blob"@,
        FileType::Json => "balena config.json file"@,
        FileType::Text => "Text file"@,
    }
}

impl FileType {
    /// The human-readable description of the kind.
    pub fn get_descr(&self) -> (r: &str)
        ensures
            r@ == spec_descr(*self),
    {
        match self {
            FileType::OSImage => "balena OS image",
            FileType::KernelAMD64 => "balena migrate kernel image for AMD64",
            FileType::KernelARMHF => "balena migrate kernel image for ARMHF",
            FileType::KernelI386 => "balena migrate kernel image for I386",
            FileType::InitRD => "balena migrate initramfs",
            FileType::DTB => "Device Tree Blob",
            FileType::Json => "balena config.json file",
            FileType::Text => "Text file",
        }
    }
}

/// Whether a description line matches the signature pattern of the
/// kind.
pub fn is_type_match(ftype: &FileType, descr: &str) -> (r: bool)
    ensures
        r == spec_is_type_match(*ftype, descr@),
{
    match ftype {
        FileType::OSImage => (str_has_prefix(descr, "DOS/MBR boot sector") || str_has_prefix(
            descr,
            "x86 boot sector",
        )) && str_contains(descr, "(gzip compressed data") && str_has_suffix(descr, ")"),
        FileType::InitRD => str_has_prefix(descr, "ASCII cpio archive") && str_contains(
            descr,
            "(gzip compressed data",
        ) && str_has_suffix(descr, ")"),
        FileType::Json => str_has_prefix(descr, "ASCII text"),
        FileType::Text => str_has_prefix(descr, "ASCII text"),
        FileType::KernelAMD64 => str_has_prefix(descr, "Linux kernel x86 boot executable bzImage")
            || str_has_prefix(descr, "x86 boot sector"),
        FileType::KernelARMHF => str_has_prefix(descr, "Linux kernel ARM boot executable zImage"),
        FileType::KernelI386 => str_has_prefix(descr, "Linux kernel i386 boot executable bzImage"),
        FileType::DTB => str_has_prefix(descr, "Device Tree Blob") || str_has_prefix(
            descr,
            "data",
        ),
    }
}

/// Classification boundary law: the empty description — what the
/// utility reports for a zero-byte file — matches no artifact kind's
/// signature, since every pattern begins with a non-empty prefix.
pub proof fn lemma_empty_descr_never_matches(ftype: FileType)
    ensures
        !spec_is_type_match(ftype, Seq::<char>::empty()),
{
    reveal_strlit("DOS/MBR boot sector");
    reveal_strlit("x86 boot sector");
    reveal_strlit("(gzip compressed data");
    reveal_strlit(")");
    reveal_strlit("ASCII cpio archive");
    reveal_strlit("ASCII text");
    reveal_strlit("Linux kernel x86 boot executable bzImage");
    reveal_strlit("Linux kernel ARM boot executable zImage");
    reveal_strlit("Linux kernel i386 boot executable bzImage");
    reveal_strlit("Device Tree Blob");
    reveal_strlit("data");
}

/// The candidate the locate order picks, given the two existence
/// answers: a name that exists as given wins; a relative name that
/// exists under the work directory comes next; otherwise the artifact
/// is absent.
pub open spec fn spec_locate_candidate(
    file: Seq<char>,
    work_dir: Seq<char>,
    exists_as_given: bool,
    exists_under_work: bool,
) -> Option<Seq<char>> {
    if exists_as_given {
        Some(file)
    } else if !spec_is_absolute(file) && exists_under_work {
        Some(spec_path_append(work_dir, file))
    } else {
        None
    }
}

/// Picks the candidate path the locate order demands from the two
/// existence answers.
pub fn locate_candidate(
    file: &str,
    work_dir: &str,
    exists_as_given: bool,
    exists_under_work: bool,
) -> (r: Option<String>)
    ensures
        match r {
            Some(p) => spec_locate_candidate(file@, work_dir@, exists_as_given, exists_under_work)
                == Some(p@),
            None => spec_locate_candidate(file@, work_dir@, exists_as_given, exists_under_work)
                is None,
        },
{
    if exists_as_given {
        Some(file.to_owned())
    } else if !path_is_absolute(file) && exists_under_work {
        Some(path_append(work_dir, file))
    } else {
        None
    }
}

/// A located artifact: its absolute path and its size in bytes.
/// Produced only after the path has been confirmed to exist on disk.
#[derive(Clone, Debug)]
pub struct FileInfo {
    pub path: String,
    pub size: u64,
}

impl FileInfo {
    /// Locates an artifact: a name that exists as given (absolute or
    /// relative to the current directory) wins; a relative name is then
    /// tried under the work directory; otherwise the artifact is absent,
    /// which is a valid outcome, not an error. A located path is
    /// canonicalized and statted; failure to stat an existing path is an
    /// error.
    pub fn new(file: &str, work_dir: &str) -> (r: Result<Option<FileInfo>, MigError>)
        ensures
            r matches Err(e) ==> e.spec_kind() == MigErrorKind::Upstream,
    {
        let exists_as_given = file_exists(file);
        let exists_under_work = if !exists_as_given && !path_is_absolute(file) {
            file_exists(path_append(work_dir, file).as_str())
        } else {
            false
        };

        match locate_candidate(file, work_dir, exists_as_given, exists_under_work) {
            None => Ok(None),
            Some(p) => {
                let abs = canonicalize(p.as_str())?;
                let size = file_size(abs.as_str())?;
                Ok(Some(FileInfo { path: abs, size }))
            },
        }
    }

    /// Classifies this artifact from the captured output of the
    /// type-identification utility, invoked as `file -bz <path>` by the
    /// caller. `None` for the output means the platform lacks the
    /// utility: classification then fails with "not implemented" rather
    /// than silently succeeding. A run that failed or printed nothing is
    /// a hard error, distinct from "did not match".
    pub fn is_type(&self, cmd_res: Option<&CmdRes>, ftype: &FileType) -> (r: Result<
        bool,
        MigError,
    >)
        ensures
            match cmd_res {
                None => r matches Err(e) && e.spec_kind() == MigErrorKind::NotImpl,
                Some(res) => {
                    if !res.status.success || res.stdout@.len() == 0 {
                        r matches Err(e) && e.spec_kind() == MigErrorKind::InvParam
                            && contains_seq(e.spec_remark(), self.path@)
                    } else {
                        r matches Ok(b) && b == spec_is_type_match(*ftype, res.stdout@)
                    }
                },
            },
    {
        match cmd_res {
            None => Err(MigError::from_kind(MigErrorKind::NotImpl)),
            Some(res) => {
                if !res.status.success || res.stdout.as_str().is_empty() {
                    Err(
                        MigError::naming(
                            MigErrorKind::InvParam,
                            "failed to determine the type of file '",
                            self.path.as_str(),
                            "'",
                        ),
                    )
                } else {
                    Ok(is_type_match(ftype, res.stdout.as_str()))
                }
            },
        }
    }

    /// Requires this artifact to classify as the expected kind: a
    /// non-match becomes a reported error naming the expected kind's
    /// description and the artifact's path.
    pub fn expect_type(&self, cmd_res: Option<&CmdRes>, ftype: &FileType) -> (r: Result<
        (),
        MigError,
    >)
        ensures
            match cmd_res {
                None => r matches Err(e) && e.spec_kind() == MigErrorKind::NotImpl,
                Some(res) => {
                    if !res.status.success || res.stdout@.len() == 0 {
                        r matches Err(e) && e.spec_kind() == MigErrorKind::InvParam
                            && contains_seq(e.spec_remark(), self.path@)
                    } else if spec_is_type_match(*ftype, res.stdout@) {
                        r is Ok
                    } else {
                        r matches Err(e) && e.spec_kind() == MigErrorKind::InvParam
                            && contains_seq(e.spec_remark(), spec_descr(*ftype)) && contains_seq(
                            e.spec_remark(),
                            self.path@,
                        )
                    }
                },
            },
    {
        match self.is_type(cmd_res, ftype) {
            Ok(true) => Ok(()),
            Ok(false) => {
                let mut remark = "could not confirm expected file type '".to_owned();
                let descr = ftype.get_descr();
                remark.append(descr);
                proof {
                    lemma_contains_append("could not confirm expected file type '"@, descr@);
                }
                let ghost g1 = remark@;
                remark.append("' for file '");
                remark.append(self.path.as_str());
                proof {
                    lemma_contains_extend(g1, "' for file '"@, spec_descr(*ftype));
                    lemma_contains_extend(g1 + "' for file '"@, self.path@, spec_descr(*ftype));
                    lemma_contains_append(g1 + "' for file '"@, self.path@);
                    assert(remark@ == (g1 + "' for file '"@) + self.path@);
                }
                let ghost g2 = remark@;
                remark.append("'");
                proof {
                    lemma_contains_extend(g2, "'"@, spec_descr(*ftype));
                    lemma_contains_extend(g2, "'"@, self.path@);
                }
                Err(MigError::from_remark(MigErrorKind::InvParam, remark.as_str()))
            },
            Err(e) => Err(e),
        }
    }
}

} // verus!
