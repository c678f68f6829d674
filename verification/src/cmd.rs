//! The command model: what a finished subprocess left behind, the
//! process-wide table of resolved command paths, and the interpretation
//! of the `whereis` lookup that fills it. Running a process is I/O and
//! happens outside this crate; every decision about its outcome is made
//! here.

use vstd::prelude::*;

use crate::error::{MigError, MigErrorKind};

verus! {

/// The exit status of a finished subprocess.
#[derive(Clone, Copy, Debug, PartialEq, Eq, Structural)]
pub struct CmdStatus {
    /// Whether the process exited successfully (status zero).
    pub success: bool,
    /// The exit code, when the process exited with one.
    pub code: Option<i32>,
}

/// What invoking a resolved command captured: standard output
/// (optionally trimmed by the invoker), standard error (never trimmed),
/// and the exit status. A non-zero exit status is not automatically an
/// error — callers interpret it per command.
#[derive(Clone, Debug)]
pub struct CmdRes {
    pub stdout: String,
    pub stderr: String,
    pub status: CmdStatus,
}

/// The commands the migrator requires; startup cannot proceed when one
/// of them cannot be located.
pub fn required_cmds() -> (r: Vec<String>)
    ensures
        r@.len() == 5,
        r@[0]@ == "df"@,
        r@[1]@ == "lsblk"@,
        r@[2]@ == "mount"@,
        r@[3]@ == "file"@,
        r@[4]@ == "uname"@,
{
    let mut v: Vec<String> = Vec::new();
    v.push("df".to_owned());
    v.push("lsblk".to_owned());
    v.push("mount".to_owned());
    v.push("file".to_owned());
    v.push("uname".to_owned());
    v
}

/// The commands the migrator can work without; a request for an absent
/// one is answered with a "command unavailable" error.
pub fn optional_cmds() -> (r: Vec<String>)
    ensures
        r@.len() == 2,
        r@[0]@ == "mokutil"@,
        r@[1]@ == "grub-install"@,
{
    let mut v: Vec<String> = Vec::new();
    v.push("mokutil".to_owned());
    v.push("grub-install".to_owned());
    v
}

/// One row of the command table: a command name and its resolved
/// absolute path, or `None` when resolution found nothing for an
/// optional command.
#[derive(Clone, Debug)]
pub struct CmdEntry {
    pub name: String,
    pub path: Option<String>,
}

/// The process-wide table of resolved command paths: filled once at
/// startup from resolution outcomes and read thereafter. It is an
/// explicit value handed to every component that issues subprocess
/// calls, so a test can substitute a fake table.
#[derive(Clone, Debug)]
pub struct CmdTable {
    pub entries: Vec<CmdEntry>,
}

/// `i` is the first index at which the table lists the command.
pub open spec fn spec_cmd_at(es: Seq<CmdEntry>, name: Seq<char>, i: int) -> bool {
    0 <= i < es.len() && es[i].name@ == name && forall|j: int| 0 <= j < i ==> es[j].name@ != name
}

/// Two first listings of one command are the same listing.
pub proof fn lemma_cmd_at_unique(es: Seq<CmdEntry>, name: Seq<char>, i: int, j: int)
    requires
        spec_cmd_at(es, name, i),
        spec_cmd_at(es, name, j),
    ensures
        i == j,
{
    if i < j {
        assert(es[i].name@ == name);
    } else if j < i {
        assert(es[j].name@ == name);
    }
}

impl CmdTable {
    /// A table from resolution outcomes.
    pub fn new(entries: Vec<CmdEntry>) -> (r: CmdTable)
        ensures
            r.entries@ == entries@,
    {
        CmdTable { entries }
    }

    /// Looks a command up, at its first listing: a command that is not
    /// in the table at all is an invalid parameter; one listed as absent
    /// is unavailable; one listed with a path resolves to that path.
    pub fn lookup(&self, name: &str) -> (r: Result<String, MigError>)
        ensures
            match r {
                Ok(p) => exists|i: int|
                    spec_cmd_at(self.entries@, name@, i) && (self.entries@[i].path matches Some(
                        q,
                    ) && q@ == p@),
                Err(e) => {
                    if forall|i: int|
                        0 <= i < self.entries@.len() ==> self.entries@[i].name@ != name@ {
                        e.spec_kind() == MigErrorKind::InvParam
                    } else {
                        e.spec_kind() == MigErrorKind::NotFound && exists|i: int|
                            spec_cmd_at(self.entries@, name@, i) && self.entries@[i].path is None
                    }
                },
            },
    {
        let n = self.entries.len();
        let mut i: usize = 0;
        while i < n
            invariant
                n == self.entries@.len(),
                0 <= i <= n,
                forall|k: int| 0 <= k < i ==> self.entries@[k].name@ != name@,
            decreases n - i,
        {
            let entry = &self.entries[i];
            if entry.name == name.to_owned() {
                proof {
                    assert(spec_cmd_at(self.entries@, name@, i as int));
                }
                match &entry.path {
                    Some(p) => {
                        return Ok(p.clone());
                    },
                    None => {
                        return Err(
                            MigError::naming(
                                MigErrorKind::NotFound,
                                "the command '",
                                name,
                                "' is not available on this system",
                            ),
                        );
                    },
                }
            }
            i += 1;
        }
        Err(
            MigError::naming(
                MigErrorKind::InvParam,
                "the command '",
                name,
                "' is not in the list of checked commands",
            ),
        )
    }
}

/// The index just past the first space in `s`, or `None` when `s` has no
/// space.
pub open spec fn spec_first_space(s: Seq<char>) -> Option<int> {
    if exists|i: int| 0 <= i < s.len() && s[i] == ' ' {
        Some(choose|i: int| 0 <= i < s.len() && s[i] == ' ' && forall|j: int|
            0 <= j < i ==> s[j] != ' ')
    } else {
        None
    }
}

/// The second word of a `whereis -b` output line: the output is the
/// command name followed by the located paths, separated by single
/// spaces, so the second word is the first located path. `None` when
/// there is no second word.
pub open spec fn spec_whereis_path(out: Seq<char>) -> Option<Seq<char>> {
    match spec_first_space(out) {
        None => None,
        Some(i) => {
            let rest = out.subrange(i + 1, out.len() as int);
            match spec_first_space(rest) {
                None => if rest.len() > 0 {
                    Some(rest)
                } else {
                    None
                },
                Some(j) => if j > 0 {
                    Some(rest.subrange(0, j))
                } else {
                    None
                },
            }
        },
    }
}

/// Splits off the first space-separated word boundary: the index of the
/// first space, or `None`.
fn find_first_space(s: &str) -> (r: Option<usize>)
    ensures
        match r {
            Some(i) => 0 <= i < s@.len() && s@[i as int] == ' ' && (forall|j: int|
                0 <= j < i ==> s@[j] != ' ') && spec_first_space(s@) == Some(i as int),
            None => spec_first_space(s@) is None,
        },
{
    let n = s.unicode_len();
    let mut i: usize = 0;
    while i < n
        invariant
            n == s@.len(),
            0 <= i <= n,
            forall|j: int| 0 <= j < i ==> s@[j] != ' ',
        decreases n - i,
    {
        if s.get_char(i) == ' ' {
            return Some(i);
        }
        i += 1;
    }
    None
}

/// Interprets the outcome of running `whereis -b <cmd>`: a failed exit
/// is a process failure; empty output is an invalid parameter; output
/// without a second word means the command was not found; otherwise the
/// second word is the command's path.
pub fn whereis(cmd: &str, res: &CmdRes) -> (r: Result<String, MigError>)
    ensures
        match r {
            Ok(p) => res.status.success && spec_whereis_path(res.stdout@) == Some(p@),
            Err(e) => {
                &&& (!res.status.success ==> e.spec_kind() == MigErrorKind::ExecProcess)
                &&& (res.status.success && res.stdout@.len() == 0 ==> e.spec_kind()
                    == MigErrorKind::InvParam)
                &&& (res.status.success && res.stdout@.len() > 0 ==> e.spec_kind()
                    == MigErrorKind::NotFound && spec_whereis_path(res.stdout@) is None)
            },
        },
{
    if !res.status.success {
        let mut remark = "whereis failed for '".to_owned();
        remark.append(cmd);
        remark.append("'");
        return Err(MigError::from_remark(MigErrorKind::ExecProcess, remark.as_str()));
    }
    if res.stdout.as_str().is_empty() {
        let mut remark = "no whereis output for '".to_owned();
        remark.append(cmd);
        remark.append("'");
        return Err(MigError::from_remark(MigErrorKind::InvParam, remark.as_str()));
    }
    let out: &str = res.stdout.as_str();
    let n = out.unicode_len();
    match find_first_space(out) {
        None => {
            let mut remark = "command not found: '".to_owned();
            remark.append(cmd);
            remark.append("'");
            Err(MigError::from_remark(MigErrorKind::NotFound, remark.as_str()))
        },
        Some(i) => {
            let rest: &str = out.substring_char(i + 1, n);
            let rest_len = rest.unicode_len();
            match find_first_space(rest) {
                None => {
                    if rest_len > 0 {
                        Ok(rest.to_owned())
                    } else {
                        let mut remark = "command not found: '".to_owned();
                        remark.append(cmd);
                        remark.append("'");
                        Err(MigError::from_remark(MigErrorKind::NotFound, remark.as_str()))
                    }
                },
                Some(j) => {
                    if j > 0 {
                        Ok(rest.substring_char(0, j).to_owned())
                    } else {
                        let mut remark = "command not found: '".to_owned();
                        remark.append(cmd);
                        remark.append("'");
                        Err(MigError::from_remark(MigErrorKind::NotFound, remark.as_str()))
                    }
                },
            }
        },
    }
}

/// Whether a command exists, without consulting the command table. Not
/// provided on any supported platform.
pub fn command_exists(cmd: &str) -> (r: Result<bool, MigError>)
    ensures
        r matches Err(e) && e.spec_kind() == MigErrorKind::NotImpl,
{
    let mut remark = "command_exists is not implemented; asked for '".to_owned();
    remark.append(cmd);
    remark.append("'");
    Err(MigError::from_remark(MigErrorKind::NotImpl, remark.as_str()))
}

/// Runs a command line through a shell. Not provided on any supported
/// platform.
pub fn exec_command(cmd: &str) -> (r: Result<bool, MigError>)
    ensures
        r matches Err(e) && e.spec_kind() == MigErrorKind::NotImpl,
{
    let mut remark = "exec_command is not implemented; asked for '".to_owned();
    remark.append(cmd);
    remark.append("'");
    Err(MigError::from_remark(MigErrorKind::NotImpl, remark.as_str()))
}

} // verus!
