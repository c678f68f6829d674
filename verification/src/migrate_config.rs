//! The `migrate` sub-tree of the configuration: work directory, migration
//! mode, reboot delay, wifi-inclusion policy, persistent-log target,
//! kernel and initramfs references, backup volumes, failure-mode policy,
//! network-manager connection files, kernel command-line additions, and
//! the delay before start.

use vstd::prelude::*;

use crate::error::{MigError, MigErrorKind};
use crate::file_ref::FileRef;
use crate::strutil::eq_ignore_ascii_case;
use crate::strutil::str_eq_ignore_ascii_case;

verus! {

/// The top-level behavioural switch. `Invalid` is the uninitialised
/// default and is never a legal terminal value: a configuration that
/// resolves to `Invalid` fails validation.
#[derive(Clone, Copy, Debug, PartialEq, Eq, Structural)]
pub enum MigMode {
    /// Neither the document nor the command line set a mode.
    Invalid,
    /// Defer migration decisions to a remote controller.
    Agent,
    /// Execute the migration without further confirmation.
    Immediate,
    /// Perform every check but stop short of destructive action.
    Pretend,
}

/// The mode named by a string, compared up to ASCII case; `None` when the
/// string names no mode.
pub open spec fn spec_mode_of_str(s: Seq<char>) -> Option<MigMode> {
    if eq_ignore_ascii_case(s, "agent"@) {
        Some(MigMode::Agent)
    } else if eq_ignore_ascii_case(s, "immediate"@) {
        Some(MigMode::Immediate)
    } else if eq_ignore_ascii_case(s, "pretend"@) {
        Some(MigMode::Pretend)
    } else {
        None
    }
}

impl MigMode {
    /// Parses a mode name; any string that names no mode is an invalid
    /// parameter.
    pub fn from_str(s: &str) -> (r: Result<MigMode, MigError>)
        ensures
            match r {
                Ok(m) => spec_mode_of_str(s@) == Some(m),
                Err(e) => spec_mode_of_str(s@) is None && e.spec_kind()
                    == MigErrorKind::InvParam,
            },
    {
        if str_eq_ignore_ascii_case(s, "agent") {
            Ok(MigMode::Agent)
        } else if str_eq_ignore_ascii_case(s, "immediate") {
            Ok(MigMode::Immediate)
        } else if str_eq_ignore_ascii_case(s, "pretend") {
            Ok(MigMode::Pretend)
        } else {
            Err(MigError::from_remark(MigErrorKind::InvParam, "invalid value for migrate mode"))
        }
    }
}

/// The wifi-inclusion policy: migrate every wifi configuration found, or
/// only the named ones.
#[derive(Clone, Debug, PartialEq, Eq)]
pub enum MigrateWifis {
    All,
    List(Vec<String>),
}

/// The persistent-log target.
#[derive(Clone, Debug, PartialEq, Eq)]
pub struct LogConfig {
    /// Whether to also log to the console.
    pub console: bool,
    /// The drive that receives persistent logs.
    pub drive: Option<String>,
    /// The log level for the second stage.
    pub level: Option<String>,
}

impl LogConfig {
    /// The target with nothing configured.
    pub fn unset() -> (r: LogConfig)
        ensures
            !r.console,
            r.drive is None,
            r.level is None,
    {
        LogConfig { console: false, drive: None, level: None }
    }
}

/// One item of a backup volume: a source path, an optional target name,
/// and an optional filter.
#[derive(Clone, Debug, PartialEq, Eq)]
pub struct BackupItem {
    pub source: String,
    pub target: Option<String>,
    pub filter: Option<String>,
}

/// One backup volume: its name and the items copied into it.
#[derive(Clone, Debug, PartialEq, Eq)]
pub struct BackupVolume {
    pub volume: String,
    pub items: Vec<BackupItem>,
}

/// What to do when the migration fails in its second stage.
#[derive(Clone, Copy, Debug, PartialEq, Eq, Structural)]
pub enum FailMode {
    Reboot,
    RescueShell,
}

/// The failure mode named by a string; `None` when the string names no
/// failure mode. Names are matched as the document writes them.
pub open spec fn spec_fail_mode_of_str(s: Seq<char>) -> Option<FailMode> {
    if s == "Reboot"@ {
        Some(FailMode::Reboot)
    } else if s == "RescueShell"@ {
        Some(FailMode::RescueShell)
    } else {
        None
    }
}

impl FailMode {
    /// Parses a failure-mode name.
    pub fn from_str(s: &str) -> (r: Result<FailMode, MigError>)
        ensures
            match r {
                Ok(m) => spec_fail_mode_of_str(s@) == Some(m),
                Err(e) => spec_fail_mode_of_str(s@) is None && e.spec_kind()
                    == MigErrorKind::InvParam,
            },
    {
        let reboot = "Reboot";
        let rescue = "RescueShell";
        if s.to_owned() == reboot.to_owned() {
            Ok(FailMode::Reboot)
        } else if s.to_owned() == rescue.to_owned() {
            Ok(FailMode::RescueShell)
        } else {
            Err(MigError::from_remark(MigErrorKind::InvParam, "invalid value for fail mode"))
        }
    }
}

/// The `migrate` sub-tree.
#[derive(Clone, Debug)]
pub struct MigrateConfig {
    /// The anchor directory for relative artifact and config paths; no
    /// silent default — resolution fails when none is configured.
    pub work_dir: Option<String>,
    pub mode: MigMode,
    /// Seconds before the automatic reboot into the second stage; `None`
    /// means do not auto-reboot.
    pub reboot: Option<u64>,
    pub all_wifis: bool,
    pub wifis: Vec<String>,
    pub log: LogConfig,
    pub kernel: FileRef,
    pub initrd: FileRef,
    /// Overrides the detected device type.
    pub force_slug: Option<String>,
    pub backup_volumes: Vec<BackupVolume>,
    pub fail_mode: FailMode,
    pub nwmgr_files: Vec<String>,
    pub gzip_internal: bool,
    pub kernel_opts: Option<String>,
    /// Seconds to wait before the migration starts.
    pub delay: u64,
    pub require_nwmgr_config: bool,
}

impl MigrateConfig {
    /// The compiled-in defaults: no work directory, mode `Invalid`, no
    /// log target, empty file references.
    pub fn default() -> (r: MigrateConfig)
        ensures
            r.work_dir is None,
            r.mode == MigMode::Invalid,
            r.reboot is None,
            !r.all_wifis,
            r.wifis@ == Seq::<String>::empty(),
            !r.log.console,
            r.log.drive is None,
            r.log.level is None,
            r.kernel.path@ == Seq::<char>::empty(),
            r.kernel.hash is None,
            r.initrd.path@ == Seq::<char>::empty(),
            r.initrd.hash is None,
            r.force_slug is None,
            r.backup_volumes@ == Seq::<BackupVolume>::empty(),
            r.fail_mode == FailMode::Reboot,
            r.nwmgr_files@ == Seq::<String>::empty(),
            r.gzip_internal,
            r.kernel_opts is None,
            r.delay == 0,
            r.require_nwmgr_config,
    {
        MigrateConfig {
            work_dir: None,
            mode: MigMode::Invalid,
            reboot: None,
            all_wifis: false,
            wifis: Vec::new(),
            log: LogConfig::unset(),
            kernel: FileRef { path: String::new(), hash: None },
            initrd: FileRef { path: String::new(), hash: None },
            force_slug: None,
            backup_volumes: Vec::new(),
            fail_mode: FailMode::Reboot,
            nwmgr_files: Vec::new(),
            gzip_internal: true,
            kernel_opts: None,
            delay: 0,
            require_nwmgr_config: true,
        }
    }

    /// Whether a work directory has been configured.
    pub fn has_work_dir(&self) -> (r: bool)
        ensures
            r == (self.work_dir is Some),
    {
        self.work_dir.is_some()
    }

    /// Configures the work directory.
    pub fn set_work_dir(&mut self, work_dir: String)
        ensures
            *final(self) == (MigrateConfig { work_dir: Some(work_dir), ..*old(self) }),
    {
        self.work_dir = Some(work_dir);
    }

    /// The configured work directory, or the empty string when none is
    /// configured.
    pub fn get_work_dir(&self) -> (r: &str)
        ensures
            self.work_dir matches Some(d) ==> r@ == d@,
            self.work_dir is None ==> r@ == Seq::<char>::empty(),
    {
        proof {
            reveal_strlit("");
        }
        match &self.work_dir {
            Some(d) => d.as_str(),
            None => "",
        }
    }

    /// Sets the migration mode.
    pub fn set_mig_mode(&mut self, mode: &MigMode)
        ensures
            *final(self) == (MigrateConfig { mode: *mode, ..*old(self) }),
    {
        self.mode = *mode;
    }

    /// The resolved migration mode.
    pub fn get_mig_mode(&self) -> (r: &MigMode)
        ensures
            *r == self.mode,
    {
        &self.mode
    }

    /// The wifi-inclusion policy: everything when `all_wifis` is set,
    /// else the configured list.
    pub fn get_wifis(&self) -> (r: MigrateWifis)
        ensures
            self.all_wifis ==> r == MigrateWifis::All,
            !self.all_wifis ==> (r matches MigrateWifis::List(l) && l@ == self.wifis@),
    {
        if self.all_wifis {
            MigrateWifis::All
        } else {
            MigrateWifis::List(clone_string_vec(&self.wifis))
        }
    }

    /// The configured reboot delay.
    pub fn get_reboot(&self) -> (r: &Option<u64>)
        ensures
            *r == self.reboot,
    {
        &self.reboot
    }

    /// Whether the second stage also logs to the console.
    pub fn get_log_console(&self) -> (r: bool)
        ensures
            r == self.log.console,
    {
        self.log.console
    }

    /// The configured persistent-log drive.
    pub fn get_log_device(&self) -> (r: Option<&str>)
        ensures
            match self.log.drive {
                Some(d) => r matches Some(s) && s@ == d@,
                None => r is None,
            },
    {
        match &self.log.drive {
            Some(d) => Some(d.as_str()),
            None => None,
        }
    }

    /// The configured second-stage log level, defaulting to `warn`.
    pub fn get_log_level(&self) -> (r: &str)
        ensures
            match self.log.level {
                Some(l) => r@ == l@,
                None => r@ == "warn"@,
            },
    {
        match &self.log.level {
            Some(l) => l.as_str(),
            None => "warn",
        }
    }

    /// The configured kernel reference.
    pub fn get_kernel_path(&self) -> (r: &FileRef)
        ensures
            *r == self.kernel,
    {
        &self.kernel
    }

    /// The configured initramfs reference.
    pub fn get_initrd_path(&self) -> (r: &FileRef)
        ensures
            *r == self.initrd,
    {
        &self.initrd
    }

    /// The configured backup volumes.
    pub fn get_backup_volumes(&self) -> (r: &Vec<BackupVolume>)
        ensures
            *r == self.backup_volumes,
    {
        &self.backup_volumes
    }

    /// The configured failure mode.
    pub fn get_fail_mode(&self) -> (r: &FailMode)
        ensures
            *r == self.fail_mode,
    {
        &self.fail_mode
    }

    /// The configured network-manager connection files.
    pub fn get_nwmgr_files(&self) -> (r: &Vec<String>)
        ensures
            *r == self.nwmgr_files,
    {
        &self.nwmgr_files
    }

    /// Whether the internal gzip is used with dd.
    pub fn is_gzip_internal(&self) -> (r: bool)
        ensures
            r == self.gzip_internal,
    {
        self.gzip_internal
    }

    /// The configured kernel command-line additions.
    pub fn get_kernel_opts(&self) -> (r: Option<String>)
        ensures
            match self.kernel_opts {
                Some(o) => r matches Some(s) && s@ == o@,
                None => r is None,
            },
    {
        match &self.kernel_opts {
            Some(o) => Some(o.clone()),
            None => None,
        }
    }

    /// The configured delay before the migration starts, in seconds.
    pub fn get_delay(&self) -> (r: u64)
        ensures
            r == self.delay,
    {
        self.delay
    }

    /// Whether network-manager configurations are required.
    pub fn require_nwmgr_configs(&self) -> (r: bool)
        ensures
            r == self.require_nwmgr_config,
    {
        self.require_nwmgr_config
    }

    /// The configured device-type override.
    pub fn get_force_slug(&self) -> (r: Option<String>)
        ensures
            match self.force_slug {
                Some(s) => r matches Some(t) && t@ == s@,
                None => r is None,
            },
    {
        match &self.force_slug {
            Some(s) => Some(s.clone()),
            None => None,
        }
    }

    /// Whether this sub-tree passes validation: a mode other than
    /// `Invalid` was resolved and a work directory is configured.
    pub open spec fn spec_valid(&self) -> bool {
        self.mode != MigMode::Invalid && self.work_dir is Some
    }

    /// Validates the sub-tree: a resolved mode of `Invalid` and a missing
    /// work directory are terminal failures.
    pub fn check(&self) -> (r: Result<(), MigError>)
        ensures
            r is Ok <==> self.spec_valid(),
            r matches Err(e) ==> e.spec_kind() == MigErrorKind::InvParam,
    {
        if self.mode == MigMode::Invalid {
            return Err(
                MigError::from_remark(
                    MigErrorKind::InvParam,
                    "no migrate mode was resolved from the configuration or the command line",
                ),
            );
        }
        if self.work_dir.is_none() {
            return Err(
                MigError::from_remark(
                    MigErrorKind::InvParam,
                    "no working directory was resolved",
                ),
            );
        }
        Ok(())
    }
}

/// Clones a vector of strings element by element.
pub fn clone_string_vec(v: &Vec<String>) -> (r: Vec<String>)
    ensures
        r@ == v@,
{
    let mut out: Vec<String> = Vec::new();
    let mut i: usize = 0;
    while i < v.len()
        invariant
            0 <= i <= v@.len(),
            out@ == v@.subrange(0, i as int),
        decreases v@.len() - i,
    {
        out.push(v[i].clone());
        assert(out@ =~= v@.subrange(0, i + 1 as int));
        i += 1;
    }
    assert(out@ =~= v@);
    out
}

} // verus!
