//! The `balena` sub-tree of the configuration: the OS image reference,
//! the provisioning-document reference, application identity, and the
//! API/VPN check toggles and timeout.

use vstd::prelude::*;

use crate::error::{MigError, MigErrorKind};
use crate::file_ref::FileRef;
use crate::migrate_config::MigMode;

verus! {

/// The per-partition filesystem image set; the device slug names the
/// device type the partition layout was built for.
#[derive(Clone, Debug, PartialEq, Eq)]
pub struct FsConfig {
    pub device_slug: Option<String>,
}

/// How the OS image is written: a raw disk image streamed with dd, or a
/// per-partition filesystem image set.
#[derive(Clone, Debug, PartialEq, Eq)]
pub enum ImageType {
    Flasher(FileRef),
    FileSystems(FsConfig),
}

/// The `balena` sub-tree.
#[derive(Clone, Debug)]
pub struct BalenaConfig {
    /// The OS image to write.
    pub image: Option<ImageType>,
    /// The provisioning document to inject.
    pub config: Option<FileRef>,
    pub app_name: Option<String>,
    pub api_host: Option<String>,
    pub api_port: u16,
    pub api_check: bool,
    pub check_vpn: bool,
    /// Timeout in seconds for each connectivity probe.
    pub check_timeout: u64,
}

/// The well-known provisioning API port, used when the API endpoint URL
/// does not name one.
pub const DEFAULT_API_PORT: u16 = 443;

/// The default timeout for connectivity probes, in seconds.
pub const DEFAULT_CHECK_TIMEOUT: u64 = 20;

impl BalenaConfig {
    /// The compiled-in defaults: no image, no provisioning document, API
    /// checking enabled against the well-known port, VPN checking
    /// disabled.
    pub fn default() -> (r: BalenaConfig)
        ensures
            r.image is None,
            r.config is None,
            r.app_name is None,
            r.api_host is None,
            r.api_port == DEFAULT_API_PORT,
            r.api_check,
            !r.check_vpn,
            r.check_timeout == DEFAULT_CHECK_TIMEOUT,
    {
        BalenaConfig {
            image: None,
            config: None,
            app_name: None,
            api_host: None,
            api_port: DEFAULT_API_PORT,
            api_check: true,
            check_vpn: false,
            check_timeout: DEFAULT_CHECK_TIMEOUT,
        }
    }

    /// Replaces the image reference with a raw disk image at the given
    /// path, with no expected digest.
    pub fn set_image_path(&mut self, image: &str)
        ensures
            final(self).image matches Some(ImageType::Flasher(f)) && f.path@ == image@ && f.hash
                is None,
            final(self).config == old(self).config,
            final(self).app_name == old(self).app_name,
            final(self).api_host == old(self).api_host,
            final(self).api_port == old(self).api_port,
            final(self).api_check == old(self).api_check,
            final(self).check_vpn == old(self).check_vpn,
            final(self).check_timeout == old(self).check_timeout,
    {
        self.image = Some(ImageType::Flasher(FileRef::from_path(image)));
    }

    /// The configured image reference.
    pub fn get_image_path(&self) -> (r: Option<&ImageType>)
        ensures
            match self.image {
                Some(i) => r matches Some(x) && *x == i,
                None => r is None,
            },
    {
        match &self.image {
            Some(i) => Some(i),
            None => None,
        }
    }

    /// The configured provisioning-document reference.
    pub fn get_config_path(&self) -> (r: Option<&FileRef>)
        ensures
            match self.config {
                Some(c) => r matches Some(x) && *x == c,
                None => r is None,
            },
    {
        match &self.config {
            Some(c) => Some(c),
            None => None,
        }
    }

    /// The configured application name.
    pub fn get_app_name(&self) -> (r: Option<&str>)
        ensures
            match self.app_name {
                Some(n) => r matches Some(s) && s@ == n@,
                None => r is None,
            },
    {
        match &self.app_name {
            Some(n) => Some(n.as_str()),
            None => None,
        }
    }

    /// Whether the API endpoint is probed during validation.
    pub fn is_check_api(&self) -> (r: bool)
        ensures
            r == self.api_check,
    {
        self.api_check
    }

    /// Whether the VPN endpoint is probed during validation.
    pub fn is_check_vpn(&self) -> (r: bool)
        ensures
            r == self.check_vpn,
    {
        self.check_vpn
    }

    /// The timeout for connectivity probes, in seconds.
    pub fn get_check_timeout(&self) -> (r: u64)
        ensures
            r == self.check_timeout,
    {
        self.check_timeout
    }

    /// Whether this sub-tree passes validation under the resolved mode:
    /// `Immediate` requires the OS image and the provisioning document to
    /// be configured; `Agent` receives them from a remote controller, and
    /// `Pretend` stops short of the flash step, so neither requires them
    /// here — artifact presence is still enforced by artifact validation.
    pub open spec fn spec_valid(&self, mode: MigMode) -> bool {
        mode == MigMode::Immediate ==> (self.image is Some && self.config is Some)
    }

    /// Validates the sub-tree under the resolved mode.
    pub fn check(&self, mode: &MigMode) -> (r: Result<(), MigError>)
        ensures
            r is Ok <==> self.spec_valid(*mode),
            r matches Err(e) ==> e.spec_kind() == MigErrorKind::InvParam,
    {
        if *mode == MigMode::Immediate {
            if self.image.is_none() {
                return Err(
                    MigError::from_remark(
                        MigErrorKind::InvParam,
                        "no balena OS image was configured for immediate migration",
                    ),
                );
            }
            if self.config.is_none() {
                return Err(
                    MigError::from_remark(
                        MigErrorKind::InvParam,
                        "no balena config file was configured for immediate migration",
                    ),
                );
            }
        }
        Ok(())
    }
}

} // verus!
