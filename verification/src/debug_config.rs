//! The `debug` sub-tree of the configuration: flags that suppress the
//! actual flash step or force a specific target device, used only for
//! dry-run testing.

use vstd::prelude::*;

use crate::error::MigError;
use crate::migrate_config::MigMode;

verus! {

/// The `debug` sub-tree.
#[derive(Clone, Debug)]
pub struct DebugConfig {
    /// Terminate before the flash step instead of writing the image.
    pub no_flash: bool,
    /// Flash the given device instead of the detected boot device.
    pub force_flash_device: Option<String>,
}

impl DebugConfig {
    /// The compiled-in defaults: flash normally, to the detected device.
    pub fn default() -> (r: DebugConfig)
        ensures
            !r.no_flash,
            r.force_flash_device is None,
    {
        DebugConfig { no_flash: false, force_flash_device: None }
    }

    /// Whether the flash step is suppressed.
    pub fn is_no_flash(&self) -> (r: bool)
        ensures
            r == self.no_flash,
    {
        self.no_flash
    }

    /// The forced flash device, if any.
    pub fn get_force_flash_device(&self) -> (r: Option<&str>)
        ensures
            match self.force_flash_device {
                Some(d) => r matches Some(s) && s@ == d@,
                None => r is None,
            },
    {
        match &self.force_flash_device {
            Some(d) => Some(d.as_str()),
            None => None,
        }
    }

    /// Validates the sub-tree under the resolved mode. Every combination
    /// of debug flags is acceptable in every mode.
    pub fn check(&self, _mode: &MigMode) -> (r: Result<(), MigError>)
        ensures
            r is Ok,
    {
        Ok(())
    }
}

} // verus!
