//! Common odds and ends: the recognised OS architectures and
//! human-readable size formatting.

use vstd::prelude::*;

use crate::strutil::{dec_digits, u64_to_dec};

verus! {

/// The OS architectures the migrator recognises.
#[derive(Clone, Copy, Debug, PartialEq, Eq, Structural)]
pub enum OSArch {
    AMD64,
    ARMHF,
    I386,
}

impl OSArch {
    /// The architecture's name.
    pub fn as_str(&self) -> (r: &str)
        ensures
            match self {
                OSArch::AMD64 => r@ == "AMD64"@,
                OSArch::ARMHF => r@ == "ARMHF"@,
                OSArch::I386 => r@ == "I386"@,
            },
    {
        match self {
            OSArch::AMD64 => "AMD64",
            OSArch::ARMHF => "ARMHF",
            OSArch::I386 => "I386",
        }
    }
}

pub const KIB_SIZE: u64 = 1024;

pub const MIB_SIZE: u64 = 1048576;

pub const GIB_SIZE: u64 = 1073741824;

/// The human-readable rendering of a byte count: the largest binary
/// unit for which the count exceeds ten of it, with the quotient
/// rounded down.
pub open spec fn spec_format_size(size: u64) -> Seq<char> {
    if size > 10 * 1073741824 {
        dec_digits(size as int / 1073741824) + " GiB"@
    } else if size > 10 * 1048576 {
        dec_digits(size as int / 1048576) + " MiB"@
    } else if size > 10 * 1024 {
        dec_digits(size as int / 1024) + " KiB"@
    } else {
        dec_digits(size as int) + " B"@
    }
}

/// Renders a byte count with a binary unit.
pub fn format_size_with_unit(size: u64) -> (r: String)
    ensures
        r@ == spec_format_size(size),
{
    if size > 10 * GIB_SIZE {
        let mut s = u64_to_dec(size / GIB_SIZE);
        s.append(" GiB");
        s
    } else if size > 10 * MIB_SIZE {
        let mut s = u64_to_dec(size / MIB_SIZE);
        s.append(" MiB");
        s
    } else if size > 10 * KIB_SIZE {
        let mut s = u64_to_dec(size / KIB_SIZE);
        s.append(" KiB");
        s
    } else {
        let mut s = u64_to_dec(size);
        s.append(" B");
        s
    }
}

} // verus!
