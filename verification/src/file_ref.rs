//! A reference to a configured artifact: a path, relative or absolute,
//! and an optional expected digest. When a digest is configured, the
//! artifact's computed digest under that algorithm must equal it exactly
//! (hex compare up to case) before the artifact may be used.

use vstd::prelude::*;

verus! {

/// An expected digest: the algorithm together with the expected value in
/// hexadecimal. Legacy-weak algorithms are accepted as configured
/// checksums by design.
#[derive(Clone, Debug, PartialEq, Eq)]
pub enum HashInfo {
    Md5(String),
    Sha1(String),
}

impl HashInfo {
    /// The expected hexadecimal value, whatever the algorithm.
    pub fn hex(&self) -> (r: &str)
        ensures
            r@ == self.spec_hex(),
    {
        match self {
            HashInfo::Md5(h) => h.as_str(),
            HashInfo::Sha1(h) => h.as_str(),
        }
    }

    /// The expected hexadecimal value, as seen by specifications.
    pub open spec fn spec_hex(&self) -> Seq<char> {
        match self {
            HashInfo::Md5(h) => h@,
            HashInfo::Sha1(h) => h@,
        }
    }

    /// The name of the algorithm, as seen by specifications.
    pub open spec fn spec_algorithm(&self) -> Seq<char> {
        match self {
            HashInfo::Md5(_) => "md5"@,
            HashInfo::Sha1(_) => "sha1"@,
        }
    }

    /// The name of the algorithm.
    pub fn algorithm(&self) -> (r: &str)
        ensures
            r@ == self.spec_algorithm(),
    {
        match self {
            HashInfo::Md5(_) => "md5",
            HashInfo::Sha1(_) => "sha1",
        }
    }
}

/// A configured file reference: a path and an optional expected digest.
#[derive(Clone, Debug, PartialEq, Eq)]
pub struct FileRef {
    pub path: String,
    pub hash: Option<HashInfo>,
}

impl FileRef {
    /// A reference to a bare path, with no expected digest.
    pub fn from_path(path: &str) -> (r: FileRef)
        ensures
            r.path@ == path@,
            r.hash is None,
    {
        FileRef { path: path.to_owned(), hash: None }
    }
}

} // verus!
