//! The error model of the migrator: a structured kind plus a
//! human-readable remark. A terminal error whose message has already been
//! shown to the user is propagated as `Displayed`, so outer layers exit
//! without repeating it.

use vstd::prelude::*;

use crate::strutil::{contains_seq, lemma_contains_append, lemma_contains_extend};

verus! {

/// The taxonomy of failures this crate reports.
#[derive(Clone, Copy, Debug, PartialEq, Eq, Structural)]
pub enum MigErrorKind {
    /// A file, command, or document key is absent.
    NotFound,
    /// A malformed command-line or configuration value, a wrong value
    /// shape, or a failed classification match.
    InvParam,
    /// A wrapped I/O, subprocess, network, or parse failure from outside
    /// this crate's control.
    Upstream,
    /// An internal invariant was violated.
    InvState,
    /// A subprocess ran but exited abnormally.
    ExecProcess,
    /// The platform lacks a required capability.
    NotImpl,
    /// A terminal error whose message has already been shown to the user.
    Displayed,
}

/// A structured error: a kind and a remark for diagnostics.
#[derive(Clone, Debug)]
pub struct MigError {
    kind: MigErrorKind,
    remark: String,
}

impl MigError {
    /// Builds an error of the given kind with a remark.
    pub fn from_remark(kind: MigErrorKind, remark: &str) -> (r: MigError)
        ensures
            r.spec_kind() == kind,
            r.spec_remark() == remark@,
    {
        MigError { kind, remark: remark.to_owned() }
    }

    /// Builds an error of the given kind with an empty remark.
    pub fn from_kind(kind: MigErrorKind) -> (r: MigError)
        ensures
            r.spec_kind() == kind,
            r.spec_remark() == Seq::<char>::empty(),
    {
        MigError { kind, remark: String::new() }
    }

    /// Builds the error that marks a message as already reported to the
    /// user.
    pub fn displayed() -> (r: MigError)
        ensures
            r.spec_kind() == MigErrorKind::Displayed,
    {
        MigError { kind: MigErrorKind::Displayed, remark: String::new() }
    }

    /// The kind of this error.
    pub fn kind(&self) -> (k: MigErrorKind)
        ensures
            k == self.spec_kind(),
    {
        self.kind
    }

    /// The diagnostic remark of this error.
    pub fn remark(&self) -> (r: &str)
        ensures
            r@ == self.spec_remark(),
    {
        self.remark.as_str()
    }

    /// Builds an error whose remark is `before + subject + after`, and
    /// which therefore names the subject.
    pub fn naming(kind: MigErrorKind, before: &str, subject: &str, after: &str) -> (r: MigError)
        ensures
            r.spec_kind() == kind,
            contains_seq(r.spec_remark(), subject@),
    {
        let mut remark = before.to_owned();
        remark.append(subject);
        proof {
            lemma_contains_append(before@, subject@);
        }
        let ghost mid = remark@;
        remark.append(after);
        proof {
            lemma_contains_extend(mid, after@, subject@);
        }
        MigError::from_remark(kind, remark.as_str())
    }

    /// The kind, as seen by specifications.
    pub closed spec fn spec_kind(&self) -> MigErrorKind {
        self.kind
    }

    /// The remark, as seen by specifications.
    pub closed spec fn spec_remark(&self) -> Seq<char> {
        self.remark@
    }
}

} // verus!
