//! The checksum verifier: compares a computed digest of an artifact
//! against the configured expected digest, case-insensitively on the
//! hexadecimal rendering. Absence of an expected digest is not an error:
//! it means "trust by type-classification alone". Computing the digest
//! itself reads the artifact's bytes and happens outside this crate; the
//! comparison and its outcome are decided here.

use vstd::prelude::*;

use crate::error::{MigError, MigErrorKind};
use crate::file_ref::HashInfo;
use crate::strutil::{
    contains_seq, eq_ignore_ascii_case, lemma_contains_append, lemma_contains_extend, lower_code,
    str_eq_ignore_ascii_case,
};

verus! {

/// A hexadecimal digit, either case.
pub open spec fn is_hex_digit(c: char) -> bool {
    (48 <= c as u32 && c as u32 <= 57)  // '0' to '9'
    || (97 <= c as u32 && c as u32 <= 102)  // 'a' to 'f'
    || (65 <= c as u32 && c as u32 <= 70)  // 'A' to 'F'
}

/// The value of a hexadecimal digit.
pub open spec fn hex_val(c: char) -> int {
    if 48 <= c as u32 && c as u32 <= 57 {
        c as u32 - 48
    } else if 97 <= c as u32 && c as u32 <= 102 {
        c as u32 - 87
    } else {
        c as u32 - 55
    }
}

/// Compares the computed digest of the artifact at `path` against the
/// configured expectation. Succeeds exactly when the two hexadecimal
/// renderings are equal up to ASCII case; a mismatch is a hard
/// validation failure whose remark names the artifact, the algorithm,
/// and both values.
pub fn check_digest(path: &str, expected: &HashInfo, computed: &str) -> (r: Result<
    (),
    MigError,
>)
    ensures
        r is Ok <==> eq_ignore_ascii_case(computed@, expected.spec_hex()),
        r matches Err(e) ==> {
            &&& e.spec_kind() == MigErrorKind::InvParam
            &&& contains_seq(e.spec_remark(), path@)
            &&& contains_seq(e.spec_remark(), expected.spec_algorithm())
            &&& contains_seq(e.spec_remark(), expected.spec_hex())
            &&& contains_seq(e.spec_remark(), computed@)
        },
{
    if str_eq_ignore_ascii_case(computed, expected.hex()) {
        Ok(())
    } else {
        let mut remark = "checksum mismatch for '".to_owned();
        remark.append(path);
        proof {
            lemma_contains_append("checksum mismatch for '"@, path@);
        }
        let ghost g1 = remark@;
        remark.append("' (");
        let alg = expected.algorithm();
        remark.append(alg);
        proof {
            lemma_contains_extend(g1, "' ("@, path@);
            lemma_contains_extend(g1 + "' ("@, alg@, path@);
            lemma_contains_append(g1 + "' ("@, alg@);
            assert(remark@ == (g1 + "' ("@) + alg@);
        }
        let ghost g2 = remark@;
        remark.append("): expected '");
        let exp = expected.hex();
        remark.append(exp);
        proof {
            lemma_contains_extend(g2, "): expected '"@, path@);
            lemma_contains_extend(g2, "): expected '"@, expected.spec_algorithm());
            lemma_contains_extend(g2 + "): expected '"@, exp@, path@);
            lemma_contains_extend(g2 + "): expected '"@, exp@, expected.spec_algorithm());
            lemma_contains_append(g2 + "): expected '"@, exp@);
            assert(remark@ == (g2 + "): expected '"@) + exp@);
        }
        let ghost g3 = remark@;
        remark.append("', computed '");
        remark.append(computed);
        proof {
            lemma_contains_extend(g3, "', computed '"@, path@);
            lemma_contains_extend(g3, "', computed '"@, expected.spec_algorithm());
            lemma_contains_extend(g3, "', computed '"@, expected.spec_hex());
            lemma_contains_extend(g3 + "', computed '"@, computed@, path@);
            lemma_contains_extend(g3 + "', computed '"@, computed@, expected.spec_algorithm());
            lemma_contains_extend(g3 + "', computed '"@, computed@, expected.spec_hex());
            lemma_contains_append(g3 + "', computed '"@, computed@);
            assert(remark@ == (g3 + "', computed '"@) + computed@);
        }
        let ghost g4 = remark@;
        remark.append("'");
        proof {
            lemma_contains_extend(g4, "'"@, path@);
            lemma_contains_extend(g4, "'"@, expected.spec_algorithm());
            lemma_contains_extend(g4, "'"@, expected.spec_hex());
            lemma_contains_extend(g4, "'"@, computed@);
        }
        Err(MigError::from_remark(MigErrorKind::InvParam, remark.as_str()))
    }
}

/// Verifies an artifact against an optional expectation: absence of a
/// configured digest is not an error — it means trust by
/// type-classification alone.
pub fn check_ref_digest(path: &str, expected: &Option<HashInfo>, computed: &str) -> (r: Result<
    (),
    MigError,
>)
    ensures
        r is Ok <==> (expected matches Some(h) ==> eq_ignore_ascii_case(
            computed@,
            h.spec_hex(),
        )),
        r matches Err(e) ==> e.spec_kind() == MigErrorKind::InvParam && contains_seq(
            e.spec_remark(),
            path@,
        ) && contains_seq(e.spec_remark(), computed@) && (expected matches Some(h)
            && contains_seq(e.spec_remark(), h.spec_hex()) && contains_seq(
            e.spec_remark(),
            h.spec_algorithm(),
        )),
{
    match expected {
        None => Ok(()),
        Some(h) => check_digest(path, h, computed),
    }
}

/// Checksum law, mismatch half (the matching half — a digest equal to
/// the expectation up to case always verifies — is the `ensures` of
/// `check_digest` itself): changing any single hexadecimal
/// character of the expected digest to one of a different value makes
/// verification fail. (Changing only the case of a character keeps the
/// value and still verifies; that is the one change the law excludes.)
pub proof fn lemma_digest_flip(computed: Seq<char>, expected: Seq<char>, flipped: Seq<char>, i: int)
    requires
        eq_ignore_ascii_case(computed, expected),
        flipped.len() == expected.len(),
        0 <= i < expected.len(),
        forall|j: int| 0 <= j < expected.len() && j != i ==> flipped[j] == expected[j],
        is_hex_digit(expected[i]),
        is_hex_digit(flipped[i]),
        hex_val(flipped[i]) != hex_val(expected[i]),
    ensures
        !eq_ignore_ascii_case(computed, flipped),
{
    assert(lower_code(flipped[i]) != lower_code(expected[i]));
    assert(lower_code(computed[i]) == lower_code(expected[i]));
}

} // verus!
