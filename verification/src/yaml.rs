//! Reading the on-disk configuration document. serde_yaml parses the
//! YAML text and the untyped result is carried across the trust
//! boundary once, as a library-owned plain tree; that tree is a
//! function of the text alone, so it carries a name that the trusted
//! wrapper's contract applies. The walk over the tree, the shape
//! checks, and the construction of the typed configuration are
//! verified against exact contracts over that tree. Unrecognised keys
//! are tolerated, so forward-compatible documents parse.

use vstd::prelude::*;

use crate::balena_config::{
    BalenaConfig, FsConfig, ImageType, DEFAULT_API_PORT, DEFAULT_CHECK_TIMEOUT,
};
use crate::debug_config::DebugConfig;
use crate::error::{MigError, MigErrorKind};
use crate::file_ref::{FileRef, HashInfo};
use crate::migrate_config::{
    spec_fail_mode_of_str, spec_mode_of_str, BackupItem, BackupVolume, FailMode, LogConfig,
    MigMode, MigrateConfig,
};

verus! {

/// A YAML document as plain values: nulls, booleans, non-negative
/// integers, strings, sequences, and string-keyed mappings in document
/// order. Everything else the document language can express — floats,
/// negative numbers, out-of-range integers — appears as `Other`: the
/// configuration schema has no use for it, and a typed read of such a
/// value is rejected as the wrong shape.
#[derive(Debug, PartialEq, Eq)]
pub enum YamlNode {
    Null,
    Bool(bool),
    UInt(u64),
    Str(String),
    Items(Vec<YamlNode>),
    Entries(Vec<(String, YamlNode)>),
    Other,
}

#[verifier::external_type_specification]
#[verifier::external_body]
pub struct ExYamlValue(serde_yaml::Value);

#[verifier::external_type_specification]
#[verifier::external_body]
pub struct ExYamlNumber(serde_yaml::Number);

#[verifier::external_type_specification]
#[verifier::external_body]
pub struct ExYamlMapping(serde_yaml::Mapping);

/// The plain tree the YAML text parses to; `None` when the text is not
/// well-formed YAML. A function of the text alone: serde_yaml keeps
/// mapping entries in document order, and every value classifies the
/// same way on every machine.
pub uninterp spec fn yaml_tree_of(s: Seq<char>) -> Option<YamlNode>;

/// Relies on serde_yaml::from_str::<serde_yaml::Value>: parses the
/// document and hands it across as a plain tree.
#[verifier::external_body]
pub fn yaml_parse_tree(s: &str) -> (r: Option<YamlNode>)
    ensures
        match r {
            Some(t) => yaml_tree_of(s@) == Some(t),
            None => yaml_tree_of(s@) is None,
        },
{
    match serde_yaml::from_str::<serde_yaml::Value>(s) {
        Ok(v) => Some(yaml_node_from(v, 64)),
        Err(_) => None,
    }
}

/// Relies on serde_yaml::Value's own shape: carries one parsed value
/// across as a plain node, arm by arm. Helper of `yaml_parse_tree`;
/// nesting beyond the depth bound folds to `Other`, keeping the result
/// a function of the input.
#[verifier::external_body]
fn yaml_node_from(v: serde_yaml::Value, depth: u32) -> YamlNode {
    if depth == 0 {
        return YamlNode::Other;
    }
    match v {
        serde_yaml::Value::Null => YamlNode::Null,
        serde_yaml::Value::Bool(b) => YamlNode::Bool(b),
        serde_yaml::Value::Number(n) => yaml_number_from(n),
        serde_yaml::Value::String(t) => YamlNode::Str(t),
        serde_yaml::Value::Sequence(items) => yaml_items_from(items, depth),
        serde_yaml::Value::Mapping(m) => yaml_entries_from(m, depth),
        serde_yaml::Value::Tagged(t) => yaml_node_from(t.value, depth - 1),
    }
}

/// Relies on serde_yaml::Number::as_u64: a non-negative integer comes
/// across as itself, any other number as `Other`.
#[verifier::external_body]
fn yaml_number_from(n: serde_yaml::Number) -> YamlNode {
    match n.as_u64() {
        Some(u) => YamlNode::UInt(u),
        None => YamlNode::Other,
    }
}

/// Carries a parsed sequence across, element by element.
#[verifier::external_body]
fn yaml_items_from(items: Vec<serde_yaml::Value>, depth: u32) -> YamlNode {
    YamlNode::Items(items.into_iter().map(|x| yaml_node_from(x, depth - 1)).collect())
}

/// Relies on serde_yaml::Mapping's iteration order (the document's
/// own): carries a parsed mapping across, entry by entry.
#[verifier::external_body]
fn yaml_entries_from(m: serde_yaml::Mapping, depth: u32) -> YamlNode {
    YamlNode::Entries(
        m.into_iter().map(|(k, x)| (yaml_key_from(k), yaml_node_from(x, depth - 1))).collect(),
    )
}

/// A mapping key comes across as its string; the configuration schema
/// has no non-string keys, so any other key folds to the empty string.
#[verifier::external_body]
fn yaml_key_from(k: serde_yaml::Value) -> String {
    match k {
        serde_yaml::Value::String(t) => t,
        _ => String::new(),
    }
}

/// `i` is the first index at which the mapping holds the key.
pub open spec fn spec_pair_at(ps: Seq<(String, YamlNode)>, key: Seq<char>, i: int) -> bool {
    0 <= i < ps.len() && ps[i].0@ == key && forall|j: int| 0 <= j < i ==> ps[j].0@ != key
}

/// The value under the key, taken at its first occurrence.
pub open spec fn spec_pair_lookup(ps: Seq<(String, YamlNode)>, key: Seq<char>) -> Option<
    YamlNode,
> {
    if exists|i: int| spec_pair_at(ps, key, i) {
        Some(ps[choose|i: int| spec_pair_at(ps, key, i)].1)
    } else {
        None
    }
}

/// Two first occurrences of one key are the same occurrence.
pub proof fn lemma_pair_at_unique(ps: Seq<(String, YamlNode)>, key: Seq<char>, i: int, j: int)
    requires
        spec_pair_at(ps, key, i),
        spec_pair_at(ps, key, j),
    ensures
        i == j,
{
    if i < j {
        assert(ps[i].0@ == key);
    } else if j < i {
        assert(ps[j].0@ == key);
    }
}

/// The value under a mapping key: `None` when the node is no mapping
/// or has no such key.
pub open spec fn spec_field(n: YamlNode, key: Seq<char>) -> Option<YamlNode> {
    match n {
        YamlNode::Entries(ps) => spec_pair_lookup(ps@, key),
        _ => None,
    }
}

/// The node a sub-tree key selects, with absence and explicit null
/// folded into `Null`: every reader treats both as unset.
pub open spec fn spec_sub(n: YamlNode, key: Seq<char>) -> YamlNode {
    match spec_field(n, key) {
        Some(x) => x,
        None => YamlNode::Null,
    }
}

/// The string under a key, when the key holds one.
pub open spec fn spec_str_field(n: YamlNode, key: Seq<char>) -> Option<String> {
    match spec_field(n, key) {
        Some(YamlNode::Str(s)) => Some(s),
        _ => None,
    }
}

/// A string field is well-shaped when it is absent, null, or a string.
pub open spec fn spec_str_field_ok(n: YamlNode, key: Seq<char>) -> bool {
    match spec_field(n, key) {
        Some(x) => x is Null || x is Str,
        None => true,
    }
}

/// The non-negative integer under a key, when the key holds one.
pub open spec fn spec_u64_field(n: YamlNode, key: Seq<char>) -> Option<u64> {
    match spec_field(n, key) {
        Some(YamlNode::UInt(u)) => Some(u),
        _ => None,
    }
}

/// An integer field is well-shaped when it is absent, null, or a
/// non-negative integer.
pub open spec fn spec_u64_field_ok(n: YamlNode, key: Seq<char>) -> bool {
    match spec_field(n, key) {
        Some(x) => x is Null || x is UInt,
        None => true,
    }
}

/// The boolean under a key, when the key holds one.
pub open spec fn spec_bool_field(n: YamlNode, key: Seq<char>) -> Option<bool> {
    match spec_field(n, key) {
        Some(YamlNode::Bool(b)) => Some(b),
        _ => None,
    }
}

/// A boolean field is well-shaped when it is absent, null, or a
/// boolean.
pub open spec fn spec_bool_field_ok(n: YamlNode, key: Seq<char>) -> bool {
    match spec_field(n, key) {
        Some(x) => x is Null || x is Bool,
        None => true,
    }
}

/// A list node matches a string list when it is the sequence of
/// exactly those strings; `Null` matches the empty list.
pub open spec fn spec_str_list_matches(x: YamlNode, lst: Seq<String>) -> bool {
    match x {
        YamlNode::Null => lst == Seq::<String>::empty(),
        YamlNode::Items(v) => v@.len() == lst.len() && (forall|i: int|
            0 <= i < v@.len() ==> ((#[trigger] v@[i]) matches YamlNode::Str(s) && lst[i] == s)),
        _ => false,
    }
}

/// A list node is well-shaped when it is null or a sequence of
/// strings.
pub open spec fn spec_str_list_ok(x: YamlNode) -> bool {
    match x {
        YamlNode::Null => true,
        YamlNode::Items(v) => forall|i: int| 0 <= i < v@.len() ==> (#[trigger] v@[i]) is Str,
        _ => false,
    }
}

/// Finds the value under a mapping key, at its first occurrence.
pub fn node_field<'a>(n: &'a YamlNode, key: &str) -> (r: Option<&'a YamlNode>)
    ensures
        match r {
            Some(x) => spec_field(*n, key@) == Some(*x),
            None => spec_field(*n, key@) is None,
        },
{
    match n {
        YamlNode::Entries(ps) => {
            let m = ps.len();
            let mut i: usize = 0;
            while i < m
                invariant
                    m == ps@.len(),
                    0 <= i <= m,
                    *n == YamlNode::Entries(*ps),
                    forall|k: int| 0 <= k < i ==> ps@[k].0@ != key@,
                decreases m - i,
            {
                let pair = &ps[i];
                if pair.0 == key.to_owned() {
                    proof {
                        assert(spec_pair_at(ps@, key@, i as int));
                        let j = choose|j: int| spec_pair_at(ps@, key@, j);
                        lemma_pair_at_unique(ps@, key@, i as int, j);
                        assert(spec_pair_lookup(ps@, key@) == Some(ps@[i as int].1));
                        assert(spec_field(*n, key@) == Some(ps@[i as int].1));
                    }
                    return Some(&pair.1);
                }
                i += 1;
            }
            proof {
                if exists|j: int| spec_pair_at(ps@, key@, j) {
                    let j = choose|j: int| spec_pair_at(ps@, key@, j);
                    assert(ps@[j].0@ == key@);
                }
            }
            None
        },
        _ => None,
    }
}

/// A string field: absent and null keys count as unset; a key present
/// with another shape is an invalid parameter naming the key.
pub fn get_yaml_str(n: &YamlNode, key: &str) -> (r: Result<Option<String>, MigError>)
    ensures
        r is Ok <==> spec_str_field_ok(*n, key@),
        r matches Ok(o) ==> o == spec_str_field(*n, key@),
        r matches Err(e) ==> e.spec_kind() == MigErrorKind::InvParam && crate::strutil::contains_seq(
            e.spec_remark(),
            key@,
        ),
{
    match node_field(n, key) {
        None => Ok(None),
        Some(x) => match x {
            YamlNode::Null => Ok(None),
            YamlNode::Str(s) => Ok(Some(s.clone())),
            _ => Err(
                MigError::naming(
                    MigErrorKind::InvParam,
                    "invalid type for key '",
                    key,
                    "', expected a string",
                ),
            ),
        },
    }
}

/// A non-negative integer field, with the same tolerance rules.
pub fn get_yaml_u64(n: &YamlNode, key: &str) -> (r: Result<Option<u64>, MigError>)
    ensures
        r is Ok <==> spec_u64_field_ok(*n, key@),
        r matches Ok(o) ==> o == spec_u64_field(*n, key@),
        r matches Err(e) ==> e.spec_kind() == MigErrorKind::InvParam && crate::strutil::contains_seq(
            e.spec_remark(),
            key@,
        ),
{
    match node_field(n, key) {
        None => Ok(None),
        Some(x) => match x {
            YamlNode::Null => Ok(None),
            YamlNode::UInt(u) => Ok(Some(*u)),
            _ => Err(
                MigError::naming(
                    MigErrorKind::InvParam,
                    "invalid type for key '",
                    key,
                    "', expected an unsigned integer",
                ),
            ),
        },
    }
}

/// A boolean field, with the same tolerance rules.
pub fn get_yaml_bool(n: &YamlNode, key: &str) -> (r: Result<Option<bool>, MigError>)
    ensures
        r is Ok <==> spec_bool_field_ok(*n, key@),
        r matches Ok(o) ==> o == spec_bool_field(*n, key@),
        r matches Err(e) ==> e.spec_kind() == MigErrorKind::InvParam && crate::strutil::contains_seq(
            e.spec_remark(),
            key@,
        ),
{
    match node_field(n, key) {
        None => Ok(None),
        Some(x) => match x {
            YamlNode::Null => Ok(None),
            YamlNode::Bool(b) => Ok(Some(*b)),
            _ => Err(
                MigError::naming(
                    MigErrorKind::InvParam,
                    "invalid type for key '",
                    key,
                    "', expected a boolean",
                ),
            ),
        },
    }
}

/// A sequence-of-strings field, with the same tolerance rules.
pub fn get_yaml_str_seq(n: &YamlNode, key: &str) -> (r: Result<Option<Vec<String>>, MigError>)
    ensures
        r is Ok <==> spec_str_list_ok(spec_sub(*n, key@)),
        r matches Ok(o) ==> match o {
            Some(lst) => spec_sub(*n, key@) is Items && spec_str_list_matches(
                spec_sub(*n, key@),
                lst@,
            ),
            None => spec_sub(*n, key@) is Null,
        },
        r matches Err(e) ==> e.spec_kind() == MigErrorKind::InvParam && crate::strutil::contains_seq(
            e.spec_remark(),
            key@,
        ),
{
    match node_field(n, key) {
        None => Ok(None),
        Some(x) => match x {
            YamlNode::Null => Ok(None),
            YamlNode::Items(items) => {
                let m = items.len();
                let mut out: Vec<String> = Vec::new();
                let mut i: usize = 0;
                while i < m
                    invariant
                        m == items@.len(),
                        0 <= i <= m,
                        out@.len() == i,
                        spec_sub(*n, key@) == YamlNode::Items(*items),
                        forall|k: int|
                            0 <= k < i ==> ((#[trigger] items@[k]) matches YamlNode::Str(s)
                                && out@[k] == s),
                    decreases m - i,
                {
                    match &items[i] {
                        YamlNode::Str(s) => out.push(s.clone()),
                        _ => {
                            proof {
                                assert(!(items@[i as int] is Str));
                                assert(!spec_str_list_ok(spec_sub(*n, key@)));
                            }
                            return Err(
                                MigError::naming(
                                    MigErrorKind::InvParam,
                                    "invalid type for key '",
                                    key,
                                    "', expected a sequence of strings",
                                ),
                            );
                        },
                    }
                    i += 1;
                }
                proof {
                    assert(spec_str_list_ok(spec_sub(*n, key@)));
                    assert(spec_str_list_matches(spec_sub(*n, key@), out@));
                }
                Ok(Some(out))
            },
            _ => Err(
                MigError::naming(
                    MigErrorKind::InvParam,
                    "invalid type for key '",
                    key,
                    "', expected a sequence",
                ),
            ),
        },
    }
}

/// The file reference a node describes: a bare path string, or a
/// mapping with a `path` and an optional `hash` carrying an `md5` or
/// `sha1` value (`md5` is read first).
pub open spec fn spec_file_ref_of(n: YamlNode) -> Option<FileRef> {
    match n {
        YamlNode::Str(p) => Some(FileRef { path: p, hash: None }),
        _ => match spec_str_field(n, "path"@) {
            Some(p) => match spec_field(n, "hash"@) {
                None => Some(FileRef { path: p, hash: None }),
                Some(h) => if h is Null {
                    Some(FileRef { path: p, hash: None })
                } else {
                    match spec_str_field(h, "md5"@) {
                        Some(m) => Some(FileRef { path: p, hash: Some(HashInfo::Md5(m)) }),
                        None => match spec_str_field(h, "sha1"@) {
                            Some(m) => Some(FileRef { path: p, hash: Some(HashInfo::Sha1(m)) }),
                            None => None,
                        },
                    }
                },
            },
            None => None,
        },
    }
}

/// Whether a node is a well-shaped file reference.
pub open spec fn spec_file_ref_ok(n: YamlNode) -> bool {
    match n {
        YamlNode::Str(_) => true,
        _ => {
            &&& spec_str_field_ok(n, "path"@)
            &&& spec_str_field(n, "path"@) is Some
            &&& (match spec_field(n, "hash"@) {
                None => true,
                Some(h) => h is Null || ({
                    &&& spec_str_field_ok(h, "md5"@)
                    &&& (spec_str_field(h, "md5"@) is Some || (spec_str_field_ok(h, "sha1"@)
                        && spec_str_field(h, "sha1"@) is Some))
                }),
            })
        },
    }
}

/// Reads a file reference.
pub fn file_ref_from_yaml(n: &YamlNode, key: &str) -> (r: Result<FileRef, MigError>)
    ensures
        r is Ok <==> spec_file_ref_ok(*n),
        r matches Ok(f) ==> spec_file_ref_of(*n) == Some(f),
        r matches Err(e) ==> e.spec_kind() == MigErrorKind::InvParam,
{
    if let YamlNode::Str(p) = n {
        return Ok(FileRef { path: p.clone(), hash: None });
    }
    let path = match get_yaml_str(n, "path")? {
        Some(p) => p,
        None => {
            return Err(
                MigError::naming(
                    MigErrorKind::InvParam,
                    "invalid file reference for key '",
                    key,
                    "', expected a path or a mapping with a 'path'",
                ),
            );
        },
    };
    let hash: Option<HashInfo> = match node_field(n, "hash") {
        None => None,
        Some(h) => {
            if let YamlNode::Null = h {
                None
            } else if let Some(md5) = get_yaml_str(h, "md5")? {
                Some(HashInfo::Md5(md5))
            } else if let Some(sha1) = get_yaml_str(h, "sha1")? {
                Some(HashInfo::Sha1(sha1))
            } else {
                return Err(
                    MigError::naming(
                        MigErrorKind::InvParam,
                        "invalid hash for key '",
                        key,
                        "', expected a mapping with an 'md5' or 'sha1'",
                    ),
                );
            }
        },
    };
    Ok(FileRef { path, hash })
}

/// A backup item is a mapping with a `source` and optional `target`
/// and `filter` strings.
pub open spec fn spec_backup_item_ok(it: YamlNode) -> bool {
    &&& spec_str_field_ok(it, "source"@)
    &&& spec_str_field(it, "source"@) is Some
    &&& spec_str_field_ok(it, "target"@)
    &&& spec_str_field_ok(it, "filter"@)
}

/// What a backup item holds.
pub open spec fn spec_backup_item_matches(it: YamlNode, bi: BackupItem) -> bool {
    &&& Some(bi.source) == spec_str_field(it, "source"@)
    &&& bi.target == spec_str_field(it, "target"@)
    &&& bi.filter == spec_str_field(it, "filter"@)
}

/// Every node of a backup item list is a well-shaped item.
pub open spec fn spec_backup_items_ok(xs: Seq<YamlNode>) -> bool {
    forall|j: int| 0 <= j < xs.len() ==> spec_backup_item_ok(xs[j])
}

/// An item list matches the backup items read from it, element by
/// element.
pub open spec fn spec_backup_items_match(xs: Seq<YamlNode>, items: Seq<BackupItem>) -> bool {
    xs.len() == items.len() && (forall|j: int|
        0 <= j < xs.len() ==> spec_backup_item_matches(xs[j], items[j]))
}

/// A backup volume is a mapping with a `volume` name and an optional
/// sequence of well-shaped items.
pub open spec fn spec_backup_volume_ok(v: YamlNode) -> bool {
    &&& spec_str_field_ok(v, "volume"@)
    &&& spec_str_field(v, "volume"@) is Some
    &&& (match spec_field(v, "items"@) {
        None => true,
        Some(x) => match x {
            YamlNode::Null => true,
            YamlNode::Items(xs) => spec_backup_items_ok(xs@),
            _ => false,
        },
    })
}

/// What a backup volume holds.
pub open spec fn spec_backup_volume_matches(v: YamlNode, bv: BackupVolume) -> bool {
    &&& Some(bv.volume) == spec_str_field(v, "volume"@)
    &&& (match spec_field(v, "items"@) {
        None => bv.items@ == Seq::<BackupItem>::empty(),
        Some(x) => match x {
            YamlNode::Null => bv.items@ == Seq::<BackupItem>::empty(),
            YamlNode::Items(xs) => spec_backup_items_match(xs@, bv.items@),
            _ => false,
        },
    })
}

/// Every node of a backup list is a well-shaped volume.
pub open spec fn spec_backup_vols_ok(vs: Seq<YamlNode>) -> bool {
    forall|i: int| 0 <= i < vs.len() ==> spec_backup_volume_ok(vs[i])
}

/// A volume list matches the backup volumes read from it, element by
/// element.
pub open spec fn spec_backup_vols_match(vs: Seq<YamlNode>, vols: Seq<BackupVolume>) -> bool {
    vs.len() == vols.len() && (forall|i: int|
        0 <= i < vs.len() ==> spec_backup_volume_matches(vs[i], vols[i]))
}

/// The backup list is well-shaped when it is a sequence of well-shaped
/// volumes.
pub open spec fn spec_backup_ok(b: YamlNode) -> bool {
    match b {
        YamlNode::Items(vs) => spec_backup_vols_ok(vs@),
        _ => false,
    }
}

/// Reads one backup item.
fn backup_item_from_yaml(it: &YamlNode) -> (r: Result<BackupItem, MigError>)
    ensures
        r is Ok <==> spec_backup_item_ok(*it),
        r matches Ok(bi) ==> spec_backup_item_matches(*it, bi),
        r matches Err(e) ==> e.spec_kind() == MigErrorKind::InvParam,
{
    let source = match get_yaml_str(it, "source")? {
        Some(s) => s,
        None => {
            return Err(
                MigError::from_remark(
                    MigErrorKind::InvParam,
                    "a backup item needs a 'source'",
                ),
            );
        },
    };
    let target = get_yaml_str(it, "target")?;
    let filter = get_yaml_str(it, "filter")?;
    Ok(BackupItem { source, target, filter })
}

/// Reads one backup volume.
fn backup_volume_from_yaml(vol: &YamlNode) -> (r: Result<BackupVolume, MigError>)
    ensures
        r is Ok <==> spec_backup_volume_ok(*vol),
        r matches Ok(bv) ==> spec_backup_volume_matches(*vol, bv),
        r matches Err(e) ==> e.spec_kind() == MigErrorKind::InvParam,
{
    let name = match get_yaml_str(vol, "volume")? {
        Some(s) => s,
        None => {
            return Err(
                MigError::from_remark(
                    MigErrorKind::InvParam,
                    "a backup volume needs a 'volume' name",
                ),
            );
        },
    };
    let mut items: Vec<BackupItem> = Vec::new();
    match node_field(vol, "items") {
        None => {},
        Some(x) => match x {
            YamlNode::Null => {},
            YamlNode::Items(xs) => {
                let m = xs.len();
                let mut j: usize = 0;
                while j < m
                    invariant
                        m == xs@.len(),
                        0 <= j <= m,
                        items@.len() == j,
                        spec_field(*vol, "items"@) == Some(YamlNode::Items(*xs)),
                        forall|k: int|
                            0 <= k < j ==> spec_backup_item_ok(xs@[k]) && spec_backup_item_matches(
                                xs@[k],
                                items@[k],
                            ),
                    decreases m - j,
                {
                    match backup_item_from_yaml(&xs[j]) {
                        Ok(bi) => items.push(bi),
                        Err(e) => {
                            proof {
                                assert(!spec_backup_item_ok(xs@[j as int]));
                                assert(!spec_backup_items_ok(xs@));
                                assert(!spec_backup_volume_ok(*vol));
                            }
                            return Err(e);
                        },
                    }
                    j += 1;
                }
            },
            _ => {
                return Err(
                    MigError::from_remark(
                        MigErrorKind::InvParam,
                        "a backup volume's 'items' must be a sequence",
                    ),
                );
            },
        },
    }
    Ok(BackupVolume { volume: name, items })
}

/// Reads the backup volume list.
fn backup_from_yaml(b: &YamlNode) -> (r: Result<Vec<BackupVolume>, MigError>)
    ensures
        r is Ok <==> spec_backup_ok(*b),
        r matches Ok(v) ==> (*b matches YamlNode::Items(vs) && spec_backup_vols_match(vs@, v@)),
        r matches Err(e) ==> e.spec_kind() == MigErrorKind::InvParam,
{
    match b {
        YamlNode::Items(vols) => {
            let m = vols.len();
            let mut out: Vec<BackupVolume> = Vec::new();
            let mut i: usize = 0;
            while i < m
                invariant
                    m == vols@.len(),
                    0 <= i <= m,
                    out@.len() == i,
                    *b == YamlNode::Items(*vols),
                    forall|k: int|
                        0 <= k < i ==> spec_backup_volume_ok(vols@[k])
                            && spec_backup_volume_matches(vols@[k], out@[k]),
                decreases m - i,
            {
                match backup_volume_from_yaml(&vols[i]) {
                    Ok(bv) => out.push(bv),
                    Err(e) => {
                        proof {
                            assert(!spec_backup_volume_ok(vols@[i as int]));
                            assert(!spec_backup_vols_ok(vols@));
                            assert(!spec_backup_ok(*b));
                        }
                        return Err(e);
                    },
                }
                i += 1;
            }
            Ok(out)
        },
        _ => Err(
            MigError::from_remark(MigErrorKind::InvParam, "'backup' must be a sequence"),
        ),
    }
}

/// Whether the `migrate` node is well-shaped: every recognised key
/// holds a value of its type (or is absent or null), and the mode and
/// fail-mode strings name a mode.
pub open spec fn spec_migrate_ok(n: YamlNode) -> bool {
    &&& spec_str_field_ok(n, "work_dir"@)
    &&& spec_str_field_ok(n, "mode"@)
    &&& (match spec_str_field(n, "mode"@) {
        Some(m) => spec_mode_of_str(m@) is Some,
        None => true,
    })
    &&& spec_u64_field_ok(n, "reboot"@)
    &&& spec_bool_field_ok(n, "all_wifis"@)
    &&& spec_str_list_ok(spec_sub(n, "wifis"@))
    &&& ({
        let l = spec_sub(n, "log"@);
        l is Null || (spec_bool_field_ok(l, "console"@) && spec_str_field_ok(l, "drive"@)
            && spec_str_field_ok(l, "level"@))
    })
    &&& ({
        let k = spec_sub(n, "kernel"@);
        k is Null || spec_file_ref_ok(k)
    })
    &&& ({
        let k = spec_sub(n, "initrd"@);
        k is Null || spec_file_ref_ok(k)
    })
    &&& spec_str_field_ok(n, "force_slug"@)
    &&& ({
        let b = spec_sub(n, "backup"@);
        b is Null || spec_backup_ok(b)
    })
    &&& spec_str_field_ok(n, "fail_mode"@)
    &&& (match spec_str_field(n, "fail_mode"@) {
        Some(m) => spec_fail_mode_of_str(m@) is Some,
        None => true,
    })
    &&& spec_str_list_ok(spec_sub(n, "nwmgr_files"@))
    &&& spec_bool_field_ok(n, "gzip_internal"@)
    &&& spec_str_field_ok(n, "kernel_opts"@)
    &&& spec_u64_field_ok(n, "delay"@)
    &&& spec_bool_field_ok(n, "require_nwmgr_config"@)
}

/// What the persistent-log target read from a node holds; the `Null`
/// node leaves every field unset.
pub open spec fn spec_log_matches(l: YamlNode, lc: LogConfig) -> bool {
    &&& lc.console == (match spec_bool_field(l, "console"@) {
        Some(b) => b,
        None => false,
    })
    &&& lc.drive == spec_str_field(l, "drive"@)
    &&& lc.level == spec_str_field(l, "level"@)
}

/// What a kernel or initramfs reference read from a node holds; the
/// `Null` node keeps the empty default reference.
pub open spec fn spec_ref_matches(k: YamlNode, f: FileRef) -> bool {
    match k {
        YamlNode::Null => f.path@ == Seq::<char>::empty() && f.hash is None,
        _ => spec_file_ref_of(k) == Some(f),
    }
}

/// What the backup list read from a node holds; the `Null` node keeps
/// the empty default.
pub open spec fn spec_backup_matches(b: YamlNode, vols: Seq<BackupVolume>) -> bool {
    match b {
        YamlNode::Null => vols == Seq::<BackupVolume>::empty(),
        YamlNode::Items(vs) => spec_backup_vols_match(vs@, vols),
        _ => false,
    }
}

/// What the `migrate` sub-tree read from a well-shaped node holds:
/// every recognised key updates its field, every absent key keeps the
/// compiled-in default, a reboot delay of zero means "do not
/// auto-reboot", and unrecognised keys are ignored.
pub open spec fn spec_migrate_matches(n: YamlNode, c: MigrateConfig) -> bool {
    &&& c.work_dir == spec_str_field(n, "work_dir"@)
    &&& (match spec_str_field(n, "mode"@) {
        Some(m) => spec_mode_of_str(m@) == Some(c.mode),
        None => c.mode == MigMode::Invalid,
    })
    &&& c.reboot == (match spec_u64_field(n, "reboot"@) {
        Some(x) => if x > 0 {
            Some(x)
        } else {
            None
        },
        None => None::<u64>,
    })
    &&& c.all_wifis == (match spec_bool_field(n, "all_wifis"@) {
        Some(b) => b,
        None => false,
    })
    &&& spec_str_list_matches(spec_sub(n, "wifis"@), c.wifis@)
    &&& spec_log_matches(spec_sub(n, "log"@), c.log)
    &&& spec_ref_matches(spec_sub(n, "kernel"@), c.kernel)
    &&& spec_ref_matches(spec_sub(n, "initrd"@), c.initrd)
    &&& c.force_slug == spec_str_field(n, "force_slug"@)
    &&& spec_backup_matches(spec_sub(n, "backup"@), c.backup_volumes@)
    &&& (match spec_str_field(n, "fail_mode"@) {
        Some(m) => spec_fail_mode_of_str(m@) == Some(c.fail_mode),
        None => c.fail_mode == FailMode::Reboot,
    })
    &&& spec_str_list_matches(spec_sub(n, "nwmgr_files"@), c.nwmgr_files@)
    &&& c.gzip_internal == (match spec_bool_field(n, "gzip_internal"@) {
        Some(b) => b,
        None => true,
    })
    &&& c.kernel_opts == spec_str_field(n, "kernel_opts"@)
    &&& c.delay == (match spec_u64_field(n, "delay"@) {
        Some(x) => x,
        None => 0,
    })
    &&& c.require_nwmgr_config == (match spec_bool_field(n, "require_nwmgr_config"@) {
        Some(b) => b,
        None => true,
    })
}

/// The `migrate` sub-tree from its document node.
#[verifier::rlimit(100)]
#[verifier::spinoff_prover]
pub fn migrate_config_from_yaml(v: &YamlNode) -> (r: Result<MigrateConfig, MigError>)
    ensures
        r is Ok <==> spec_migrate_ok(*v),
        r matches Ok(c) ==> spec_migrate_matches(*v, c),
        r matches Err(e) ==> e.spec_kind() == MigErrorKind::InvParam,
{
    let work_dir = get_yaml_str(v, "work_dir")?;
    let mode = match get_yaml_str(v, "mode")? {
        Some(m) => MigMode::from_str(m.as_str())?,
        None => MigMode::Invalid,
    };
    let reboot = match get_yaml_u64(v, "reboot")? {
        Some(x) => if x > 0 {
            Some(x)
        } else {
            None
        },
        None => None,
    };
    let all_wifis = match get_yaml_bool(v, "all_wifis")? {
        Some(b) => b,
        None => false,
    };
    let wifis = match get_yaml_str_seq(v, "wifis")? {
        Some(w) => w,
        None => Vec::new(),
    };
    let log = match node_field(v, "log") {
        Some(l) => {
            if let YamlNode::Null = l {
                LogConfig::unset()
            } else {
                let console = match get_yaml_bool(l, "console")? {
                    Some(b) => b,
                    None => false,
                };
                LogConfig { console, drive: get_yaml_str(l, "drive")?, level: get_yaml_str(
                    l,
                    "level",
                )? }
            }
        },
        None => LogConfig::unset(),
    };
    let kernel = match node_field(v, "kernel") {
        Some(k) => {
            if let YamlNode::Null = k {
                FileRef { path: String::new(), hash: None }
            } else {
                file_ref_from_yaml(k, "kernel")?
            }
        },
        None => FileRef { path: String::new(), hash: None },
    };
    let initrd = match node_field(v, "initrd") {
        Some(k) => {
            if let YamlNode::Null = k {
                FileRef { path: String::new(), hash: None }
            } else {
                file_ref_from_yaml(k, "initrd")?
            }
        },
        None => FileRef { path: String::new(), hash: None },
    };
    let force_slug = get_yaml_str(v, "force_slug")?;
    let backup_volumes = match node_field(v, "backup") {
        Some(b) => {
            if let YamlNode::Null = b {
                Vec::new()
            } else {
                backup_from_yaml(b)?
            }
        },
        None => Vec::new(),
    };
    let fail_mode = match get_yaml_str(v, "fail_mode")? {
        Some(m) => FailMode::from_str(m.as_str())?,
        None => FailMode::Reboot,
    };
    let nwmgr_files = match get_yaml_str_seq(v, "nwmgr_files")? {
        Some(w) => w,
        None => Vec::new(),
    };
    let gzip_internal = match get_yaml_bool(v, "gzip_internal")? {
        Some(b) => b,
        None => true,
    };
    let kernel_opts = get_yaml_str(v, "kernel_opts")?;
    let delay = match get_yaml_u64(v, "delay")? {
        Some(x) => x,
        None => 0,
    };
    let require_nwmgr_config = match get_yaml_bool(v, "require_nwmgr_config")? {
        Some(b) => b,
        None => true,
    };
    Ok(
        MigrateConfig {
            work_dir,
            mode,
            reboot,
            all_wifis,
            wifis,
            log,
            kernel,
            initrd,
            force_slug,
            backup_volumes,
            fail_mode,
            nwmgr_files,
            gzip_internal,
            kernel_opts,
            delay,
            require_nwmgr_config,
        },
    )
}


/// Whether the `balena` node is well-shaped.
pub open spec fn spec_balena_ok(n: YamlNode) -> bool {
    &&& ({
        let x = spec_sub(n, "image"@);
        match x {
            YamlNode::Null => true,
            _ => match spec_field(x, "dd"@) {
                Some(dd) => spec_file_ref_ok(dd),
                None => match spec_field(x, "fs"@) {
                    Some(fs) => spec_str_field_ok(fs, "device_slug"@),
                    None => x is Str,
                },
            },
        }
    })
    &&& ({
        let c = spec_sub(n, "config"@);
        c is Null || spec_file_ref_ok(c)
    })
    &&& spec_str_field_ok(n, "app_name"@)
    &&& ({
        let a = spec_sub(n, "api"@);
        a is Null || ({
            &&& spec_str_field_ok(a, "host"@)
            &&& spec_u64_field_ok(a, "port"@)
            &&& (match spec_u64_field(a, "port"@) {
                Some(p) => p <= 65535,
                None => true,
            })
            &&& spec_bool_field_ok(a, "check"@)
        })
    })
    &&& spec_bool_field_ok(n, "check_vpn"@)
    &&& spec_u64_field_ok(n, "check_timeout"@)
}

/// What the image reference read from a node holds; the `Null` node
/// keeps no image.
pub open spec fn spec_image_matches(x: YamlNode, img: Option<ImageType>) -> bool {
    match x {
        YamlNode::Null => img is None,
        _ => match spec_field(x, "dd"@) {
            Some(dd) => img matches Some(ImageType::Flasher(f)) && spec_file_ref_of(dd) == Some(
                f,
            ),
            None => match spec_field(x, "fs"@) {
                Some(fs) => img matches Some(ImageType::FileSystems(fc)) && fc.device_slug
                    == spec_str_field(fs, "device_slug"@),
                None => match x {
                    YamlNode::Str(p) => img matches Some(ImageType::Flasher(f)) && f.path == p
                        && f.hash is None,
                    _ => false,
                },
            },
        },
    }
}

/// What the `balena` sub-tree read from a well-shaped node holds.
pub open spec fn spec_balena_matches(n: YamlNode, c: BalenaConfig) -> bool {
    &&& spec_image_matches(spec_sub(n, "image"@), c.image)
    &&& (match spec_field(n, "config"@) {
        None => c.config is None,
        Some(x) => if x is Null {
            c.config is None
        } else {
            c.config matches Some(f) && spec_file_ref_of(x) == Some(f)
        },
    })
    &&& c.app_name == spec_str_field(n, "app_name"@)
    &&& ({
        let a = spec_sub(n, "api"@);
        &&& c.api_host == spec_str_field(a, "host"@)
        &&& c.api_port == (match spec_u64_field(a, "port"@) {
            Some(p) => p as u16,
            None => DEFAULT_API_PORT,
        })
        &&& c.api_check == (match spec_bool_field(a, "check"@) {
            Some(b) => b,
            None => true,
        })
    })
    &&& c.check_vpn == (match spec_bool_field(n, "check_vpn"@) {
        Some(b) => b,
        None => false,
    })
    &&& c.check_timeout == (match spec_u64_field(n, "check_timeout"@) {
        Some(t) => t,
        None => DEFAULT_CHECK_TIMEOUT,
    })
}

/// The `balena` sub-tree from its document node.
#[verifier::rlimit(100)]
#[verifier::spinoff_prover]
pub fn balena_config_from_yaml(v: &YamlNode) -> (r: Result<BalenaConfig, MigError>)
    ensures
        r is Ok <==> spec_balena_ok(*v),
        r matches Ok(c) ==> spec_balena_matches(*v, c),
        r matches Err(e) ==> e.spec_kind() == MigErrorKind::InvParam,
{
    let image = match node_field(v, "image") {
        None => None,
        Some(image) => {
            if let YamlNode::Null = image {
                None
            } else {
                if let Some(dd) = node_field(image, "dd") {
                    Some(ImageType::Flasher(file_ref_from_yaml(dd, "image.dd")?))
                } else if let Some(fs) = node_field(image, "fs") {
                    Some(ImageType::FileSystems(FsConfig { device_slug: get_yaml_str(
                        fs,
                        "device_slug",
                    )? }))
                } else if let YamlNode::Str(p) = image {
                    Some(ImageType::Flasher(FileRef { path: p.clone(), hash: None }))
                } else {
                    return Err(
                        MigError::from_remark(
                            MigErrorKind::InvParam,
                            "invalid 'image': expected 'dd', 'fs' or a path",
                        ),
                    );
                }
            }
        },
    };
    let config = match node_field(v, "config") {
        None => None,
        Some(c) => {
            if let YamlNode::Null = c {
                None
            } else {
                Some(file_ref_from_yaml(c, "config")?)
            }
        },
    };
    let app_name = get_yaml_str(v, "app_name")?;
    let (api_host, api_port, api_check) = match node_field(v, "api") {
        None => (None, DEFAULT_API_PORT, true),
        Some(a) => {
            if let YamlNode::Null = a {
                (None, DEFAULT_API_PORT, true)
            } else {
                let host = get_yaml_str(a, "host")?;
                let port = match get_yaml_u64(a, "port")? {
                    Some(p) => {
                        if p > 65535 {
                            return Err(
                                MigError::from_remark(
                                    MigErrorKind::InvParam,
                                    "'api.port' is not a valid port number",
                                ),
                            );
                        }
                        p as u16
                    },
                    None => DEFAULT_API_PORT,
                };
                let check = match get_yaml_bool(a, "check")? {
                    Some(b) => b,
                    None => true,
                };
                (host, port, check)
            }
        },
    };
    let check_vpn = match get_yaml_bool(v, "check_vpn")? {
        Some(b) => b,
        None => false,
    };
    let check_timeout = match get_yaml_u64(v, "check_timeout")? {
        Some(t) => t,
        None => DEFAULT_CHECK_TIMEOUT,
    };
    Ok(
        BalenaConfig {
            image,
            config,
            app_name,
            api_host,
            api_port,
            api_check,
            check_vpn,
            check_timeout,
        },
    )
}


/// Whether the `debug` node is well-shaped.
pub open spec fn spec_debug_ok(n: YamlNode) -> bool {
    spec_bool_field_ok(n, "no_flash"@) && spec_str_field_ok(n, "force_flash_device"@)
}

/// What the `debug` sub-tree read from a well-shaped node holds.
pub open spec fn spec_debug_matches(n: YamlNode, d: DebugConfig) -> bool {
    &&& d.no_flash == (match spec_bool_field(n, "no_flash"@) {
        Some(b) => b,
        None => false,
    })
    &&& d.force_flash_device == spec_str_field(n, "force_flash_device"@)
}

/// The `debug` sub-tree from its document node.
pub fn debug_config_from_yaml(v: &YamlNode) -> (r: Result<DebugConfig, MigError>)
    ensures
        r is Ok <==> spec_debug_ok(*v),
        r matches Ok(d) ==> spec_debug_matches(*v, d),
        r matches Err(e) ==> e.spec_kind() == MigErrorKind::InvParam,
{
    let no_flash = match get_yaml_bool(v, "no_flash")? {
        Some(b) => b,
        None => false,
    };
    let force_flash_device = get_yaml_str(v, "force_flash_device")?;
    Ok(DebugConfig { no_flash, force_flash_device })
}

} // verus!
