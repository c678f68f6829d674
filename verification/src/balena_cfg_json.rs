//! The device provisioning validator. The provisioning document is an
//! arbitrary key/value document: every key is kept verbatim across a
//! read-modify-write cycle, typed getters distinguish a missing key
//! from one of the wrong shape, mutation marks the document dirty, and
//! re-rendering covers every entry in order. Connectivity validation
//! plans the probes; performing a probe is I/O and happens outside this
//! crate, and its outcome is judged here.

use vstd::prelude::*;

use crate::balena_config::DEFAULT_API_PORT;
use crate::config::Config;
use crate::error::{MigError, MigErrorKind};
use crate::file_info::FileInfo;
use crate::json::{json_entries_of, json_parse_entries};
use crate::strutil::{contains_seq, dec_digits, u64_to_dec};
use crate::urlutil::{parse_endpoint, url_host_of, url_parses, url_port_of, EndpointParse};

verus! {

/// One value of the provisioning document: a string, a non-negative
/// integer, or anything else carried verbatim as its JSON text.
#[derive(Clone, Debug, PartialEq, Eq)]
pub enum CfgValue {
    Str(String),
    UInt(u64),
    Other(String),
}

impl CfgValue {
    /// An equal copy, with the equality known to the verifier.
    pub fn dup(&self) -> (r: CfgValue)
        ensures
            r == *self,
    {
        match self {
            CfgValue::Str(s) => CfgValue::Str(s.clone()),
            CfgValue::UInt(u) => CfgValue::UInt(*u),
            CfgValue::Other(t) => CfgValue::Other(t.clone()),
        }
    }
}

/// One entry of the provisioning document.
#[derive(Clone, Debug, PartialEq, Eq)]
pub struct CfgEntry {
    pub key: String,
    pub value: CfgValue,
}

/// `i` is the first index at which `es` holds the key.
pub open spec fn spec_key_at(es: Seq<CfgEntry>, key: Seq<char>, i: int) -> bool {
    0 <= i < es.len() && es[i].key@ == key && forall|j: int| 0 <= j < i ==> es[j].key@ != key
}

/// The value under the key, taken at its first occurrence.
pub open spec fn spec_lookup(es: Seq<CfgEntry>, key: Seq<char>) -> Option<CfgValue> {
    if exists|i: int| spec_key_at(es, key, i) {
        Some(es[choose|i: int| spec_key_at(es, key, i)].value)
    } else {
        None
    }
}

/// Two first occurrences of one key are the same occurrence.
pub proof fn lemma_key_at_unique(es: Seq<CfgEntry>, key: Seq<char>, i: int, j: int)
    requires
        spec_key_at(es, key, i),
        spec_key_at(es, key, j),
    ensures
        i == j,
{
    if i < j {
        assert(es[i].key@ == key);
    } else if j < i {
        assert(es[j].key@ == key);
    }
}

/// Round-trip preservation law, update half: replacing the value under
/// one key — what `set_host_name` does to an existing `hostname` entry
/// — leaves the value under every other key as it was.
pub proof fn lemma_update_preserves_other_keys(
    es1: Seq<CfgEntry>,
    es2: Seq<CfgEntry>,
    i: int,
    k: Seq<char>,
)
    requires
        0 <= i < es1.len(),
        es2.len() == es1.len(),
        es2[i].key == es1[i].key,
        forall|j: int| 0 <= j < es1.len() && j != i ==> es2[j] == es1[j],
        k != es1[i].key@,
    ensures
        spec_lookup(es2, k) == spec_lookup(es1, k),
{
    assert forall|j: int| spec_key_at(es2, k, j) implies spec_key_at(es1, k, j) by {
        assert(forall|m: int| 0 <= m < es1.len() ==> es2[m].key == es1[m].key);
    }
    assert forall|j: int| spec_key_at(es1, k, j) implies spec_key_at(es2, k, j) by {
        assert(forall|m: int| 0 <= m < es1.len() ==> es2[m].key == es1[m].key);
    }
    if exists|j: int| spec_key_at(es1, k, j) {
        let j1 = choose|j: int| spec_key_at(es1, k, j);
        let j2 = choose|j: int| spec_key_at(es2, k, j);
        lemma_key_at_unique(es2, k, j1, j2);
        assert(j1 != i);
    }
}

/// Round-trip preservation law, append half: appending an entry — what
/// `set_host_name` does to a document without a `hostname` — leaves the
/// value under every other key as it was.
pub proof fn lemma_push_preserves_other_keys(es: Seq<CfgEntry>, e: CfgEntry, k: Seq<char>)
    requires
        k != e.key@,
    ensures
        spec_lookup(es.push(e), k) == spec_lookup(es, k),
{
    let es2 = es.push(e);
    assert forall|j: int| spec_key_at(es2, k, j) implies spec_key_at(es, k, j) by {
        assert(forall|m: int| 0 <= m < es.len() ==> es2[m] == es[m]);
        assert(es2[es.len() as int].key@ == e.key@);
    }
    assert forall|j: int| spec_key_at(es, k, j) implies spec_key_at(es2, k, j) by {
        assert(forall|m: int| 0 <= m < es.len() ==> es2[m] == es[m]);
    }
    if exists|j: int| spec_key_at(es, k, j) {
        let j1 = choose|j: int| spec_key_at(es, k, j);
        let j2 = choose|j: int| spec_key_at(es2, k, j);
        lemma_key_at_unique(es2, k, j1, j2);
    }
}

/// The provisioning document, its source artifact, and the dirty flag.
#[derive(Clone, Debug)]
pub struct BalenaCfgJson {
    /// Every entry of the document, in its kept order.
    pub entries: Vec<CfgEntry>,
    /// The artifact the document was read from.
    pub file: FileInfo,
    /// Whether the in-memory document has diverged from the file.
    pub modified: bool,
}

impl BalenaCfgJson {
    /// Parses the provisioning document read from the located artifact:
    /// succeeds exactly when the text parses as a JSON object, and then
    /// holds that object's entries; a malformed document is a hard
    /// error naming the source path.
    pub fn new(cfg_file: FileInfo, content: &str) -> (r: Result<BalenaCfgJson, MigError>)
        ensures
            r is Ok <==> json_entries_of(content@) is Some,
            r matches Ok(doc) ==> !doc.modified && doc.file == cfg_file && json_entries_of(
                content@,
            ) == Some(doc.entries@),
            r matches Err(e) ==> e.spec_kind() == MigErrorKind::Upstream && contains_seq(
                e.spec_remark(),
                cfg_file.path@,
            ),
    {
        match json_parse_entries(content) {
            Some(entries) => Ok(BalenaCfgJson { entries, file: cfg_file, modified: false }),
            None => Err(
                MigError::naming(
                    MigErrorKind::Upstream,
                    "failed to parse json from file '",
                    cfg_file.path.as_str(),
                    "'",
                ),
            ),
        }
    }

    /// Whether the in-memory document has unwritten changes.
    pub fn is_modified(&self) -> (r: bool)
        ensures
            r == self.modified,
    {
        self.modified
    }

    /// The size in bytes of the source artifact.
    pub fn get_size(&self) -> (r: u64)
        ensures
            r == self.file.size,
    {
        self.file.size
    }

    /// The path of the source artifact.
    pub fn get_rel_path(&self) -> (r: &str)
        ensures
            r@ == self.file.path@,
    {
        self.file.path.as_str()
    }

    /// The string under a key: a missing key and a key of the wrong
    /// shape are distinct error kinds.
    pub fn get_str_val(&self, name: &str) -> (r: Result<String, MigError>)
        ensures
            match r {
                Ok(s) => spec_lookup(self.entries@, name@) matches Some(CfgValue::Str(t)) && t@
                    == s@,
                Err(e) => match spec_lookup(self.entries@, name@) {
                    None => e.spec_kind() == MigErrorKind::NotFound,
                    Some(v) => !(v is Str) && e.spec_kind() == MigErrorKind::InvParam,
                },
            },
    {
        let n = self.entries.len();
        let mut i: usize = 0;
        while i < n
            invariant
                n == self.entries@.len(),
                0 <= i <= n,
                forall|j: int| 0 <= j < i ==> self.entries@[j].key@ != name@,
            decreases n - i,
        {
            let entry = &self.entries[i];
            if entry.key == name.to_owned() {
                proof {
                    assert(spec_key_at(self.entries@, name@, i as int));
                    let j = choose|j: int| spec_key_at(self.entries@, name@, j);
                    lemma_key_at_unique(self.entries@, name@, i as int, j);
                }
                match &entry.value {
                    CfgValue::Str(s) => {
                        return Ok(s.clone());
                    },
                    _ => {
                        let mut remark = "invalid type for key '".to_owned();
                        remark.append(name);
                        remark.append("', expected a string");
                        return Err(MigError::from_remark(MigErrorKind::InvParam, remark.as_str()));
                    },
                }
            }
            i += 1;
        }
        let mut remark = "key not found: '".to_owned();
        remark.append(name);
        remark.append("'");
        Err(MigError::from_remark(MigErrorKind::NotFound, remark.as_str()))
    }

    /// The non-negative integer under a key, with the same error
    /// distinction.
    pub fn get_uint_val(&self, name: &str) -> (r: Result<u64, MigError>)
        ensures
            match r {
                Ok(u) => spec_lookup(self.entries@, name@) == Some(CfgValue::UInt(u)),
                Err(e) => match spec_lookup(self.entries@, name@) {
                    None => e.spec_kind() == MigErrorKind::NotFound,
                    Some(v) => !(v is UInt) && e.spec_kind() == MigErrorKind::InvParam,
                },
            },
    {
        let n = self.entries.len();
        let mut i: usize = 0;
        while i < n
            invariant
                n == self.entries@.len(),
                0 <= i <= n,
                forall|j: int| 0 <= j < i ==> self.entries@[j].key@ != name@,
            decreases n - i,
        {
            let entry = &self.entries[i];
            if entry.key == name.to_owned() {
                proof {
                    assert(spec_key_at(self.entries@, name@, i as int));
                    let j = choose|j: int| spec_key_at(self.entries@, name@, j);
                    lemma_key_at_unique(self.entries@, name@, i as int, j);
                }
                match &entry.value {
                    CfgValue::UInt(u) => {
                        return Ok(*u);
                    },
                    _ => {
                        let mut remark = "invalid type for key '".to_owned();
                        remark.append(name);
                        remark.append("', expected an unsigned integer");
                        return Err(MigError::from_remark(MigErrorKind::InvParam, remark.as_str()));
                    },
                }
            }
            i += 1;
        }
        let mut remark = "key not found: '".to_owned();
        remark.append(name);
        remark.append("'");
        Err(MigError::from_remark(MigErrorKind::NotFound, remark.as_str()))
    }

    /// The device's hostname.
    pub fn get_hostname(&self) -> (r: Result<String, MigError>)
        ensures
            match r {
                Ok(s) => spec_lookup(self.entries@, "hostname"@) matches Some(CfgValue::Str(t))
                    && t@ == s@,
                Err(e) => match spec_lookup(self.entries@, "hostname"@) {
                    None => e.spec_kind() == MigErrorKind::NotFound,
                    Some(v) => !(v is Str) && e.spec_kind() == MigErrorKind::InvParam,
                },
            },
    {
        self.get_str_val("hostname")
    }

    /// Replaces the hostname, marks the document dirty, and returns the
    /// previous value under the key if one existed. The entry keeps its
    /// position; a document without the key gains it at the end; no
    /// other entry moves or changes.
    pub fn set_host_name(&mut self, hostname: &str) -> (r: Option<CfgValue>)
        ensures
            final(self).modified,
            final(self).file == old(self).file,
            r == spec_lookup(old(self).entries@, "hostname"@),
            match spec_lookup(old(self).entries@, "hostname"@) {
                Some(_) => exists|i: int|
                    {
                        &&& spec_key_at(old(self).entries@, "hostname"@, i)
                        &&& final(self).entries@.len() == old(self).entries@.len()
                        &&& final(self).entries@[i].key == old(self).entries@[i].key
                        &&& (final(self).entries@[i].value matches CfgValue::Str(s) && s@
                            == hostname@)
                        &&& (forall|j: int|
                            0 <= j < old(self).entries@.len() && j != i ==> final(self).entries@[j]
                                == old(self).entries@[j])
                    },
                None => {
                    &&& final(self).entries@.len() == old(self).entries@.len() + 1
                    &&& final(self).entries@.subrange(0, old(self).entries@.len() as int) == old(
                        self,
                    ).entries@
                    &&& final(self).entries@.last().key@ == "hostname"@
                    &&& (final(self).entries@.last().value matches CfgValue::Str(s) && s@
                        == hostname@)
                },
            },
    {
        self.modified = true;
        let n = self.entries.len();
        let mut i: usize = 0;
        while i < n
            invariant
                n == self.entries@.len(),
                0 <= i <= n,
                self.entries@ == old(self).entries@,
                self.modified,
                self.file == old(self).file,
                forall|j: int| 0 <= j < i ==> self.entries@[j].key@ != "hostname"@,
            decreases n - i,
        {
            let hostname_key = "hostname";
            if self.entries[i].key == hostname_key.to_owned() {
                proof {
                    assert(spec_key_at(self.entries@, "hostname"@, i as int));
                    let j = choose|j: int| spec_key_at(self.entries@, "hostname"@, j);
                    lemma_key_at_unique(self.entries@, "hostname"@, i as int, j);
                }
                let previous = self.entries[i].value.dup();
                let key = self.entries[i].key.clone();
                let replacement = CfgEntry { key, value: CfgValue::Str(hostname.to_owned()) };
                self.entries[i] = replacement;
                return Some(previous);
            }
            i += 1;
        }
        proof {
            if exists|j: int| spec_key_at(self.entries@, "hostname"@, j) {
                let j = choose|j: int| spec_key_at(self.entries@, "hostname"@, j);
                assert(self.entries@[j].key@ == "hostname"@);
            }
        }
        self.entries.push(
            CfgEntry { key: "hostname".to_owned(), value: CfgValue::Str(hostname.to_owned()) },
        );
        proof {
            assert(final(self).entries@.subrange(0, old(self).entries@.len() as int)
                =~= old(self).entries@);
        }
        None
    }

    /// The application this device belongs to.
    pub fn get_app_id(&self) -> (r: Result<u64, MigError>)
        ensures
            match r {
                Ok(u) => spec_lookup(self.entries@, "applicationId"@) == Some(CfgValue::UInt(u)),
                Err(e) => match spec_lookup(self.entries@, "applicationId"@) {
                    None => e.spec_kind() == MigErrorKind::NotFound,
                    Some(v) => !(v is UInt) && e.spec_kind() == MigErrorKind::InvParam,
                },
            },
    {
        self.get_uint_val("applicationId")
    }

    /// The device's API key.
    pub fn get_api_key(&self) -> (r: Result<String, MigError>)
        ensures
            match r {
                Ok(s) => spec_lookup(self.entries@, "apiKey"@) matches Some(CfgValue::Str(t))
                    && t@ == s@,
                Err(e) => match spec_lookup(self.entries@, "apiKey"@) {
                    None => e.spec_kind() == MigErrorKind::NotFound,
                    Some(v) => !(v is Str) && e.spec_kind() == MigErrorKind::InvParam,
                },
            },
    {
        self.get_str_val("apiKey")
    }

    /// The backend API endpoint, as a URL.
    pub fn get_api_endpoint(&self) -> (r: Result<String, MigError>)
        ensures
            match r {
                Ok(s) => spec_lookup(self.entries@, "apiEndpoint"@) matches Some(
                    CfgValue::Str(t),
                ) && t@ == s@,
                Err(e) => match spec_lookup(self.entries@, "apiEndpoint"@) {
                    None => e.spec_kind() == MigErrorKind::NotFound,
                    Some(v) => !(v is Str) && e.spec_kind() == MigErrorKind::InvParam,
                },
            },
    {
        self.get_str_val("apiEndpoint")
    }

    /// The VPN endpoint, a bare host name.
    pub fn get_vpn_endpoint(&self) -> (r: Result<String, MigError>)
        ensures
            match r {
                Ok(s) => spec_lookup(self.entries@, "vpnEndpoint"@) matches Some(
                    CfgValue::Str(t),
                ) && t@ == s@,
                Err(e) => match spec_lookup(self.entries@, "vpnEndpoint"@) {
                    None => e.spec_kind() == MigErrorKind::NotFound,
                    Some(v) => !(v is Str) && e.spec_kind() == MigErrorKind::InvParam,
                },
            },
    {
        self.get_str_val("vpnEndpoint")
    }

    /// The VPN port.
    pub fn get_vpn_port(&self) -> (r: Result<u64, MigError>)
        ensures
            match r {
                Ok(u) => spec_lookup(self.entries@, "vpnPort"@) == Some(CfgValue::UInt(u)),
                Err(e) => match spec_lookup(self.entries@, "vpnPort"@) {
                    None => e.spec_kind() == MigErrorKind::NotFound,
                    Some(v) => !(v is UInt) && e.spec_kind() == MigErrorKind::InvParam,
                },
            },
    {
        self.get_uint_val("vpnPort")
    }

    /// The device type the document provisions.
    pub fn get_device_type(&self) -> (r: Result<String, MigError>)
        ensures
            match r {
                Ok(s) => spec_lookup(self.entries@, "deviceType"@) matches Some(CfgValue::Str(t))
                    && t@ == s@,
                Err(e) => match spec_lookup(self.entries@, "deviceType"@) {
                    None => e.spec_kind() == MigErrorKind::NotFound,
                    Some(v) => !(v is Str) && e.spec_kind() == MigErrorKind::InvParam,
                },
            },
    {
        self.get_str_val("deviceType")
    }
}


/// The character that renders a hexadecimal digit, lower case.
pub open spec fn hex_digit_char(d: int) -> char {
    if d == 0 { '0' }
    else if d == 1 { '1' }
    else if d == 2 { '2' }
    else if d == 3 { '3' }
    else if d == 4 { '4' }
    else if d == 5 { '5' }
    else if d == 6 { '6' }
    else if d == 7 { '7' }
    else if d == 8 { '8' }
    else if d == 9 { '9' }
    else if d == 10 { 'a' }
    else if d == 11 { 'b' }
    else if d == 12 { 'c' }
    else if d == 13 { 'd' }
    else if d == 14 { 'e' }
    else { 'f' }
}

/// How one character of a JSON string is escaped: quote and backslash
/// by a backslash, the named control characters by their short forms,
/// any other control character numerically, everything else stands as
/// it is.
pub open spec fn json_escape_char(c: char) -> Seq<char> {
    if c == '"' {
        seq!['\\', '"']
    } else if c == '\\' {
        seq!['\\', '\\']
    } else if c == '\u{8}' {
        seq!['\\', 'b']
    } else if c == '\u{c}' {
        seq!['\\', 'f']
    } else if c == '\n' {
        seq!['\\', 'n']
    } else if c == '\r' {
        seq!['\\', 'r']
    } else if c == '\t' {
        seq!['\\', 't']
    } else if (c as u32) < 32 {
        seq!['\\', 'u', '0', '0', hex_digit_char(c as u32 as int / 16), hex_digit_char(
            c as u32 as int % 16,
        )]
    } else {
        seq![c]
    }
}

/// The escaped body of a JSON string.
pub open spec fn json_escape(s: Seq<char>) -> Seq<char>
    decreases s.len(),
{
    if s.len() == 0 {
        Seq::<char>::empty()
    } else {
        json_escape(s.drop_last()) + json_escape_char(s.last())
    }
}

/// A JSON string: the escaped body between quotes.
pub open spec fn spec_quoted(s: Seq<char>) -> Seq<char> {
    seq!['"'] + json_escape(s) + seq!['"']
}

/// The JSON text of one value: strings are quoted and escaped, integers
/// rendered in decimal, anything else carried verbatim.
pub open spec fn spec_value_text(v: CfgValue) -> Seq<char> {
    match v {
        CfgValue::Str(s) => spec_quoted(s@),
        CfgValue::UInt(n) => dec_digits(n as int),
        CfgValue::Other(t) => t@,
    }
}

/// The JSON text of one entry.
pub open spec fn spec_entry_text(e: CfgEntry) -> Seq<char> {
    spec_quoted(e.key@) + seq![':'] + spec_value_text(e.value)
}

/// The comma-separated JSON text of the entries, in order.
pub open spec fn spec_entries_text(es: Seq<CfgEntry>) -> Seq<char>
    decreases es.len(),
{
    if es.len() == 0 {
        Seq::<char>::empty()
    } else if es.len() == 1 {
        spec_entry_text(es[0])
    } else {
        spec_entries_text(es.drop_last()) + seq![','] + spec_entry_text(es.last())
    }
}

/// The JSON text of the whole document.
pub open spec fn spec_doc_text(es: Seq<CfgEntry>) -> Seq<char> {
    seq!['{'] + spec_entries_text(es) + seq!['}']
}

/// Appends the escaped body of `s` to `out`.
fn append_escaped(out: &mut String, s: &str)
    ensures
        final(out)@ == old(out)@ + json_escape(s@),
{
    proof {
        assert(s@.subrange(0, 0) =~= Seq::<char>::empty());
        assert(old(out)@ + Seq::<char>::empty() =~= old(out)@);
    }
    let n = s.unicode_len();
    let mut i: usize = 0;
    while i < n
        invariant
            n == s@.len(),
            0 <= i <= n,
            out@ == old(out)@ + json_escape(s@.subrange(0, i as int)),
        decreases n - i,
    {
        proof {
            reveal_strlit("\\\"");
            reveal_strlit("\\\\");
            reveal_strlit("\\b");
            reveal_strlit("\\f");
            reveal_strlit("\\n");
            reveal_strlit("\\r");
            reveal_strlit("\\t");
            reveal_strlit("\\u00");
        }
        let ghost prev = out@;
        let c = s.get_char(i);
        let cu: u32 = c as u32;
        if c == '"' {
            out.append("\\\"");
            assert(out@ =~= prev + json_escape_char(c));
        } else if c == '\\' {
            out.append("\\\\");
            assert(out@ =~= prev + json_escape_char(c));
        } else if cu == 8 {
            out.append("\\b");
            assert(c == '\u{8}');
            assert(out@ =~= prev + json_escape_char(c));
        } else if cu == 12 {
            out.append("\\f");
            assert(c == '\u{c}');
            assert(out@ =~= prev + json_escape_char(c));
        } else if c == '\n' {
            out.append("\\n");
            assert(out@ =~= prev + json_escape_char(c));
        } else if c == '\r' {
            out.append("\\r");
            assert(out@ =~= prev + json_escape_char(c));
        } else if c == '\t' {
            out.append("\\t");
            assert(out@ =~= prev + json_escape_char(c));
        } else if cu < 32 {
            out.append("\\u00");
            out.append(hex_digit_str(cu / 16));
            out.append(hex_digit_str(cu % 16));
            assert(out@ =~= prev + json_escape_char(c));
        } else {
            out.append(s.substring_char(i, i + 1));
            assert(s@.subrange(i as int, i + 1 as int) =~= seq![s@[i as int]]);
            assert(out@ =~= prev + json_escape_char(c));
        }
        proof {
            let t = s@.subrange(0, i + 1 as int);
            assert(t.drop_last() =~= s@.subrange(0, i as int));
            assert(t.last() == s@[i as int]);
            assert(json_escape(t) == json_escape(s@.subrange(0, i as int)) + json_escape_char(
                s@[i as int],
            ));
            assert(out@ =~= old(out)@ + json_escape(t));
        }
        i += 1;
    }
    proof {
        assert(s@.subrange(0, n as int) =~= s@);
    }
}

/// The one-character string for a hexadecimal digit.
fn hex_digit_str(d: u32) -> (r: &'static str)
    requires
        d < 16,
    ensures
        r@ == seq![hex_digit_char(d as int)],
{
    proof {
        reveal_strlit("0");
        reveal_strlit("1");
        reveal_strlit("2");
        reveal_strlit("3");
        reveal_strlit("4");
        reveal_strlit("5");
        reveal_strlit("6");
        reveal_strlit("7");
        reveal_strlit("8");
        reveal_strlit("9");
        reveal_strlit("a");
        reveal_strlit("b");
        reveal_strlit("c");
        reveal_strlit("d");
        reveal_strlit("e");
        reveal_strlit("f");
    }
    let r: &'static str = match d {
        0 => "0",
        1 => "1",
        2 => "2",
        3 => "3",
        4 => "4",
        5 => "5",
        6 => "6",
        7 => "7",
        8 => "8",
        9 => "9",
        10 => "a",
        11 => "b",
        12 => "c",
        13 => "d",
        14 => "e",
        _ => "f",
    };
    proof {
        assert(r@ =~= seq![hex_digit_char(d as int)]);
    }
    r
}

/// Appends a quoted, escaped JSON string to `out`.
fn append_quoted(out: &mut String, s: &str)
    ensures
        final(out)@ == old(out)@ + spec_quoted(s@),
{
    proof {
        reveal_strlit("\"");
    }
    out.append("\"");
    append_escaped(out, s);
    out.append("\"");
    proof {
        assert(final(out)@ =~= old(out)@ + spec_quoted(s@));
    }
}

/// Appends the JSON text of one value to `out`.
fn append_value(out: &mut String, v: &CfgValue)
    ensures
        final(out)@ == old(out)@ + spec_value_text(*v),
{
    match v {
        CfgValue::Str(s) => append_quoted(out, s.as_str()),
        CfgValue::UInt(n) => out.append(u64_to_dec(*n).as_str()),
        CfgValue::Other(t) => out.append(t.as_str()),
    }
}

impl BalenaCfgJson {
    /// The full document serialised back to JSON: every entry, touched
    /// or not, in its kept order. The caller writes this text to a
    /// freshly named file inside the target directory — never over the
    /// source file — and reports the outcome through `mark_written`.
    pub fn render(&self) -> (r: String)
        ensures
            r@ == spec_doc_text(self.entries@),
    {
        proof {
            reveal_strlit("{");
            reveal_strlit("}");
            reveal_strlit(",");
            reveal_strlit(":");
        }
        let mut out = "{".to_owned();
        proof {
            assert(out@ =~= seq!['{']);
        }
        let n = self.entries.len();
        let mut i: usize = 0;
        while i < n
            invariant
                n == self.entries@.len(),
                0 <= i <= n,
                out@ == seq!['{'] + spec_entries_text(self.entries@.subrange(0, i as int)),
            decreases n - i,
        {
            proof {
                reveal_strlit(",");
                reveal_strlit(":");
            }
            if i > 0 {
                out.append(",");
            }
            let entry = &self.entries[i];
            append_quoted(&mut out, entry.key.as_str());
            out.append(":");
            append_value(&mut out, &entry.value);
            proof {
                let t = self.entries@.subrange(0, i + 1 as int);
                assert(t.drop_last() =~= self.entries@.subrange(0, i as int));
                assert(t.last() == self.entries@[i as int]);
                if i == 0 {
                    assert(t.len() == 1);
                    assert(t[0] == self.entries@[0]);
                    assert(spec_entries_text(t) == spec_entry_text(t[0]));
                } else {
                    assert(spec_entries_text(t) == spec_entries_text(t.drop_last()) + seq![',']
                        + spec_entry_text(t.last()));
                }
                assert(out@ =~= seq!['{'] + spec_entries_text(t));
            }
            i += 1;
        }
        out.append("}");
        proof {
            assert(self.entries@.subrange(0, n as int) =~= self.entries@);
            assert(out@ =~= spec_doc_text(self.entries@));
        }
        out
    }

    /// Records that the rendered document was written out successfully:
    /// only then is the dirty flag cleared. Nothing else changes.
    pub fn mark_written(&mut self)
        ensures
            !final(self).modified,
            final(self).entries@ == old(self).entries@,
            final(self).file == old(self).file,
    {
        self.modified = false;
    }
}

/// One connectivity probe the validation demands: a host, a port, and
/// the bounded timeout in seconds.
#[derive(Clone, Debug, PartialEq, Eq)]
pub struct ProbeTarget {
    pub host: String,
    pub port: u16,
    pub timeout: u64,
}

/// The port a probe uses for an endpoint: the explicit one when the
/// URL names it, else the well-known provisioning API port.
pub open spec fn spec_port_or_default(p: Option<u16>) -> u16 {
    match p {
        Some(x) => x,
        None => DEFAULT_API_PORT,
    }
}

/// Whether the document yields an API probe target: its `apiEndpoint`
/// is a string whose URL names a host.
pub open spec fn spec_api_target_ok(es: Seq<CfgEntry>) -> bool {
    spec_lookup(es, "apiEndpoint"@) matches Some(CfgValue::Str(s)) && url_host_of(s@) is Some
}

/// Whether the document yields a VPN probe target: `vpnEndpoint` is a
/// string and `vpnPort` a port-sized integer.
pub open spec fn spec_vpn_target_ok(es: Seq<CfgEntry>) -> bool {
    &&& spec_lookup(es, "vpnEndpoint"@) matches Some(CfgValue::Str(_))
    &&& spec_lookup(es, "vpnPort"@) matches Some(CfgValue::UInt(p)) && p <= 65535
}

impl BalenaCfgJson {
    /// The API probe target: the endpoint URL's host, and its port when
    /// it names one, else the well-known provisioning API port. An
    /// unparseable endpoint is an upstream failure; a URL without a
    /// host is reported at the point of detection and propagated as
    /// displayed.
    pub fn api_probe_target(&self, timeout: u64) -> (r: Result<ProbeTarget, MigError>)
        ensures
            r is Ok <==> spec_api_target_ok(self.entries@),
            r matches Ok(t) ==> {
                &&& t.timeout == timeout
                &&& spec_lookup(self.entries@, "apiEndpoint"@) matches Some(CfgValue::Str(s))
                    && url_host_of(s@) == Some(t.host@) && t.port == spec_port_or_default(
                    url_port_of(s@),
                )
            },
            r matches Err(e) ==> match spec_lookup(self.entries@, "apiEndpoint"@) {
                None => e.spec_kind() == MigErrorKind::NotFound,
                Some(v) => {
                    if !(v is Str) {
                        e.spec_kind() == MigErrorKind::InvParam
                    } else {
                        v matches CfgValue::Str(s) && url_host_of(s@) is None && (if !url_parses(
                            s@,
                        ) {
                            e.spec_kind() == MigErrorKind::Upstream
                        } else {
                            e.spec_kind() == MigErrorKind::Displayed
                        })
                    }
                },
            },
    {
        let endpoint = self.get_api_endpoint()?;
        match parse_endpoint(endpoint.as_str()) {
            EndpointParse::NoUrl => Err(
                MigError::naming(
                    MigErrorKind::Upstream,
                    "failed to parse the api url '",
                    endpoint.as_str(),
                    "'",
                ),
            ),
            EndpointParse::NoHost => Err(MigError::displayed()),
            EndpointParse::HostPort(host, explicit_port) => {
                let port = match explicit_port {
                    Some(p) => p,
                    None => DEFAULT_API_PORT,
                };
                Ok(ProbeTarget { host, port, timeout })
            },
        }
    }

    /// The probes that `check` demands for this document under the
    /// given configuration: the API endpoint when API checking is
    /// enabled, then the VPN endpoint when VPN checking is enabled. The
    /// VPN host and port are taken from the document as they stand — a
    /// bare host, no URL parsing — and a port beyond the port range is
    /// an invalid parameter.
    pub fn check_plan(&self, config: &Config) -> (r: Result<Vec<ProbeTarget>, MigError>)
        ensures
            r is Ok <==> ((config.balena.api_check ==> spec_api_target_ok(self.entries@)) && (
            config.balena.check_vpn ==> spec_vpn_target_ok(self.entries@))),
            r matches Ok(plan) ==> {
                &&& plan@.len() == (if config.balena.api_check { 1 as int } else { 0 as int })
                    + (if config.balena.check_vpn { 1 as int } else { 0 as int })
                &&& (config.balena.api_check ==> {
                    &&& plan@.len() >= 1
                    &&& spec_lookup(self.entries@, "apiEndpoint"@) matches Some(CfgValue::Str(s))
                        && url_host_of(s@) == Some(plan@[0].host@) && plan@[0].port
                        == spec_port_or_default(url_port_of(s@))
                })
                &&& (config.balena.check_vpn ==> {
                    &&& plan@.len() >= 1
                    &&& (spec_lookup(self.entries@, "vpnEndpoint"@) matches Some(
                        CfgValue::Str(h),
                    ) && plan@.last().host@ == h@)
                    &&& (spec_lookup(self.entries@, "vpnPort"@) matches Some(CfgValue::UInt(p))
                        && p <= 65535 && plan@.last().port == p as u16)
                })
                &&& (forall|i: int|
                    0 <= i < plan@.len() ==> plan@[i].timeout == config.balena.check_timeout)
            },
            r matches Err(e) ==> (e.spec_kind() == MigErrorKind::Upstream || e.spec_kind()
                == MigErrorKind::Displayed || e.spec_kind() == MigErrorKind::NotFound
                || e.spec_kind() == MigErrorKind::InvParam),
    {
        let timeout = config.balena.get_check_timeout();
        let mut plan: Vec<ProbeTarget> = Vec::new();
        if config.balena.is_check_api() {
            let target = self.api_probe_target(timeout)?;
            plan.push(target);
        }
        if config.balena.is_check_vpn() {
            let host = self.get_vpn_endpoint()?;
            let port_wide = self.get_vpn_port()?;
            if port_wide > 65535 {
                return Err(
                    MigError::from_remark(
                        MigErrorKind::InvParam,
                        "the vpnPort in the provisioning document is not a valid port number",
                    ),
                );
            }
            let port: u16 = port_wide as u16;
            plan.push(ProbeTarget { host, port, timeout });
        }
        Ok(plan)
    }
}

/// Judges the probe outcomes: validation passes only when every planned
/// probe succeeded; any failed probe is terminal — the device could
/// come up unreachable — and is reported at the point of detection,
/// then propagated as displayed.
pub fn check_outcome(outcomes: &Vec<bool>) -> (r: Result<(), MigError>)
    ensures
        r is Ok <==> (forall|i: int| 0 <= i < outcomes@.len() ==> outcomes@[i]),
        r matches Err(e) ==> e.spec_kind() == MigErrorKind::Displayed,
{
    let n = outcomes.len();
    let mut i: usize = 0;
    while i < n
        invariant
            n == outcomes@.len(),
            0 <= i <= n,
            forall|j: int| 0 <= j < i ==> outcomes@[j],
        decreases n - i,
    {
        if !outcomes[i] {
            return Err(MigError::displayed());
        }
        i += 1;
    }
    Ok(())
}

} // verus!
