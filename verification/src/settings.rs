//! Settings of the filesystem blob store: where blobs live and how large a
//! chunk is, resolved from link values the same way the messaging
//! configuration is — keys case-normalized (lowercase here), a structured
//! blob first, scalar keys on top.  Reading a configuration file named by
//! the `config_file` key is the caller's I/O; its text is handed in.

use vstd::prelude::*;

use crate::errors::ConfigError;
use crate::json::{b64_decode, json_as_string, json_as_u64, json_from_slice, json_from_str,
    json_get, json_is_object, spec_base64_decoding, spec_json_bytes_parse, spec_json_parses};
use crate::strutil::{parse_u32, spec_parse_u32};
use crate::values::{normalize_keys, spec_as_map, spec_distinct_keys, spec_norm_keys, RawValues};

verus! {

/// The chunk size used when none is configured.
pub const DEFAULT_CHUNK_SIZE: usize = 128;

/// Where blobs are stored and how large one transfer chunk is.
pub struct ServiceSettings {
    /// Root path under which blobs are stored.
    pub root: String,
    /// Size of one transfer chunk, in bytes.
    pub chunk_size: usize,
}

impl Default for ServiceSettings {
    /// The default settings: blobs under `/tmp`, chunks of 128 bytes.
    fn default() -> (r: ServiceSettings)
        ensures
            r.root@ == "/tmp"@,
            r.chunk_size == DEFAULT_CHUNK_SIZE,
    {
        ServiceSettings { root: "/tmp".to_owned(), chunk_size: DEFAULT_CHUNK_SIZE }
    }
}

impl ServiceSettings {
    /// Merges another settings value into this one: a field still at its
    /// default is replaced by the other's field, a field already set is
    /// kept.  This lets later configuration sources fill what earlier ones
    /// left at the default.
    pub fn merge(&mut self, other: ServiceSettings)
        ensures
            final(self).root@ == (if old(self).root@ == "/tmp"@ {
                other.root@
            } else {
                old(self).root@
            }),
            final(self).chunk_size == (if old(self).chunk_size == DEFAULT_CHUNK_SIZE {
                other.chunk_size
            } else {
                old(self).chunk_size
            }),
    {
        let tmp: String = "/tmp".to_owned();
        if self.root == tmp {
            self.root = other.root;
        }
        if self.chunk_size == DEFAULT_CHUNK_SIZE {
            self.chunk_size = other.chunk_size;
        }
    }
}

/// Reads a [`ServiceSettings`] off a parsed JSON document: a missing field
/// is empty (an empty root, a zero chunk size), a wrongly typed field is
/// malformed.  What the document holds is decided by the outside JSON
/// parser; beyond the error variant, nothing more is stated here.
fn settings_from_json(v: &serde_json::Value) -> (r: Result<ServiceSettings, ConfigError>)
    ensures
        r matches Err(e) ==> e == ConfigError::Malformed,
{
    if !json_is_object(v) {
        return Err(ConfigError::Malformed);
    }
    let root = match json_get(v, "root") {
        None => String::new(),
        Some(x) => match json_as_string(x) {
            Some(s) => s,
            None => {
                return Err(ConfigError::Malformed);
            },
        },
    };
    let chunk_size: usize = match json_get(v, "chunk_size") {
        None => 0,
        Some(x) => match json_as_u64(x) {
            Some(n) => {
                if n <= 4294967295 {
                    n as usize
                } else {
                    return Err(ConfigError::Malformed);
                }
            },
            None => {
                return Err(ConfigError::Malformed);
            },
        },
    };
    Ok(ServiceSettings { root, chunk_size })
}

/// The value of the `config_file` key, once keys are lowercased, so the
/// caller can read that file and hand its text to [`load_settings`].
pub fn config_file_path(values: &RawValues) -> (r: Option<String>)
    ensures
        spec_distinct_keys(spec_norm_keys(values@, false)) ==> (r is Some <==> spec_as_map(
            spec_norm_keys(values@, false),
        ).contains_key("config_file"@)),
        r matches Some(p) ==> spec_as_map(spec_norm_keys(values@, false)).contains_key(
            "config_file"@,
        ) && p@ == spec_as_map(spec_norm_keys(values@, false))["config_file"@],
{
    match normalize_keys(values, false) {
        None => None,
        Some(norm) => match norm.get("config_file") {
            Some(p) => Some(p.clone()),
            None => None,
        },
    }
}

/// Where the file name of a path starts: just after its last separator.
pub open spec fn spec_name_start(s: Seq<char>) -> int
    decreases s.len(),
{
    if s.len() == 0 {
        0
    } else if s.last() == '/' {
        s.len() as int
    } else {
        spec_name_start(s.drop_last())
    }
}

/// Where a file name's extension starts: just after its last dot, or zero
/// when it has none.
pub open spec fn spec_ext_start(name: Seq<char>) -> int
    decreases name.len(),
{
    if name.len() == 0 {
        0
    } else if name.last() == '.' {
        name.len() as int
    } else {
        spec_ext_start(name.drop_last())
    }
}

/// The extension of the file a path names: the text after the last dot of
/// the last path component, provided that dot is not the component's first
/// character.
pub open spec fn spec_extension(s: Seq<char>) -> Option<Seq<char>> {
    let name = s.skip(spec_name_start(s));
    let d = spec_ext_start(name);
    if d >= 2 {
        Some(name.skip(d))
    } else {
        None
    }
}

/// A scan that stopped at the last occurrence pins the split point.
proof fn lemma_last_at(s: Seq<char>, c: char, b: int)
    requires
        0 <= b <= s.len(),
        forall|p: int| b <= p < s.len() ==> s[p] != c,
        b > 0 ==> s[b - 1] == c,
    ensures
        c == '/' ==> spec_name_start(s) == b,
        c == '.' ==> spec_ext_start(s) == b,
    decreases s.len(),
{
    if s.len() > 0 && b < s.len() {
        lemma_last_at(s.drop_last(), c, b);
    }
}

/// Whether the path names a file with the `json` extension, the one kind
/// of configuration file the blob store reads.
pub fn json_extension_ok(path: &str) -> (r: bool)
    ensures
        r == (spec_extension(path@) == Some("json"@)),
{
    let n = path.unicode_len();
    let mut a: usize = n;
    while a > 0
        invariant_except_break
            n == path@.len(),
            a <= n,
            forall|p: int| a <= p < n ==> path@[p] != '/',
        ensures
            n == path@.len(),
            a <= n,
            forall|p: int| a <= p < n ==> path@[p] != '/',
            a > 0 ==> path@[a - 1] == '/',
        decreases a,
    {
        if path.get_char(a - 1) == '/' {
            break ;
        }
        a = a - 1;
    }
    proof {
        lemma_last_at(path@, '/', a as int);
    }
    let ghost name = path@.skip(a as int);
    let mut b: usize = n;
    while b > a
        invariant_except_break
            n == path@.len(),
            a <= b <= n,
            forall|p: int| b <= p < n ==> path@[p] != '.',
        ensures
            n == path@.len(),
            a <= b <= n,
            forall|p: int| b <= p < n ==> path@[p] != '.',
            b > a ==> path@[b - 1] == '.',
        decreases b,
    {
        if path.get_char(b - 1) == '.' {
            break ;
        }
        b = b - 1;
    }
    proof {
        assert forall|p: int| (b - a) <= p < name.len() implies name[p] != '.' by {
            assert(name[p] == path@[p + a]);
        }
        if b > a {
            assert(name[b - a - 1] == path@[b - 1 as int]);
        }
        lemma_last_at(name, '.', b - a);
    }
    if b - a < 2 {
        // no dot in the component, or a dot only at its first character
        return false;
    }
    let ext = path.substring_char(b, n);
    proof {
        assert(name.skip(b - a) =~= path@.subrange(b as int, n as int));
    }
    let json: String = "json".to_owned();
    ext.to_owned() == json
}

/// Resolves the blob-store settings from link values: keys are lowercased
/// (two keys that collide then reject the map), the sources `config_file`
/// (its text handed in by the caller), `config_b64` and `config_json` are
/// merged onto the defaults in that order, then a `root` key replaces the
/// root and a `port` key, read as a decimal, replaces the chunk size.
pub fn load_settings(values: &RawValues, file_text: Option<&str>) -> (r: Result<
    ServiceSettings,
    ConfigError,
>)
    ensures
        !spec_distinct_keys(spec_norm_keys(values@, false)) ==> r == Err::<
            ServiceSettings,
            ConfigError,
        >(ConfigError::Malformed),
        spec_distinct_keys(spec_norm_keys(values@, false)) ==> ({
            let m = spec_as_map(spec_norm_keys(values@, false));
            &&& (r matches Ok(s) ==> (m.contains_key("root"@) ==> s.root@ == m["root"@]))
            &&& (r matches Ok(s) ==> (m.contains_key("port"@) ==> (spec_parse_u32(m["port"@])
                matches Some(c) && s.chunk_size == c)))
            &&& (m.contains_key("port"@) && spec_parse_u32(m["port"@]) is None ==> r == Err::<
                ServiceSettings,
                ConfigError,
            >(ConfigError::Malformed))
            &&& (m.contains_key("config_file"@) && file_text is None ==> r == Err::<
                ServiceSettings,
                ConfigError,
            >(ConfigError::Malformed))
            &&& (m.contains_key("config_file"@) ==> (file_text matches Some(t)
                ==> (!spec_json_parses(t@) ==> r == Err::<ServiceSettings, ConfigError>(
                ConfigError::Malformed,
            ))))
            &&& (m.contains_key("config_b64"@) && spec_base64_decoding(m["config_b64"@]) is None
                ==> r == Err::<ServiceSettings, ConfigError>(ConfigError::Malformed))
            &&& (m.contains_key("config_b64"@) ==> (spec_base64_decoding(m["config_b64"@]) matches
            Some(bts) ==> (!spec_json_bytes_parse(bts) ==> r == Err::<ServiceSettings, ConfigError>(
                ConfigError::Malformed,
            ))))
            &&& (m.contains_key("config_json"@) && !spec_json_parses(m["config_json"@]) ==> r
                == Err::<ServiceSettings, ConfigError>(ConfigError::Malformed))
            &&& (!m.contains_key("config_file"@) && !m.contains_key("config_b64"@)
                && !m.contains_key("config_json"@) ==> {
                &&& (r is Ok <==> (m.contains_key("port"@) ==> spec_parse_u32(m["port"@]) is Some))
                &&& (r matches Ok(s) ==> s.root@ == (if m.contains_key("root"@) {
                    m["root"@]
                } else {
                    "/tmp"@
                }))
                &&& (r matches Ok(s) ==> s.chunk_size == (if m.contains_key("port"@) {
                    spec_parse_u32(m["port"@]).unwrap() as usize
                } else {
                    DEFAULT_CHUNK_SIZE as usize
                }))
            })
        }),
{
    let norm = match normalize_keys(values, false) {
        None => {
            return Err(ConfigError::Malformed);
        },
        Some(n) => n,
    };
    let mut settings = ServiceSettings::default();
    if norm.has("config_file") {
        match file_text {
            None => {
                return Err(ConfigError::Malformed);
            },
            Some(txt) => match json_from_str(txt) {
                Ok(v) => match settings_from_json(&v) {
                    Ok(s) => settings.merge(s),
                    Err(e) => {
                        return Err(e);
                    },
                },
                Err(_) => {
                    return Err(ConfigError::Malformed);
                },
            },
        }
    }
    if let Some(b) = norm.get("config_b64") {
        match b64_decode(b.as_str()) {
            None => {
                return Err(ConfigError::Malformed);
            },
            Some(bytes) => match json_from_slice(bytes.as_slice()) {
                Ok(v) => match settings_from_json(&v) {
                    Ok(s) => settings.merge(s),
                    Err(e) => {
                        return Err(e);
                    },
                },
                Err(_) => {
                    return Err(ConfigError::Malformed);
                },
            },
        }
    }
    if let Some(j) = norm.get("config_json") {
        match json_from_str(j.as_str()) {
            Ok(v) => match settings_from_json(&v) {
                Ok(s) => settings.merge(s),
                Err(e) => {
                    return Err(e);
                },
            },
            Err(_) => {
                return Err(ConfigError::Malformed);
            },
        }
    }
    if let Some(root) = norm.get("root") {
        settings.root = root.clone();
    }
    if let Some(port) = norm.get("port") {
        match parse_u32(port.as_str()) {
            Some(c) => {
                settings.chunk_size = c as usize;
            },
            None => {
                return Err(ConfigError::Malformed);
            },
        }
    }
    Ok(settings)
}

} // verus!
