//! Connection configuration for a tenant's broker connection, and the rules
//! that merge a process-wide default with a per-tenant override.
//!
//! What a structured configuration blob (`CONFIG_B64`, `CONFIG_JSON`) means
//! is decided by the outside JSON parser.  Whether a text parses is named
//! (`spec_json_parses`, `spec_json_bytes_parse`), so the blob path's failure
//! cases are pinned; what an accepted document holds stays behind the opaque
//! parsed value, so its success case is pinned only up to the scalar
//! overrides applied on top and the validity of whatever came out.
//! Blob-free overrides are pinned exactly.  Naming the parsed value itself
//! would move the whole document meaning into the trusted surface instead.

use vstd::prelude::*;

use crate::errors::ConfigError;
use crate::json::{
    b64_decode, json_as_array, json_as_string, json_as_u64, json_from_slice, json_from_str,
    json_get, json_is_null, json_is_object, spec_base64_decoding, spec_json_bytes_parse,
    spec_json_parses,
};
use crate::strutil::{
    clone_opt_string, clone_string_vec, opt_strings_equal, parse_u16, spec_parse_u16, spec_split,
    split_on, string_vecs_equal,
};
use crate::values::{normalize_keys, spec_as_map, spec_distinct_keys, spec_norm_keys, NormValues,
    RawValues};

verus! {

/// Mathematical model of a [`ConnectionConfig`]: every field as a sequence of
/// characters or a plain value.
pub ghost struct ConfigModel {
    pub subscriptions: Seq<Seq<char>>,
    pub cluster_uris: Seq<Seq<char>>,
    pub auth_jwt: Option<Seq<char>>,
    pub auth_seed: Option<Seq<char>>,
    pub service_name: Option<Seq<char>>,
    pub service_description: Option<Seq<char>>,
    pub service_endpoints: Option<Seq<Seq<char>>>,
    pub service_version: Option<Seq<char>>,
    pub ping_interval_sec: Option<u16>,
}

/// Configuration for connecting one tenant to the broker.
///
/// `subscriptions` lists subject patterns, each optionally suffixed with
/// `|queue-group`.  `auth_jwt` and `auth_seed` must be supplied together or
/// not at all.  The optional service descriptor (`service_name`,
/// `service_description`, `service_endpoints`, `service_version`) declares a
/// named service with one endpoint per listed name.
#[derive(Debug)]
pub struct ConnectionConfig {
    /// Subject patterns to subscribe to.
    pub subscriptions: Vec<String>,
    /// Broker endpoints; the first one is used to connect.
    pub cluster_uris: Vec<String>,
    /// Authentication token; paired with `auth_seed`.
    pub auth_jwt: Option<String>,
    /// Signing seed; paired with `auth_jwt`.
    pub auth_seed: Option<String>,
    /// Name of the declared service, if any.
    pub service_name: Option<String>,
    /// Human-readable description of the declared service.
    pub service_description: Option<String>,
    /// Endpoint names of the declared service.
    pub service_endpoints: Option<Vec<String>>,
    /// Version string of the declared service.
    pub service_version: Option<String>,
    /// Ping interval in seconds, if configured.
    pub ping_interval_sec: Option<u16>,
}

impl View for ConnectionConfig {
    type V = ConfigModel;

    open spec fn view(&self) -> ConfigModel {
        ConfigModel {
            subscriptions: self.subscriptions.deep_view(),
            cluster_uris: self.cluster_uris.deep_view(),
            auth_jwt: self.auth_jwt.deep_view(),
            auth_seed: self.auth_seed.deep_view(),
            service_name: self.service_name.deep_view(),
            service_description: self.service_description.deep_view(),
            service_endpoints: self.service_endpoints.deep_view(),
            service_version: self.service_version.deep_view(),
            ping_interval_sec: self.ping_interval_sec,
        }
    }
}

/// The broker endpoint used when none is configured.
pub open spec fn spec_default_uri() -> Seq<char> {
    "0.0.0.0:4222"@
}

/// Model of [`ConnectionConfig::default`]: no subscriptions, the default
/// endpoint, and nothing else.
pub open spec fn spec_default_config() -> ConfigModel {
    ConfigModel {
        subscriptions: Seq::empty(),
        cluster_uris: seq![spec_default_uri()],
        auth_jwt: None,
        auth_seed: None,
        service_name: None,
        service_description: None,
        service_endpoints: None,
        service_version: None,
        ping_interval_sec: None,
    }
}

/// Merge rule for one override on top of one base configuration: a non-empty
/// list field of the override replaces the base list wholesale, a present
/// option field replaces the base option, and a present `service_name` brings
/// the whole service descriptor of the override with it.
pub open spec fn spec_merge(base: ConfigModel, extra: ConfigModel) -> ConfigModel {
    ConfigModel {
        subscriptions: if extra.subscriptions.len() == 0 {
            base.subscriptions
        } else {
            extra.subscriptions
        },
        cluster_uris: if extra.cluster_uris.len() == 0 {
            base.cluster_uris
        } else {
            extra.cluster_uris
        },
        auth_jwt: if extra.auth_jwt is Some {
            extra.auth_jwt
        } else {
            base.auth_jwt
        },
        auth_seed: if extra.auth_seed is Some {
            extra.auth_seed
        } else {
            base.auth_seed
        },
        service_name: if extra.service_name is Some {
            extra.service_name
        } else {
            base.service_name
        },
        service_description: if extra.service_name is Some {
            extra.service_description
        } else {
            base.service_description
        },
        service_endpoints: if extra.service_name is Some {
            extra.service_endpoints
        } else {
            base.service_endpoints
        },
        service_version: if extra.service_name is Some {
            extra.service_version
        } else {
            base.service_version
        },
        ping_interval_sec: if extra.ping_interval_sec is Some {
            extra.ping_interval_sec
        } else {
            base.ping_interval_sec
        },
    }
}

impl ConnectionConfig {
    /// Merges `extra` on top of `self` and returns the result; neither input
    /// is changed.  See [`spec_merge`] for the exact rule.
    pub fn merge(&self, extra: &ConnectionConfig) -> (r: ConnectionConfig)
        ensures
            r@ == spec_merge(self@, extra@),
    {
        let subscriptions = if extra.subscriptions.len() == 0 {
            clone_string_vec(&self.subscriptions)
        } else {
            clone_string_vec(&extra.subscriptions)
        };
        let cluster_uris = if extra.cluster_uris.len() == 0 {
            clone_string_vec(&self.cluster_uris)
        } else {
            clone_string_vec(&extra.cluster_uris)
        };
        let auth_jwt = if extra.auth_jwt.is_some() {
            clone_opt_string(&extra.auth_jwt)
        } else {
            clone_opt_string(&self.auth_jwt)
        };
        let auth_seed = if extra.auth_seed.is_some() {
            clone_opt_string(&extra.auth_seed)
        } else {
            clone_opt_string(&self.auth_seed)
        };
        let take_service = extra.service_name.is_some();
        let service_name = if take_service {
            clone_opt_string(&extra.service_name)
        } else {
            clone_opt_string(&self.service_name)
        };
        let service_description = if take_service {
            clone_opt_string(&extra.service_description)
        } else {
            clone_opt_string(&self.service_description)
        };
        let service_endpoints = if take_service {
            clone_opt_string_vec(&extra.service_endpoints)
        } else {
            clone_opt_string_vec(&self.service_endpoints)
        };
        let service_version = if take_service {
            clone_opt_string(&extra.service_version)
        } else {
            clone_opt_string(&self.service_version)
        };
        let ping_interval_sec = if extra.ping_interval_sec.is_some() {
            extra.ping_interval_sec
        } else {
            self.ping_interval_sec
        };
        ConnectionConfig {
            subscriptions,
            cluster_uris,
            auth_jwt,
            auth_seed,
            service_name,
            service_description,
            service_endpoints,
            service_version,
            ping_interval_sec,
        }
    }

    /// An equal copy of this configuration.
    pub fn duplicate(&self) -> (r: ConnectionConfig)
        ensures
            r@ == self@,
    {
        ConnectionConfig {
            subscriptions: clone_string_vec(&self.subscriptions),
            cluster_uris: clone_string_vec(&self.cluster_uris),
            auth_jwt: clone_opt_string(&self.auth_jwt),
            auth_seed: clone_opt_string(&self.auth_seed),
            service_name: clone_opt_string(&self.service_name),
            service_description: clone_opt_string(&self.service_description),
            service_endpoints: clone_opt_string_vec(&self.service_endpoints),
            service_version: clone_opt_string(&self.service_version),
            ping_interval_sec: self.ping_interval_sec,
        }
    }
}

/// Clone of an optional `Vec<String>` that provably returns an equal value.
fn clone_opt_string_vec(o: &Option<Vec<String>>) -> (r: Option<Vec<String>>)
    ensures
        r.deep_view() == o.deep_view(),
{
    match o {
        Some(v) => Some(clone_string_vec(v)),
        None => None,
    }
}

impl Default for ConnectionConfig {
    /// The default configuration: no subscriptions, the default endpoint, no
    /// credentials, no service descriptor, no ping interval.
    fn default() -> (c: ConnectionConfig)
        ensures
            c@ == spec_default_config(),
    {
        let uri: String = "0.0.0.0:4222".to_owned();
        let mut cluster_uris: Vec<String> = Vec::new();
        cluster_uris.push(uri);
        let c = ConnectionConfig {
            subscriptions: Vec::new(),
            cluster_uris,
            auth_jwt: None,
            auth_seed: None,
            service_name: None,
            service_description: None,
            service_endpoints: None,
            service_version: None,
            ping_interval_sec: None,
        };
        proof {
            assert(c@.subscriptions =~= spec_default_config().subscriptions);
            assert(c@.cluster_uris =~= spec_default_config().cluster_uris);
        }
        c
    }
}

impl PartialEq for ConnectionConfig {
    fn eq(&self, other: &ConnectionConfig) -> (r: bool) {
        string_vecs_equal(&self.subscriptions, &other.subscriptions)
            && string_vecs_equal(&self.cluster_uris, &other.cluster_uris)
            && opt_strings_equal(&self.auth_jwt, &other.auth_jwt)
            && opt_strings_equal(&self.auth_seed, &other.auth_seed)
            && opt_strings_equal(&self.service_name, &other.service_name)
            && opt_strings_equal(&self.service_description, &other.service_description)
            && opt_string_vecs_equal(&self.service_endpoints, &other.service_endpoints)
            && opt_strings_equal(&self.service_version, &other.service_version)
            && self.ping_interval_sec == other.ping_interval_sec
    }
}

impl vstd::std_specs::cmp::PartialEqSpecImpl for ConnectionConfig {
    open spec fn obeys_eq_spec() -> bool {
        true
    }

    open spec fn eq_spec(&self, other: &ConnectionConfig) -> bool {
        self@ == other@
    }
}

/// Whether exactly one half of the credential pair is present.
pub open spec fn spec_cred_invalid(c: ConfigModel) -> bool {
    (c.auth_jwt is Some) != (c.auth_seed is Some)
}

/// The scalar override fields of the normalized map `m`, applied on top of
/// `base`: explicit subscriptions accumulate onto the base list, endpoints
/// replace it, and every other present key replaces its field; an absent
/// key leaves the base's field standing.
pub open spec fn spec_apply_scalars(base: ConfigModel, m: Map<Seq<char>, Seq<char>>) -> ConfigModel {
    ConfigModel {
        subscriptions: if m.contains_key("SUBSCRIPTION"@) {
            base.subscriptions + spec_split(m["SUBSCRIPTION"@], ',')
        } else {
            base.subscriptions
        },
        cluster_uris: if m.contains_key("URI"@) {
            spec_split(m["URI"@], ',')
        } else {
            base.cluster_uris
        },
        auth_jwt: if m.contains_key("CLIENT_JWT"@) {
            Some(m["CLIENT_JWT"@])
        } else {
            base.auth_jwt
        },
        auth_seed: if m.contains_key("CLIENT_SEED"@) {
            Some(m["CLIENT_SEED"@])
        } else {
            base.auth_seed
        },
        service_name: if m.contains_key("SERVICE_NAME"@) {
            Some(m["SERVICE_NAME"@])
        } else {
            base.service_name
        },
        service_description: if m.contains_key("SERVICE_DESCRIPTION"@) {
            Some(m["SERVICE_DESCRIPTION"@])
        } else {
            base.service_description
        },
        service_endpoints: if m.contains_key("SERVICE_ENDPOINTS"@) {
            Some(spec_split(m["SERVICE_ENDPOINTS"@], ','))
        } else {
            base.service_endpoints
        },
        service_version: if m.contains_key("SERVICE_VERSION"@) {
            Some(m["SERVICE_VERSION"@])
        } else {
            base.service_version
        },
        ping_interval_sec: if m.contains_key("PING_INTERVAL_SEC"@) {
            spec_parse_u16(m["PING_INTERVAL_SEC"@])
        } else {
            base.ping_interval_sec
        },
    }
}

/// Guarantees at least one endpoint: an empty endpoint list falls back to
/// the default one.
pub open spec fn spec_finalize(c: ConfigModel) -> ConfigModel {
    if c.cluster_uris.len() == 0 {
        ConfigModel { cluster_uris: seq![spec_default_uri()], ..c }
    } else {
        c
    }
}

/// The normalized (uppercased) key-to-value map of a raw override.
pub open spec fn spec_norm_map(vs: Seq<(Seq<char>, Seq<char>)>) -> Map<Seq<char>, Seq<char>> {
    spec_as_map(spec_norm_keys(vs, true))
}

/// Whether the override carries no structured configuration blob.
pub open spec fn spec_blob_free(m: Map<Seq<char>, Seq<char>>) -> bool {
    !m.contains_key("CONFIG_B64"@) && !m.contains_key("CONFIG_JSON"@)
}

/// Whether the ping-interval override, if present, is a decimal that fits.
pub open spec fn spec_ping_ok(m: Map<Seq<char>, Seq<char>>) -> bool {
    m.contains_key("PING_INTERVAL_SEC"@) ==> spec_parse_u16(m["PING_INTERVAL_SEC"@]) is Some
}

/// What a blob-free override denotes on its own: the scalar fields applied
/// to the default configuration, with the endpoint fallback.
pub open spec fn spec_new_from_ok(m: Map<Seq<char>, Seq<char>>) -> ConfigModel {
    spec_finalize(spec_apply_scalars(spec_default_config(), m))
}

impl ConnectionConfig {
    /// Builds a configuration from raw override values alone, as
    /// [`resolve`] uses it: keys are uppercased (two keys that collide then
    /// reject the map), a structured blob under `CONFIG_B64` or
    /// `CONFIG_JSON` is decoded first, the scalar keys are applied on top,
    /// a half-supplied credential pair is rejected, and an empty endpoint
    /// list falls back to the default endpoint.
    pub fn new_from(values: &RawValues) -> (r: Result<ConnectionConfig, ConfigError>)
        ensures
            !spec_distinct_keys(spec_norm_keys(values@, true)) ==> r == Err::<
                ConnectionConfig,
                ConfigError,
            >(ConfigError::Malformed),
            spec_distinct_keys(spec_norm_keys(values@, true)) && spec_blob_free(
                spec_norm_map(values@),
            ) ==> ({
                let m = spec_norm_map(values@);
                &&& (r is Ok <==> spec_ping_ok(m) && !spec_cred_invalid(
                    spec_apply_scalars(spec_default_config(), m),
                ))
                &&& (r matches Ok(c) ==> c@ == spec_new_from_ok(m))
                &&& (!spec_ping_ok(m) ==> r == Err::<ConnectionConfig, ConfigError>(
                    ConfigError::Malformed,
                ))
                &&& (spec_ping_ok(m) && spec_cred_invalid(
                    spec_apply_scalars(spec_default_config(), m),
                ) ==> r == Err::<ConnectionConfig, ConfigError>(ConfigError::InvalidCredential))
            }),
            spec_distinct_keys(spec_norm_keys(values@, true)) ==> ({
                let m = spec_norm_map(values@);
                &&& (r matches Ok(c) ==> !spec_cred_invalid(c@) && c@.cluster_uris.len() > 0)
                &&& (r matches Ok(c) ==> (m.contains_key("URI"@) ==> c@.cluster_uris
                    == spec_split(m["URI"@], ',')))
                &&& (r matches Ok(c) ==> (m.contains_key("CLIENT_JWT"@) ==> c@.auth_jwt == Some(
                    m["CLIENT_JWT"@],
                )))
                &&& (r matches Ok(c) ==> (m.contains_key("CLIENT_SEED"@) ==> c@.auth_seed == Some(
                    m["CLIENT_SEED"@],
                )))
                &&& (r matches Ok(c) ==> (m.contains_key("SERVICE_NAME"@) ==> c@.service_name
                    == Some(m["SERVICE_NAME"@])))
                &&& (r matches Ok(c) ==> (m.contains_key("SERVICE_DESCRIPTION"@)
                    ==> c@.service_description == Some(m["SERVICE_DESCRIPTION"@])))
                &&& (r matches Ok(c) ==> (m.contains_key("SERVICE_VERSION"@) ==> c@.service_version
                    == Some(m["SERVICE_VERSION"@])))
                &&& (r matches Ok(c) ==> (m.contains_key("SERVICE_ENDPOINTS"@)
                    ==> c@.service_endpoints == Some(spec_split(m["SERVICE_ENDPOINTS"@], ','))))
                &&& (r matches Ok(c) ==> (m.contains_key("SUBSCRIPTION"@) ==> spec_split(
                    m["SUBSCRIPTION"@],
                    ',',
                ).is_suffix_of(c@.subscriptions)))
                &&& (m.contains_key("PING_INTERVAL_SEC"@) && spec_parse_u16(
                    m["PING_INTERVAL_SEC"@],
                ) is None ==> r == Err::<ConnectionConfig, ConfigError>(ConfigError::Malformed))
                &&& (m.contains_key("CONFIG_B64"@) && spec_base64_decoding(m["CONFIG_B64"@])
                    is None ==> r == Err::<ConnectionConfig, ConfigError>(ConfigError::Malformed))
                &&& (m.contains_key("CONFIG_B64"@) ==> (spec_base64_decoding(m["CONFIG_B64"@])
                    matches Some(bts) ==> (!spec_json_bytes_parse(bts) ==> r == Err::<
                    ConnectionConfig,
                    ConfigError,
                >(ConfigError::Malformed))))
                &&& (!m.contains_key("CONFIG_B64"@) && m.contains_key("CONFIG_JSON"@)
                    && !spec_json_parses(m["CONFIG_JSON"@]) ==> r == Err::<
                    ConnectionConfig,
                    ConfigError,
                >(ConfigError::Malformed))
            }),
    {
        match normalize_keys(values, true) {
            None => Err(ConfigError::Malformed),
            Some(norm) => {
                let base = if let Some(b) = norm.get("CONFIG_B64") {
                    match b64_decode(b.as_str()) {
                        None => {
                            return Err(ConfigError::Malformed);
                        },
                        Some(bytes) => match json_from_slice(bytes.as_slice()) {
                            Ok(v) => match config_from_json(&v) {
                                Ok(c) => c,
                                Err(e) => {
                                    return Err(e);
                                },
                            },
                            Err(_) => {
                                return Err(ConfigError::Malformed);
                            },
                        },
                    }
                } else if let Some(j) = norm.get("CONFIG_JSON") {
                    match parse_connection_config(j.as_str()) {
                        Ok(c) => c,
                        Err(e) => {
                            return Err(e);
                        },
                    }
                } else {
                    ConnectionConfig::default()
                };
                let r = apply_overrides(base, &norm);
                proof {
                    let m = spec_norm_map(values@);
                    if m.contains_key("URI"@) {
                        crate::strutil::lemma_split_nonempty(m["URI"@], ',');
                    }
                    if m.contains_key("SUBSCRIPTION"@) {
                        let ssubs = spec_split(m["SUBSCRIPTION"@], ',');
                        let bsubs = base@.subscriptions;
                        assert((bsubs + ssubs).subrange(
                            (bsubs + ssubs).len() - ssubs.len(),
                            (bsubs + ssubs).len() as int,
                        ) =~= ssubs);
                    }
                }
                r
            },
        }
    }
}

/// Applies the scalar override keys of `norm` on top of `base`, validates
/// the credential pair, and falls back to the default endpoint.  This is the
/// exactly specified tail of [`ConnectionConfig::new_from`].
pub fn apply_overrides(base: ConnectionConfig, norm: &NormValues) -> (r: Result<
    ConnectionConfig,
    ConfigError,
>)
    requires
        norm.wf(),
    ensures
        r is Ok <==> spec_ping_ok(norm@) && !spec_cred_invalid(spec_apply_scalars(base@, norm@)),
        r matches Ok(c) ==> c@ == spec_finalize(spec_apply_scalars(base@, norm@)),
        !spec_ping_ok(norm@) ==> r == Err::<ConnectionConfig, ConfigError>(ConfigError::Malformed),
        spec_ping_ok(norm@) && spec_cred_invalid(spec_apply_scalars(base@, norm@)) ==> r == Err::<
            ConnectionConfig,
            ConfigError,
        >(ConfigError::InvalidCredential),
{
    let ghost target = spec_apply_scalars(base@, norm@);
    let mut c = base;
    if let Some(sub) = norm.get("SUBSCRIPTION") {
        let mut parts = split_on(sub.as_str(), ',');
        c.subscriptions.append(&mut parts);
    }
    proof {
        assert(c@.subscriptions =~= target.subscriptions);
    }
    if let Some(u) = norm.get("URI") {
        c.cluster_uris = split_on(u.as_str(), ',');
    }
    if let Some(j) = norm.get("CLIENT_JWT") {
        c.auth_jwt = Some(j.clone());
    }
    if let Some(sd) = norm.get("CLIENT_SEED") {
        c.auth_seed = Some(sd.clone());
    }
    if let Some(v) = norm.get("SERVICE_NAME") {
        c.service_name = Some(v.clone());
    }
    if let Some(v) = norm.get("SERVICE_DESCRIPTION") {
        c.service_description = Some(v.clone());
    }
    if let Some(v) = norm.get("SERVICE_VERSION") {
        c.service_version = Some(v.clone());
    }
    if let Some(v) = norm.get("SERVICE_ENDPOINTS") {
        c.service_endpoints = Some(split_on(v.as_str(), ','));
    }
    match norm.get("PING_INTERVAL_SEC") {
        Some(p) => match parse_u16(p.as_str()) {
            Some(x) => {
                c.ping_interval_sec = Some(x);
            },
            None => {
                return Err(ConfigError::Malformed);
            },
        },
        None => {},
    }
    proof {
        assert(c@.cluster_uris =~= target.cluster_uris);
        assert(c@ == target);
    }
    if c.auth_jwt.is_some() != c.auth_seed.is_some() {
        return Err(ConfigError::InvalidCredential);
    }
    if c.cluster_uris.len() == 0 {
        c.cluster_uris.push("0.0.0.0:4222".to_owned());
        proof {
            assert(c@.cluster_uris =~= spec_finalize(target).cluster_uris);
        }
    }
    proof {
        assert(c@ == spec_finalize(target));
    }
    Ok(c)
}

/// Everything [`resolve`] promises of its result `r` for a non-empty
/// override `vs` against the default `d`.  Keys that collide once uppercased
/// make the override malformed; for a blob-free override the outcome is a
/// function of the inputs: success exactly when the ping interval parses and
/// neither the override alone nor the merged result is left with half a
/// credential pair, and on success the value is the merge of `d` with what
/// the override denotes.
pub open spec fn spec_resolve_post(
    d: ConfigModel,
    vs: Seq<(Seq<char>, Seq<char>)>,
    r: Result<ConnectionConfig, ConfigError>,
) -> bool {
    &&& (!spec_distinct_keys(spec_norm_keys(vs, true)) ==> r == Err::<
        ConnectionConfig,
        ConfigError,
    >(ConfigError::Malformed))
    &&& (spec_distinct_keys(spec_norm_keys(vs, true)) ==> ({
        let m = spec_norm_map(vs);
        &&& (r matches Ok(c) ==> !spec_cred_invalid(c@) && c@.cluster_uris.len() > 0)
        &&& (m.contains_key("CONFIG_B64"@) && spec_base64_decoding(m["CONFIG_B64"@]) is None
            ==> r == Err::<ConnectionConfig, ConfigError>(ConfigError::Malformed))
        &&& (m.contains_key("CONFIG_B64"@) ==> (spec_base64_decoding(m["CONFIG_B64"@]) matches
        Some(bts) ==> (!spec_json_bytes_parse(bts) ==> r == Err::<ConnectionConfig, ConfigError>(
            ConfigError::Malformed,
        ))))
        &&& (!m.contains_key("CONFIG_B64"@) && m.contains_key("CONFIG_JSON"@)
            && !spec_json_parses(m["CONFIG_JSON"@]) ==> r == Err::<ConnectionConfig, ConfigError>(
            ConfigError::Malformed,
        ))
        &&& (m.contains_key("PING_INTERVAL_SEC"@) && spec_parse_u16(m["PING_INTERVAL_SEC"@])
            is None ==> r == Err::<ConnectionConfig, ConfigError>(ConfigError::Malformed))
        &&& (spec_blob_free(m) ==> {
            &&& (r is Ok <==> spec_ping_ok(m) && !spec_cred_invalid(
                spec_apply_scalars(spec_default_config(), m),
            ) && !spec_cred_invalid(spec_merge(d, spec_new_from_ok(m))))
            &&& (r matches Ok(c) ==> c@ == spec_merge(d, spec_new_from_ok(m)))
            &&& (!spec_ping_ok(m) ==> r == Err::<ConnectionConfig, ConfigError>(
                ConfigError::Malformed,
            ))
            &&& (spec_ping_ok(m) && (spec_cred_invalid(
                spec_apply_scalars(spec_default_config(), m),
            ) || spec_cred_invalid(spec_merge(d, spec_new_from_ok(m)))) ==> r == Err::<
                ConnectionConfig,
                ConfigError,
            >(ConfigError::InvalidCredential))
        })
    }))
}

/// Resolution is deterministic, hence idempotent: two resolutions of the
/// same default and the same blob-free override agree — they succeed or fail
/// alike, successes carry equal configurations, and failures carry the same
/// error.
pub proof fn lemma_resolve_deterministic(
    d: ConfigModel,
    vs: Seq<(Seq<char>, Seq<char>)>,
    r1: Result<ConnectionConfig, ConfigError>,
    r2: Result<ConnectionConfig, ConfigError>,
)
    requires
        vs.len() > 0,
        spec_blob_free(spec_norm_map(vs)),
        spec_resolve_post(d, vs, r1),
        spec_resolve_post(d, vs, r2),
    ensures
        r1 is Ok <==> r2 is Ok,
        r1 matches Ok(c1) ==> (r2 matches Ok(c2) && c1@ == c2@),
        r1 is Err ==> r1 == r2,
{
}

/// An override that supplies a signing seed without its token, or a token
/// without its seed, is rejected as an invalid credential, whatever the
/// default: the override is validated on its own before the merge.
pub proof fn lemma_half_credential_rejected(
    d: ConfigModel,
    vs: Seq<(Seq<char>, Seq<char>)>,
    r: Result<ConnectionConfig, ConfigError>,
)
    requires
        vs.len() > 0,
        spec_distinct_keys(spec_norm_keys(vs, true)),
        spec_blob_free(spec_norm_map(vs)),
        spec_ping_ok(spec_norm_map(vs)),
        spec_norm_map(vs).contains_key("CLIENT_JWT"@) != spec_norm_map(vs).contains_key(
            "CLIENT_SEED"@,
        ),
        spec_resolve_post(d, vs, r),
    ensures
        r == Err::<ConnectionConfig, ConfigError>(ConfigError::InvalidCredential),
{
    assert(spec_cred_invalid(spec_apply_scalars(spec_default_config(), spec_norm_map(vs))));
}

/// Merges a process-wide default with an optional per-tenant override and
/// validates the result, as a tenant link uses it: no override (or an empty
/// one) keeps the default unchanged; otherwise the override is resolved with
/// [`ConnectionConfig::new_from`], merged on top of the default with
/// [`ConnectionConfig::merge`], and a merged configuration with half a
/// credential pair is rejected.
pub fn resolve(default: &ConnectionConfig, values: Option<&RawValues>) -> (r: Result<
    ConnectionConfig,
    ConfigError,
>)
    ensures
        values is None ==> (r matches Ok(c) && c@ == default@),
        values matches Some(v) ==> (v@.len() == 0 ==> (r matches Ok(c) && c@ == default@)),
        values matches Some(v) ==> (v@.len() > 0 ==> spec_resolve_post(default@, v@, r)),
{
    match values {
        None => Ok(default.duplicate()),
        Some(v) => {
            if v.len() == 0 {
                return Ok(default.duplicate());
            }
            let cc = match ConnectionConfig::new_from(v) {
                Ok(cc) => cc,
                Err(e) => {
                    return Err(e);
                },
            };
            let merged = default.merge(&cc);
            if merged.auth_jwt.is_some() != merged.auth_seed.is_some() {
                return Err(ConfigError::InvalidCredential);
            }
            Ok(merged)
        },
    }
}

/// Turns a JSON value into a list of strings; anything else is malformed.
fn json_string_list(x: &serde_json::Value) -> (r: Result<Vec<String>, ConfigError>)
    ensures
        r matches Err(e) ==> e == ConfigError::Malformed,
{
    match json_as_array(x) {
        None => Err(ConfigError::Malformed),
        Some(arr) => {
            let mut out: Vec<String> = Vec::new();
            let mut i: usize = 0;
            while i < arr.len()
                decreases arr.len() - i,
            {
                match json_as_string(&arr[i]) {
                    Some(s) => out.push(s),
                    None => {
                        return Err(ConfigError::Malformed);
                    },
                }
                i = i + 1;
            }
            Ok(out)
        },
    }
}

/// Turns an optional JSON field into an optional string; a present field
/// that is neither a string nor null is malformed.
fn json_opt_string(v: Option<&serde_json::Value>) -> (r: Result<Option<String>, ConfigError>)
    ensures
        r matches Err(e) ==> e == ConfigError::Malformed,
{
    match v {
        None => Ok(None),
        Some(x) => {
            if json_is_null(x) {
                Ok(None)
            } else {
                match json_as_string(x) {
                    Some(s) => Ok(Some(s)),
                    None => Err(ConfigError::Malformed),
                }
            }
        },
    }
}

/// Reads a [`ConnectionConfig`] off a parsed JSON document: a missing field
/// keeps its default, a wrongly typed field is malformed.  What the document
/// holds is decided by the outside JSON parser; beyond the error variant,
/// nothing more is stated here.
fn config_from_json(v: &serde_json::Value) -> (r: Result<ConnectionConfig, ConfigError>)
    ensures
        r matches Err(e) ==> e == ConfigError::Malformed,
{
    if !json_is_object(v) {
        return Err(ConfigError::Malformed);
    }
    let subscriptions = match json_get(v, "subscriptions") {
        None => Vec::new(),
        Some(x) => match json_string_list(x) {
            Ok(l) => l,
            Err(e) => {
                return Err(e);
            },
        },
    };
    let cluster_uris = match json_get(v, "cluster_uris") {
        None => Vec::new(),
        Some(x) => match json_string_list(x) {
            Ok(l) => l,
            Err(e) => {
                return Err(e);
            },
        },
    };
    let auth_jwt = match json_opt_string(json_get(v, "auth_jwt")) {
        Ok(o) => o,
        Err(e) => {
            return Err(e);
        },
    };
    let auth_seed = match json_opt_string(json_get(v, "auth_seed")) {
        Ok(o) => o,
        Err(e) => {
            return Err(e);
        },
    };
    let service_name = match json_opt_string(json_get(v, "service_name")) {
        Ok(o) => o,
        Err(e) => {
            return Err(e);
        },
    };
    let service_description = match json_opt_string(json_get(v, "service_description")) {
        Ok(o) => o,
        Err(e) => {
            return Err(e);
        },
    };
    let service_version = match json_opt_string(json_get(v, "service_version")) {
        Ok(o) => o,
        Err(e) => {
            return Err(e);
        },
    };
    let service_endpoints = match json_get(v, "service_endpoints") {
        None => None,
        Some(x) => {
            if json_is_null(x) {
                None
            } else {
                match json_string_list(x) {
                    Ok(l) => Some(l),
                    Err(e) => {
                        return Err(e);
                    },
                }
            }
        },
    };
    let ping_interval_sec = match json_get(v, "ping_interval_sec") {
        None => None,
        Some(x) => {
            if json_is_null(x) {
                None
            } else {
                match json_as_u64(x) {
                    Some(n) => {
                        if n <= 65535 {
                            Some(n as u16)
                        } else {
                            return Err(ConfigError::Malformed);
                        }
                    },
                    None => {
                        return Err(ConfigError::Malformed);
                    },
                }
            }
        },
    };
    Ok(
        ConnectionConfig {
            subscriptions,
            cluster_uris,
            auth_jwt,
            auth_seed,
            service_name,
            service_description,
            service_endpoints,
            service_version,
            ping_interval_sec,
        },
    )
}

/// Parses a structured configuration blob, as `CONFIG_JSON` carries it: a
/// text the JSON parser rejects is malformed.  A text it accepts still
/// fails, also as malformed, when a field of the document has the wrong
/// type; what an accepted document holds is read off the opaque parsed
/// value, so no more is stated of the success case.
pub fn parse_connection_config(s: &str) -> (r: Result<ConnectionConfig, ConfigError>)
    ensures
        !spec_json_parses(s@) ==> r == Err::<ConnectionConfig, ConfigError>(
            ConfigError::Malformed,
        ),
        r matches Err(e) ==> e == ConfigError::Malformed,
{
    match json_from_str(s) {
        Ok(v) => config_from_json(&v),
        Err(_) => Err(ConfigError::Malformed),
    }
}

/// Equality of two optional `Vec<String>` by contents.
fn opt_string_vecs_equal(a: &Option<Vec<String>>, b: &Option<Vec<String>>) -> (r: bool)
    ensures
        r == (a.deep_view() == b.deep_view()),
{
    match (a, b) {
        (Some(x), Some(y)) => {
            let r = string_vecs_equal(x, y);
            proof {
                if a.deep_view() == b.deep_view() {
                    assert(x.deep_view() == y.deep_view());
                }
            }
            r
        },
        (None, None) => true,
        _ => false,
    }
}

} // verus!
