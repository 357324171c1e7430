//! Configuration of the key-value vault store, resolved from link values
//! and process-environment overrides.  Reading the environment is the
//! caller's work; its findings are handed in as plain optional values.

use vstd::prelude::*;

use crate::errors::VaultConfigError;
use crate::strutil::{first_value, spec_first_value, spec_split, spec_trim, split_on, trim_ascii};
use crate::values::RawValues;

verus! {

/// What the caller found in the process environment: the vault address,
/// token, mount point and certificate list, each where set.
pub struct VaultEnv {
    /// The vault server address, where the environment sets one.
    pub addr: Option<String>,
    /// The access token, where the environment sets one.
    pub token: Option<String>,
    /// The mount point, where the environment sets one.
    pub mount: Option<String>,
    /// The comma-separated certificate paths, where the environment sets
    /// them.
    pub certs: Option<String>,
}

/// Connection settings of the vault store.
pub struct Config {
    /// Token for connecting to the vault server; required.
    pub token: String,
    /// Server address; defaults to the local server.
    pub addr: String,
    /// Mount point; defaults to `secret`.
    pub mount: String,
    /// Certificate file paths; an empty list leaves TLS off.
    pub certs: Vec<String>,
}

/// One setting, picked with this precedence: the environment first, then
/// the first link value under `k1`, then under `k2`.
pub open spec fn spec_pick(
    env: Option<Seq<char>>,
    vs: Seq<(Seq<char>, Seq<char>)>,
    k1: Seq<char>,
    k2: Seq<char>,
) -> Option<Seq<char>> {
    if env is Some {
        env
    } else if spec_first_value(vs, k1) is Some {
        spec_first_value(vs, k1)
    } else {
        spec_first_value(vs, k2)
    }
}

/// The certificate list a picked setting denotes: its comma-separated
/// pieces, each without surrounding whitespace; none picked means none.
pub open spec fn spec_cert_list(picked: Option<Seq<char>>) -> Seq<Seq<char>> {
    match picked {
        None => Seq::empty(),
        Some(cs) => spec_split(cs, ',').map_values(|p: Seq<char>| spec_trim(p)),
    }
}

impl Config {
    /// Resolves the configuration from environment findings and link
    /// values: for each setting the environment wins, then the link value
    /// under the lowercase key, then under the uppercase key (the mount
    /// point knows only its lowercase key).  A missing token is the one
    /// error; the address and mount fall back to their defaults, and the
    /// certificate list to empty.
    pub fn from_values(env: &VaultEnv, values: &RawValues) -> (r: Result<Config, VaultConfigError>)
        ensures
            r is Ok <==> spec_pick(env.token.deep_view(), values@, "token"@, "TOKEN"@) is Some,
            r is Err ==> r == Err::<Config, VaultConfigError>(VaultConfigError::MissingToken),
            r matches Ok(c) ==> {
                &&& Some(c.token@) == spec_pick(env.token.deep_view(), values@, "token"@, "TOKEN"@)
                &&& c.addr@ == (match spec_pick(
                    env.addr.deep_view(),
                    values@,
                    "addr"@,
                    "ADDR"@,
                ) {
                    Some(a) => a,
                    None => "http://127.0.0.1:8200"@,
                })
                &&& c.mount@ == (match spec_pick(
                    env.mount.deep_view(),
                    values@,
                    "mount"@,
                    "mount"@,
                ) {
                    Some(m) => m,
                    None => "secret"@,
                })
                &&& c.certs.deep_view() == spec_cert_list(
                    spec_pick(env.certs.deep_view(), values@, "certs"@, "CERTS"@),
                )
            },
    {
        let token = match pick(&env.token, values, "token", "TOKEN") {
            Some(t) => t,
            None => {
                return Err(VaultConfigError::MissingToken);
            },
        };
        let addr = match pick(&env.addr, values, "addr", "ADDR") {
            Some(a) => a,
            None => "http://127.0.0.1:8200".to_owned(),
        };
        let mount = match pick(&env.mount, values, "mount", "mount") {
            Some(m) => m,
            None => "secret".to_owned(),
        };
        let certs = match pick(&env.certs, values, "certs", "CERTS") {
            Some(cs) => {
                let parts = split_on(cs.as_str(), ',');
                let ghost goal = spec_cert_list(Some(cs@));
                let mut out: Vec<String> = Vec::new();
                let mut i: usize = 0;
                proof {
                    assert(out.deep_view() =~= goal.subrange(0, 0));
                }
                while i < parts.len()
                    invariant
                        i <= parts.len(),
                        parts.deep_view() == spec_split(cs@, ','),
                        goal == spec_cert_list(Some(cs@)),
                        goal.len() == parts@.len(),
                        out.deep_view() == goal.subrange(0, i as int),
                    decreases parts.len() - i,
                {
                    let ghost before = out.deep_view();
                    let t = trim_ascii(parts[i].as_str());
                    assert(t@ == goal[i as int]);
                    out.push(t);
                    proof {
                        assert(out.deep_view() =~= before.push(goal[i as int]));
                        assert(out.deep_view() =~= goal.subrange(0, i + 1));
                    }
                    i = i + 1;
                }
                proof {
                    assert(out.deep_view() =~= goal);
                }
                out
            },
            None => {
                let none_found: Vec<String> = Vec::new();
                proof {
                    assert(none_found.deep_view() =~= Seq::<Seq<char>>::empty());
                }
                none_found
            },
        };
        Ok(Config { token, addr, mount, certs })
    }
}

/// Picks one setting: the environment first, then the link value under
/// `k1`, then under `k2`; see [`spec_pick`].
fn pick(env: &Option<String>, values: &RawValues, k1: &str, k2: &str) -> (r: Option<String>)
    ensures
        r is Some <==> spec_pick(env.deep_view(), values@, k1@, k2@) is Some,
        r matches Some(v) ==> Some(v@) == spec_pick(env.deep_view(), values@, k1@, k2@),
{
    match env {
        Some(e) => Some(e.clone()),
        None => match first_value(&values.entries, k1) {
            Some(v) => Some(v.clone()),
            None => match first_value(&values.entries, k2) {
                Some(v) => Some(v.clone()),
                None => None,
            },
        },
    }
}

} // verus!
