//! Decisions of the S3 blob store's client setup: which region to talk to
//! and with which credentials.  Building the HTTP client and signing
//! requests is the outside SDK's work, done by the caller along this plan.

use vstd::prelude::*;

use crate::strutil::{first_value, parse_u32, spec_first_value, spec_parse_u32};
use crate::values::RawValues;

verus! {

/// Which region the client talks to.
pub enum RegionPlan {
    /// The SDK's default region.
    DefaultRegion,
    /// A named region with an explicit endpoint.
    Custom {
        /// The region's name.
        name: String,
        /// The endpoint to send requests to.
        endpoint: String,
    },
}

/// Which credentials the client uses.
pub enum CredentialsPlan {
    /// The SDK's default credential chain.
    DefaultChain,
    /// Statically supplied credentials.
    Static {
        /// The access key.
        access_key: String,
        /// The secret key paired with it.
        secret_key: String,
        /// A session token, where one was supplied.
        token: Option<String>,
        /// How long the token stays valid, in seconds.
        valid_for: Option<u32>,
        /// The proxy to route requests through; none for a direct
        /// connection.
        proxy: Option<String>,
    },
}

/// Everything the caller needs to build the S3 client.
pub struct S3ClientPlan {
    /// Which region to talk to.
    pub region: RegionPlan,
    /// Which credentials to use.
    pub credentials: CredentialsPlan,
}

/// Whether static credentials are configured.
pub open spec fn spec_has_static_creds(vs: Seq<(Seq<char>, Seq<char>)>) -> bool {
    spec_first_value(vs, "AWS_ACCESS_KEY"@) is Some
}

/// Computes the client plan from link values: a `REGION` key selects a
/// custom region whose endpoint defaults to the standard one; an
/// `AWS_ACCESS_KEY` key selects static credentials, which must come with
/// their secret key and a proxy setting (an empty proxy means a direct
/// connection) — as the original wiring demanded, missing companions of a
/// supplied access key are a caller error.
pub fn s3_client_plan(values: &RawValues) -> (r: S3ClientPlan)
    requires
        spec_has_static_creds(values@) ==> spec_first_value(values@, "AWS_SECRET_ACCESS_KEY"@)
            is Some && spec_first_value(values@, "HTTP_PROXY"@) is Some,
        spec_has_static_creds(values@) ==> (spec_first_value(values@, "TOKEN_VALID_FOR"@) matches
            Some(v) ==> spec_parse_u32(v) is Some),
    ensures
        spec_first_value(values@, "REGION"@) is None ==> r.region is DefaultRegion,
        spec_first_value(values@, "REGION"@) matches Some(n) ==> (r.region matches
        RegionPlan::Custom { name, endpoint } && name@ == n && endpoint@ == (match spec_first_value(
            values@,
            "ENDPOINT"@,
        ) {
            Some(e) => e,
            None => "s3.us-east-1.amazonaws.com"@,
        })),
        !spec_has_static_creds(values@) ==> r.credentials is DefaultChain,
        spec_has_static_creds(values@) ==> (r.credentials matches CredentialsPlan::Static {
            access_key,
            secret_key,
            token,
            valid_for,
            proxy,
        } && {
            &&& Some(access_key@) == spec_first_value(values@, "AWS_ACCESS_KEY"@)
            &&& Some(secret_key@) == spec_first_value(values@, "AWS_SECRET_ACCESS_KEY"@)
            &&& token.deep_view() == spec_first_value(values@, "AWS_TOKEN"@)
            &&& valid_for == (match spec_first_value(values@, "TOKEN_VALID_FOR"@) {
                Some(v) => spec_parse_u32(v),
                None => None,
            })
            &&& proxy.deep_view() == (if spec_first_value(values@, "HTTP_PROXY"@).unwrap().len()
                > 0 {
                spec_first_value(values@, "HTTP_PROXY"@)
            } else {
                Option::<Seq<char>>::None
            })
        }),
{
    let region = match first_value(&values.entries, "REGION") {
        None => RegionPlan::DefaultRegion,
        Some(name) => {
            let endpoint = match first_value(&values.entries, "ENDPOINT") {
                Some(e) => e.clone(),
                None => "s3.us-east-1.amazonaws.com".to_owned(),
            };
            RegionPlan::Custom { name: name.clone(), endpoint }
        },
    };
    let credentials = match first_value(&values.entries, "AWS_ACCESS_KEY") {
        None => CredentialsPlan::DefaultChain,
        Some(access_key) => {
            let access_key = access_key.clone();
            let secret_key = match first_value(&values.entries, "AWS_SECRET_ACCESS_KEY") {
                Some(s) => s.clone(),
                None => {
                    // ruled out by this function's requires
                    proof {
                        assert(false);
                    }
                    String::new()
                },
            };
            let token = match first_value(&values.entries, "AWS_TOKEN") {
                Some(t) => Some(t.clone()),
                None => None,
            };
            let valid_for = match first_value(&values.entries, "TOKEN_VALID_FOR") {
                Some(v) => match parse_u32(v.as_str()) {
                    Some(n) => Some(n),
                    None => {
                        // ruled out by this function's requires
                        proof {
                            assert(false);
                        }
                        None
                    },
                },
                None => None,
            };
            let proxy = match first_value(&values.entries, "HTTP_PROXY") {
                Some(p) => {
                    if p.as_str().is_empty() {
                        None
                    } else {
                        Some(p.clone())
                    }
                },
                None => {
                    // ruled out by this function's requires
                    proof {
                        assert(false);
                    }
                    None
                },
            };
            CredentialsPlan::Static { access_key, secret_key, token, valid_for, proxy }
        },
    };
    S3ClientPlan { region, credentials }
}

} // verus!
