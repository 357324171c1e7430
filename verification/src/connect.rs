//! Turning a resolved configuration into a connection plan: which endpoint
//! to dial, with which credentials, which subscriptions to open (plain or
//! queue-group) and which service endpoints to declare.  Dialling the
//! broker and starting the tasks is the caller's asynchronous work; it
//! follows this plan literally.

use vstd::prelude::*;
use vstd::string::StringExecFns;

use crate::config::{spec_cred_invalid, ConfigModel, ConnectionConfig};
use crate::errors::LinkError;
use crate::strutil::spec_split_once;
use crate::strutil::split_once_on;

verus! {

/// How the connection authenticates.
pub enum AuthPlan {
    /// No credentials were configured.
    NoAuth,
    /// Token authentication: the token and the seed that signs the
    /// server's nonce.
    Jwt {
        /// The authentication token.
        jwt: String,
        /// The signing seed paired with the token.
        seed: String,
    },
}

/// One subscription to open.
pub struct SubscriptionSpec {
    /// The subject pattern.
    pub subject: String,
    /// The queue group, for a load-balanced subscription.
    pub queue: Option<String>,
}

/// One service endpoint to declare.
pub struct EndpointPlan {
    /// The endpoint's name.
    pub endpoint: String,
    /// The subject the endpoint listens on: `name.endpoint`.
    pub subject: String,
}

/// The service to declare, when the configuration names one.
pub struct ServicePlan {
    /// The service's name.
    pub name: String,
    /// The service's description; `Unknown` when none is configured.
    pub description: String,
    /// The service's version; `0.0.1` when none is configured.
    pub version: String,
    /// The endpoints to declare.
    pub endpoints: Vec<EndpointPlan>,
}

/// Everything the caller needs to open one tenant's connection.
pub struct ConnectionPlan {
    /// The endpoint to dial: the first configured one.
    pub url: String,
    /// How to authenticate.
    pub auth: AuthPlan,
    /// The service to declare, if any.
    pub service: Option<ServicePlan>,
    /// The subscriptions to open, in configuration order, empty entries
    /// left out.
    pub subscriptions: Vec<SubscriptionSpec>,
}

/// What one configured subscription entry means: the text after the first
/// `|` names the queue group.
pub open spec fn spec_sub_plan(s: Seq<char>) -> (Seq<char>, Option<Seq<char>>) {
    match spec_split_once(s, '|') {
        Some(p) => (p.0, Some(p.1)),
        None => (s, None),
    }
}

/// The subscriptions a configured list calls for, in order, empty entries
/// left out.
pub open spec fn spec_sub_plans(subs: Seq<Seq<char>>) -> Seq<(Seq<char>, Option<Seq<char>>)>
    decreases subs.len(),
{
    if subs.len() == 0 {
        Seq::empty()
    } else {
        spec_sub_plans(subs.drop_last()) + (if subs.last().len() > 0 {
            seq![spec_sub_plan(subs.last())]
        } else {
            Seq::empty()
        })
    }
}

/// The endpoints a service declares: each configured name, listening on
/// `service.name`.
pub open spec fn spec_endpoint_plans(
    name: Seq<char>,
    eps: Seq<Seq<char>>,
) -> Seq<(Seq<char>, Seq<char>)> {
    eps.map_values(|e: Seq<char>| (e, name + "."@ + e))
}

/// The endpoint list of a configuration's service descriptor.
pub open spec fn spec_cfg_endpoints(c: ConfigModel) -> Seq<Seq<char>> {
    match c.service_endpoints {
        Some(e) => e,
        None => Seq::empty(),
    }
}

/// Computes the connection plan of a resolved configuration: the first
/// endpoint is dialled; credentials are used when both halves are present
/// and rejected when only one is; every declared service endpoint listens
/// on `service.endpoint`; every non-empty subscription entry is opened,
/// split at `|` into subject and queue group.  The caller must have
/// resolved the configuration, which guarantees an endpoint to dial.
pub fn connection_plan(cfg: &ConnectionConfig) -> (r: Result<ConnectionPlan, LinkError>)
    requires
        cfg@.cluster_uris.len() > 0,
    ensures
        r is Ok <==> !spec_cred_invalid(cfg@),
        spec_cred_invalid(cfg@) ==> (r matches Err(e) && e is Auth),
        r matches Ok(p) ==> {
            &&& p.url@ == cfg@.cluster_uris[0]
            &&& (cfg@.auth_jwt is Some ==> (p.auth matches AuthPlan::Jwt { jwt, seed } && Some(
                jwt@,
            ) == cfg@.auth_jwt && Some(seed@) == cfg@.auth_seed))
            &&& (cfg@.auth_jwt is None ==> p.auth is NoAuth)
            &&& (p.service is Some <==> cfg@.service_name is Some)
            &&& (p.service matches Some(sp) ==> {
                &&& Some(sp.name@) == cfg@.service_name
                &&& sp.description@ == (match cfg@.service_description {
                    Some(d) => d,
                    None => "Unknown"@,
                })
                &&& sp.version@ == (match cfg@.service_version {
                    Some(v) => v,
                    None => "0.0.1"@,
                })
                &&& sp.endpoints@.map_values(
                    |e: EndpointPlan| (e.endpoint@, e.subject@),
                ) == spec_endpoint_plans(cfg@.service_name.unwrap(), spec_cfg_endpoints(cfg@))
            })
            &&& p.subscriptions@.map_values(
                |ss: SubscriptionSpec| (ss.subject@, ss.queue.deep_view()),
            ) == spec_sub_plans(cfg@.subscriptions)
        },
{
    let auth = match (&cfg.auth_jwt, &cfg.auth_seed) {
        (Some(j), Some(s)) => AuthPlan::Jwt { jwt: j.clone(), seed: s.clone() },
        (None, None) => AuthPlan::NoAuth,
        _ => {
            return Err(LinkError::Auth(
                "must provide both jwt and seed for jwt authentication".to_owned(),
            ));
        },
    };
    let url = cfg.cluster_uris[0].clone();
    let service = match &cfg.service_name {
        None => None,
        Some(name) => {
            let description = match &cfg.service_description {
                Some(d) => d.clone(),
                None => "Unknown".to_owned(),
            };
            let version = match &cfg.service_version {
                Some(v) => v.clone(),
                None => "0.0.1".to_owned(),
            };
            let ghost egoal = spec_endpoint_plans(cfg@.service_name.unwrap(), spec_cfg_endpoints(
                cfg@,
            ));
            let mut endpoints: Vec<EndpointPlan> = Vec::new();
            match &cfg.service_endpoints {
                None => {
                    proof {
                        assert(endpoints@.map_values(
                            |e: EndpointPlan| (e.endpoint@, e.subject@),
                        ) =~= egoal);
                    }
                },
                Some(eps) => {
                    let mut i: usize = 0;
                    while i < eps.len()
                        invariant
                            i <= eps.len(),
                            eps.deep_view() == spec_cfg_endpoints(cfg@),
                            Some(name@) == cfg@.service_name,
                            egoal == spec_endpoint_plans(name@, eps.deep_view()),
                            endpoints@.len() == i,
                            forall|p: int|
                                0 <= p < i ==> ((#[trigger] endpoints@[p]).endpoint@,
                                endpoints@[p].subject@) == egoal[p],
                        decreases eps.len() - i,
                    {
                        let subject = name.clone().concat(".").concat(eps[i].as_str());
                        assert(subject@ == name@ + "."@ + eps.deep_view()[i as int]);
                        endpoints.push(EndpointPlan { endpoint: eps[i].clone(), subject });
                        i = i + 1;
                    }
                    proof {
                        assert(endpoints@.map_values(
                            |e: EndpointPlan| (e.endpoint@, e.subject@),
                        ) =~= egoal);
                    }
                },
            }
            Some(ServicePlan { name: name.clone(), description, version, endpoints })
        },
    };
    let ghost sgoal = spec_sub_plans(cfg@.subscriptions);
    let mut subscriptions: Vec<SubscriptionSpec> = Vec::new();
    let mut i: usize = 0;
    proof {
        assert(cfg@.subscriptions.take(0) =~= Seq::<Seq<char>>::empty());
        assert(subscriptions@.map_values(
            |ss: SubscriptionSpec| (ss.subject@, ss.queue.deep_view()),
        ) =~= spec_sub_plans(cfg@.subscriptions.take(0)));
    }
    while i < cfg.subscriptions.len()
        invariant
            i <= cfg.subscriptions.len(),
            cfg.subscriptions.deep_view() == cfg@.subscriptions,
            subscriptions@.map_values(|ss: SubscriptionSpec| (ss.subject@, ss.queue.deep_view()))
                == spec_sub_plans(cfg@.subscriptions.take(i as int)),
        decreases cfg.subscriptions.len() - i,
    {
        let ghost before = subscriptions@.map_values(
            |ss: SubscriptionSpec| (ss.subject@, ss.queue.deep_view()),
        );
        proof {
            assert(cfg@.subscriptions.take(i + 1).drop_last() =~= cfg@.subscriptions.take(
                i as int,
            ));
        }
        let entry = &cfg.subscriptions[i];
        if !entry.as_str().is_empty() {
            let sub = match split_once_on(entry.as_str(), '|') {
                Some((subject, queue)) => SubscriptionSpec { subject, queue: Some(queue) },
                None => SubscriptionSpec { subject: entry.clone(), queue: None },
            };
            assert((sub.subject@, sub.queue.deep_view()) == spec_sub_plan(
                cfg@.subscriptions[i as int],
            ));
            subscriptions.push(sub);
            proof {
                assert(subscriptions@.map_values(
                    |ss: SubscriptionSpec| (ss.subject@, ss.queue.deep_view()),
                ) =~= before.push(spec_sub_plan(cfg@.subscriptions[i as int])));
                assert(subscriptions@.map_values(
                    |ss: SubscriptionSpec| (ss.subject@, ss.queue.deep_view()),
                ) =~= spec_sub_plans(cfg@.subscriptions.take(i + 1)));
            }
        } else {
            proof {
                assert(subscriptions@.map_values(
                    |ss: SubscriptionSpec| (ss.subject@, ss.queue.deep_view()),
                ) =~= spec_sub_plans(cfg@.subscriptions.take(i + 1)));
            }
        }
        i = i + 1;
    }
    proof {
        assert(cfg@.subscriptions.take(cfg@.subscriptions.len() as int) =~= cfg@.subscriptions);
    }
    Ok(ConnectionPlan { url, auth, service, subscriptions })
}

} // verus!
