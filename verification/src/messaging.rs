//! The provider itself: one default configuration, the tenant-to-bundle
//! map, and the request-waiter bridge, with the decision logic of the
//! publish and request paths.  Carrying a message to or from the broker is
//! asynchronous work done by the caller; it asks the provider what to do,
//! performs the outside call, and hands the outcome back.

use vstd::prelude::*;

use crate::config::{
    parse_connection_config, spec_default_config, spec_resolve_post, resolve, ConnectionConfig,
};
use crate::connections::ConnectionManager;
use crate::errors::{ConfigError, PublishError, RequestError};
use crate::services::WaiterTable;
use crate::strutil::{is_blank, spec_blank};
use crate::values::RawValues;

verus! {

/// What a tenant link hands the provider: the tenant's identity and the raw
/// override values.
pub struct LinkDefinition {
    /// The tenant the link belongs to.
    pub actor_id: String,
    /// The raw configuration override supplied with the link.
    pub values: RawValues,
}

/// A fire-and-forget message.
pub struct PubMessage {
    /// The subject to publish on.
    pub subject: String,
    /// An optional reply destination to carry along.
    pub reply_to: Option<String>,
    /// The payload.
    pub body: Vec<u8>,
}

/// A synchronous request.
pub struct RequestMessage {
    /// The subject to request on.
    pub subject: String,
    /// The payload.
    pub body: Vec<u8>,
    /// How long to wait for the reply, in milliseconds.
    pub timeout_ms: u32,
}

/// A reply as handed back to the requesting tenant.
pub struct ReplyMessage {
    /// The subject the reply arrived on.
    pub subject: String,
    /// The reply's own reply destination, if any.
    pub reply_to: Option<String>,
    /// The payload, unchanged.
    pub body: Vec<u8>,
}

/// Whether a subject is a broker-internal one on which header metadata must
/// be left off: those starting with `$SYS`.
pub open spec fn spec_strip_headers(s: Seq<char>) -> bool {
    s.len() >= 4 && s[0] == '$' && s[1] == 'S' && s[2] == 'Y' && s[3] == 'S'
}

/// Whether header metadata must be left off messages to this subject.
pub fn should_strip_headers(topic: &str) -> (r: bool)
    ensures
        r == spec_strip_headers(topic@),
{
    let n = topic.unicode_len();
    if n < 4 {
        return false;
    }
    topic.get_char(0) == '$' && topic.get_char(1) == 'S' && topic.get_char(2) == 'Y'
        && topic.get_char(3) == 'S'
}

/// What the caller must do with a publish.
pub enum PublishPlan {
    /// A waiter was pending on the subject: the payload went to it, nothing
    /// is sent to the broker, and the publish call is already complete.
    DeliveredLocally,
    /// Publish externally on the tenant's connection; `strip_headers` says
    /// whether header metadata must be left off.
    Forward {
        /// Leave header metadata off the broker message.
        strip_headers: bool,
    },
}

/// What the caller must do with a request.
pub struct RequestPlan {
    /// Leave header metadata off the broker request.
    pub strip_headers: bool,
    /// The caller-supplied timeout to race the request against.
    pub timeout_ms: u64,
}

/// How the raced broker request ended, as the caller saw it.
pub enum RequestOutcome {
    /// The timeout won the race.
    TimedOut,
    /// The broker-level send failed; the underlying cause.
    SendFailed(String),
    /// A reply arrived in time.
    Replied(ReplyMessage),
}

/// Classifies the outcome of a raced request: a timeout is reported as
/// [`RequestError::Timeout`], a send failure as [`RequestError::Transport`]
/// with its cause, and a reply is returned with subject, reply destination
/// and body unchanged.
pub fn complete_request(outcome: RequestOutcome) -> (r: Result<ReplyMessage, RequestError>)
    ensures
        outcome is TimedOut <==> (r matches Err(e) && e is Timeout),
        outcome matches RequestOutcome::SendFailed(m) ==> (r matches Err(e) && (e matches
        RequestError::Transport(t) && t@ == m@)),
        outcome matches RequestOutcome::Replied(rep) ==> (r matches Ok(x) && x == rep),
{
    match outcome {
        RequestOutcome::TimedOut => Err(RequestError::Timeout),
        RequestOutcome::SendFailed(m) => Err(RequestError::Transport(m)),
        RequestOutcome::Replied(rep) => Ok(rep),
    }
}

/// The messaging provider: the process-wide default configuration, the
/// tenant-to-bundle map, and the request-waiter table.  `C` is the broker
/// connection handle the caller opens.
pub struct NatsMessagingProvider<C> {
    /// Broker connections and their subscription tasks, per tenant.
    pub actors: ConnectionManager<C>,
    /// The configuration a link starts from.
    pub default_config: ConnectionConfig,
    /// Pending request waiters, keyed by subject.
    pub waiters: WaiterTable,
}

impl<C> NatsMessagingProvider<C> {
    /// The provider's invariant: both shared tables are well-formed.
    pub open spec fn wf(&self) -> bool {
        self.actors.wf() && self.waiters.wf()
    }

    /// A provider with no tenants, no waiters and the default configuration.
    pub fn new() -> (r: NatsMessagingProvider<C>)
        ensures
            r.wf(),
            r.default_config@ == spec_default_config(),
            r.actors.tenant_count() == 0,
            forall|t: Seq<char>| !r.actors.linked(t),
            forall|s: Seq<char>| !r.waiters.is_pending(s),
    {
        NatsMessagingProvider {
            actors: ConnectionManager::new(),
            default_config: ConnectionConfig::default(),
            waiters: WaiterTable::new(),
        }
    }

    /// The effective configuration for a link: the default when the link
    /// carries no values, otherwise the default merged with the resolved
    /// override (see [`resolve`]).
    pub fn resolve_link_config(&self, ld: &LinkDefinition) -> (r: Result<
        ConnectionConfig,
        ConfigError,
    >)
        ensures
            ld.values@.len() == 0 ==> (r matches Ok(c) && c@ == self.default_config@),
            ld.values@.len() > 0 ==> spec_resolve_post(self.default_config@, ld.values@, r),
    {
        resolve(&self.default_config, Some(&ld.values))
    }

    /// Decides a publish: an unlinked tenant is rejected; a pending waiter
    /// on the subject consumes the payload and nothing goes to the broker;
    /// otherwise the message is forwarded externally, with header metadata
    /// stripped exactly on broker-internal subjects.
    pub fn plan_publish(&mut self, tenant: &str, subject: &str, payload: bytes::Bytes) -> (r:
        Result<PublishPlan, PublishError>)
        requires
            old(self).wf(),
        ensures
            final(self).wf(),
            final(self).actors == old(self).actors,
            final(self).default_config == old(self).default_config,
            !old(self).actors.linked(tenant@) ==> (r matches Err(e) && e is NotLinked
                && final(self).waiters == old(self).waiters),
            old(self).actors.linked(tenant@) && old(self).waiters.is_pending(subject@) ==> (r
                matches Ok(p) && p is DeliveredLocally && (forall|s: Seq<char>|
                #[trigger] final(self).waiters.is_pending(s) <==> (old(self).waiters.is_pending(s)
                    && s != subject@))),
            old(self).actors.linked(tenant@) && !old(self).waiters.is_pending(subject@) ==> (r
                matches Ok(p) && (p matches PublishPlan::Forward { strip_headers } && strip_headers
                == spec_strip_headers(subject@)) && final(self).waiters == old(self).waiters),
    {
        if self.actors.lookup(tenant).is_none() {
            return Err(PublishError::NotLinked);
        }
        if self.waiters.is_request_waiting(subject) {
            let _ = self.waiters.dispatch_request_waiter(subject, payload);
            return Ok(PublishPlan::DeliveredLocally);
        }
        Ok(PublishPlan::Forward { strip_headers: should_strip_headers(subject) })
    }

    /// Decides a request: an unlinked tenant is rejected; otherwise the
    /// caller races the broker request against the caller-supplied timeout
    /// and classifies the outcome with [`complete_request`].
    pub fn plan_request(&self, tenant: &str, msg: &RequestMessage) -> (r: Result<
        RequestPlan,
        RequestError,
    >)
        requires
            self.wf(),
        ensures
            r is Ok <==> self.actors.linked(tenant@),
            !self.actors.linked(tenant@) ==> (r matches Err(e) && e is NotLinked),
            r matches Ok(p) ==> p.strip_headers == spec_strip_headers(msg.subject@)
                && p.timeout_ms == msg.timeout_ms as u64,
    {
        if self.actors.lookup(tenant).is_none() {
            return Err(RequestError::NotLinked);
        }
        Ok(
            RequestPlan {
                strip_headers: should_strip_headers(msg.subject.as_str()),
                timeout_ms: msg.timeout_ms as u64,
            },
        )
    }
}

impl<C> Default for NatsMessagingProvider<C> {
    /// The same empty provider [`NatsMessagingProvider::new`] builds.
    fn default() -> (r: NatsMessagingProvider<C>)
        ensures
            r.wf(),
            r.default_config@ == spec_default_config(),
            r.actors.tenant_count() == 0,
    {
        NatsMessagingProvider::new()
    }
}

/// Builds a provider from the host-supplied configuration text: none, or a
/// blank text, yields the default configuration; otherwise the text must be
/// a structured configuration blob (see [`parse_connection_config`]).
pub fn generate_provider<C>(config_json: Option<&str>) -> (r: Result<
    NatsMessagingProvider<C>,
    ConfigError,
>)
    ensures
        config_json is None ==> (r matches Ok(p) && p.wf() && p.default_config@
            == spec_default_config()),
        config_json matches Some(s) && spec_blank(s@) ==> (r matches Ok(p) && p.wf()
            && p.default_config@ == spec_default_config()),
        r matches Ok(p) ==> p.wf() && p.actors.tenant_count() == 0,
{
    match config_json {
        None => Ok(NatsMessagingProvider::new()),
        Some(s) => {
            if is_blank(s) {
                Ok(NatsMessagingProvider::new())
            } else {
                match parse_connection_config(s) {
                    Ok(c) => {
                        let mut p = NatsMessagingProvider::new();
                        p.default_config = c;
                        Ok(p)
                    },
                    Err(e) => Err(e),
                }
            }
        },
    }
}

} // verus!
