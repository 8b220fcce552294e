//! Publish fan-out planning: for each subscription of a topic, decide what
//! delivery work must happen. Queue-protocol subscriptions resolve to a
//! cached per-endpoint delivery client (create-on-miss); every other
//! protocol is logged only. The plan is handed to the unverified server
//! shell, which performs the sends; delivery failures are swallowed there,
//! so the plan alone decides what the caller sees.

use vstd::prelude::*;
use vstd::string::*;
use crate::state::{
    cache_wf, clone_message, ClientCache, Message, MessageV, Subscription, SubscriptionV,
};
use crate::strutil::{dec_str, str_eq, u64_to_string};

verus! {

/// Whether `url::Url::parse` accepts this string.
pub uninterp spec fn url_ok(s: Seq<char>) -> bool;

/// The scheme of the parsed URL.
pub uninterp spec fn url_scheme(s: Seq<char>) -> Seq<char>;

/// The host of the parsed URL, if it has one.
pub uninterp spec fn url_host(s: Seq<char>) -> Option<Seq<char>>;

/// The explicit port of the parsed URL, if any.
pub uninterp spec fn url_port(s: Seq<char>) -> Option<u16>;

/// The parts of a parsed endpoint URL that the fan-out reads.
pub struct UrlParts {
    pub scheme: String,
    pub host: Option<String>,
    pub port: Option<u16>,
}

/// Relies on url::Url::parse and the accessors Url::scheme, Url::host_str
/// and Url::port: parsing and all three accessors depend on the input
/// string alone.
#[verifier::external_body]
fn parse_url(s: &str) -> (r: Option<UrlParts>)
    ensures
        r is Some <==> url_ok(s@),
        r matches Some(p) ==> p.scheme@ == url_scheme(s@) && p.host.deep_view() == url_host(s@)
            && p.port == url_port(s@),
{
    match url::Url::parse(s) {
        Ok(u) => Some(
            UrlParts {
                scheme: u.scheme().to_string(),
                host: u.host_str().map(|h| h.to_string()),
                port: u.port(),
            },
        ),
        Err(_) => None,
    }
}

/// The base endpoint identifier derived from a subscription's endpoint
/// URL: scheme + host + port, the port defaulting to 4566, and a fixed
/// local default when the endpoint does not parse as a URL at all.
pub open spec fn base_endpoint_of(e: Seq<char>) -> Seq<char> {
    if url_ok(e) {
        let host = match url_host(e) {
            Some(h) => h,
            None => Seq::<char>::empty(),
        };
        let port: nat = match url_port(e) {
            Some(p) => p as nat,
            None => 4566,
        };
        url_scheme(e) + "://"@ + host + ":"@ + dec_str(port)
    } else {
        "http://localhost:4566"@
    }
}

/// Derives the base endpoint identifier for a queue endpoint.
pub fn derive_base_endpoint(e: &str) -> (r: String)
    ensures
        r@ == base_endpoint_of(e@),
{
    match parse_url(e) {
        Some(p) => {
            let mut s = p.scheme;
            s.append("://");
            match &p.host {
                Some(h) => {
                    s.append(h.as_str());
                },
                None => {},
            }
            s.append(":");
            let port: u16 = match p.port {
                Some(pt) => pt,
                None => 4566,
            };
            let ps = u64_to_string(port as u64);
            s.append(ps.as_str());
            proof {
                assert(s@ =~= base_endpoint_of(e@));
            }
            s
        },
        None => String::from_str("http://localhost:4566"),
    }
}

/// One unit of delivery work decided by the fan-out.
pub enum DeliveryAction {
    /// Send `body` to the queue at `queue_url` through the client cached
    /// under `endpoint_base`; the client must first be created when
    /// `create_client` holds.
    SqsSend { endpoint_base: String, queue_url: String, body: String, create_client: bool },
    /// A non-queue protocol: log the intended endpoint and message, send
    /// nothing.
    Log { endpoint: String, message: Message },
}

#[verifier::ext_equal]
pub ghost enum DeliveryActionV {
    SqsSend { endpoint_base: Seq<char>, queue_url: Seq<char>, body: Seq<char>, create_client: bool },
    Log { endpoint: Seq<char>, message: MessageV },
}

impl View for DeliveryAction {
    type V = DeliveryActionV;

    open spec fn view(&self) -> DeliveryActionV {
        match self {
            DeliveryAction::SqsSend { endpoint_base, queue_url, body, create_client } => DeliveryActionV::SqsSend {
                endpoint_base: endpoint_base@,
                queue_url: queue_url@,
                body: body@,
                create_client: *create_client,
            },
            DeliveryAction::Log { endpoint, message } => DeliveryActionV::Log {
                endpoint: endpoint@,
                message: message@,
            },
        }
    }
}

impl DeepView for DeliveryAction {
    type V = DeliveryActionV;

    open spec fn deep_view(&self) -> DeliveryActionV {
        self.view()
    }
}

/// The fan-out over a subscription snapshot, in registration order: the
/// cache keys afterwards, and the delivery actions in order.
pub open spec fn fan_out(
    subs: Seq<SubscriptionV>,
    cache: Seq<Seq<char>>,
    msg: MessageV,
) -> (Seq<Seq<char>>, Seq<DeliveryActionV>)
    decreases subs.len(),
{
    if subs.len() == 0 {
        (cache, Seq::empty())
    } else {
        let r = fan_out(subs.drop_last(), cache, msg);
        let s = subs.last();
        if s.protocol == "sqs"@ {
            let base = base_endpoint_of(s.endpoint);
            if r.0.contains(base) {
                (
                    r.0,
                    r.1.push(
                        DeliveryActionV::SqsSend {
                            endpoint_base: base,
                            queue_url: s.endpoint,
                            body: msg.body,
                            create_client: false,
                        },
                    ),
                )
            } else {
                (
                    r.0.push(base),
                    r.1.push(
                        DeliveryActionV::SqsSend {
                            endpoint_base: base,
                            queue_url: s.endpoint,
                            body: msg.body,
                            create_client: true,
                        },
                    ),
                )
            }
        } else {
            (r.0, r.1.push(DeliveryActionV::Log { endpoint: s.endpoint, message: msg }))
        }
    }
}

/// Plans the fan-out for one published message: updates the client-cache
/// keys and returns the delivery actions in registration order.
pub fn plan_fan_out(subs: &Vec<Subscription>, cache: &mut ClientCache, msg: &Message) -> (acts: Vec<
    DeliveryAction,
>)
    requires
        cache_wf(old(cache)@),
    ensures
        cache_wf(final(cache)@),
        (final(cache)@, acts.deep_view()) == fan_out(subs.deep_view(), old(cache)@, msg@),
{
    let mut acts: Vec<DeliveryAction> = Vec::new();
    let n = subs.len();
    let mut i: usize = 0;
    proof {
        assert(subs.deep_view().subrange(0, 0) =~= Seq::<SubscriptionV>::empty());
        assert(acts.deep_view() =~= Seq::<DeliveryActionV>::empty());
    }
    while i < n
        invariant
            n == subs.len(),
            i <= n,
            subs.deep_view().len() == n,
            cache_wf(cache@),
            (cache@, acts.deep_view()) == fan_out(
                subs.deep_view().subrange(0, i as int),
                old(cache)@,
                msg@,
            ),
        decreases n - i,
    {
        let s = &subs[i];
        proof {
            let sv = subs.deep_view();
            assert(sv.subrange(0, (i + 1) as int).drop_last() =~= sv.subrange(0, i as int));
            assert(sv.subrange(0, (i + 1) as int).last() == sv[i as int]);
            assert(sv[i as int] == subs@[i as int].deep_view());
        }
        if str_eq(s.protocol.as_str(), "sqs") {
            let base = derive_base_endpoint(s.endpoint.as_str());
            let created = cache.ensure(base.as_str());
            acts.push(
                DeliveryAction::SqsSend {
                    endpoint_base: base,
                    queue_url: s.endpoint.clone(),
                    body: msg.body.clone(),
                    create_client: created,
                },
            );
            proof {
                assert((cache@, acts.deep_view()) =~~= fan_out(
                    subs.deep_view().subrange(0, (i + 1) as int),
                    old(cache)@,
                    msg@,
                ));
            }
        } else {
            acts.push(DeliveryAction::Log { endpoint: s.endpoint.clone(), message: clone_message(msg) });
            proof {
                assert((cache@, acts.deep_view()) =~~= fan_out(
                    subs.deep_view().subrange(0, (i + 1) as int),
                    old(cache)@,
                    msg@,
                ));
            }
        }
        i += 1;
    }
    proof {
        assert(subs.deep_view().subrange(0, n as int) =~= subs.deep_view());
    }
    acts
}

} // verus!
