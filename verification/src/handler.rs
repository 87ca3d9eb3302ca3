//! The per-request state machine: route an inbound request to the health
//! handler, to a forwarding plan, or to a routing miss, and map a delivery
//! outcome to the HTTP response.

use vstd::prelude::*;
use crate::table::{EndpointTable, lookup_spec};
use crate::text::str_eq;
use crate::body::{
    ok_body, success_body, error_body, build_ok_body, build_success_body, build_error_body,
};

verus! {

/// One HTTP response: a status code and the response body bytes.
pub struct HttpReply {
    pub status: u16,
    pub body: Vec<u8>,
}

/// The outcome of one publish attempt, as the broker reported it.
pub enum DeliveryResult {
    /// The broker acknowledged the message.
    Delivered,
    /// The broker reported this error; the message was not acknowledged.
    Failed { error: String },
}

/// One message to hand to the broker: destination and verbatim payload.
pub struct PublishRequest {
    pub topic: String,
    pub partition: i32,
    pub payload: Vec<u8>,
    /// Always empty: no partition-by-key routing is used.
    pub key: Vec<u8>,
}

/// What to do with one inbound request: answer at once, or publish and
/// answer from the delivery outcome.
pub enum RequestPlan {
    Respond { reply: HttpReply },
    Publish { request: PublishRequest },
}

/// The fixed health-check path.
pub open spec fn health_path() -> Seq<char> {
    "/health"@
}

/// The always-healthy liveness response.
pub fn health_reply() -> (r: HttpReply)
    ensures
        r.status == 200,
        r.body@ == ok_body(),
{
    HttpReply { status: 200, body: build_ok_body() }
}

/// The response for a path no rule carries.
pub fn not_found_reply() -> (r: HttpReply)
    ensures
        r.status == 404,
        r.body@ == Seq::<u8>::empty(),
{
    HttpReply { status: 404, body: Vec::new() }
}

/// Map one delivery outcome to the HTTP response: 200 with the JSON
/// success body on acknowledgment, 500 with the JSON error body carrying
/// the broker's error otherwise.
pub fn delivery_reply(topic: &str, partition: i32, outcome: &DeliveryResult) -> (r: HttpReply)
    ensures
        outcome is Delivered ==> r.status == 200 && r.body@ == success_body(
            topic@,
            partition as int,
        ),
        outcome matches DeliveryResult::Failed { error } ==> r.status == 500 && r.body@
            == error_body(error@),
{
    match outcome {
        DeliveryResult::Delivered => HttpReply {
            status: 200,
            body: build_success_body(topic, partition),
        },
        DeliveryResult::Failed { error } => HttpReply {
            status: 500,
            body: build_error_body(error.as_str()),
        },
    }
}

/// Decide the handling of one inbound POST: the health path is answered
/// at once, a configured path becomes a publish of the body verbatim to
/// exactly the configured topic and partition with an empty key, and any
/// other path is a routing miss answered 404.
pub fn plan_request(table: &EndpointTable, path: &str, payload: Vec<u8>) -> (p: RequestPlan)
    ensures
        path@ == health_path() ==> (p matches RequestPlan::Respond { reply } && reply.status
            == 200 && reply.body@ == ok_body()),
        path@ != health_path() ==> match lookup_spec(table@, path@) {
            Some(tp) => p matches RequestPlan::Publish { request } && request.topic@ == tp.0
                && request.partition == tp.1 && request.payload@ == payload@ && request.key@
                == Seq::<u8>::empty(),
            None => p matches RequestPlan::Respond { reply } && reply.status == 404
                && reply.body@ == Seq::<u8>::empty(),
        },
{
    if str_eq(path, "/health") {
        return RequestPlan::Respond { reply: health_reply() };
    }
    match table.lookup(path) {
        Some((topic, partition)) => RequestPlan::Publish {
            request: PublishRequest { topic, partition, payload, key: Vec::new() },
        },
        None => RequestPlan::Respond { reply: not_found_reply() },
    }
}

/// Round trip: the publish plan made for a configured path — as
/// `plan_request` describes it over the table's lookup — carries exactly
/// the topic and partition that rule configures, and the payload
/// unmodified. The health path is answered directly and is never
/// forwarded, so it is left out.
pub proof fn lemma_forward_round_trip(
    rules: Seq<crate::table::EndpointRule>,
    i: int,
    request: PublishRequest,
    payload: Seq<u8>,
)
    requires
        crate::table::rules_valid(rules),
        0 <= i < rules.len(),
        match lookup_spec(rules, rules[i].path@) {
            Some(tp) => request.topic@ == tp.0 && request.partition == tp.1 && request.payload@
                == payload,
            None => false,
        },
    ensures
        request.topic@ == rules[i].kafka_topic@,
        request.partition == rules[i].kafka_partition,
        request.payload@ == payload,
{
    crate::table::lemma_valid_lookup_hit(rules, i);
}

/// The health check is idempotent and independent of any broker or table
/// state: every health response carries the same status and the same body.
pub proof fn lemma_health_idempotent(a: HttpReply, b: HttpReply)
    requires
        a.status == 200,
        a.body@ == ok_body(),
        b.status == 200,
        b.body@ == ok_body(),
    ensures
        a.status == b.status,
        a.body@ == b.body@,
{
}

} // verus!
