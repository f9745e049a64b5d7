//! The adapter-aware routing policy.
//!
//! Requests that name one of two known adapters in the `lora` header go to
//! the deployment that serves that adapter. All other requests, with the
//! header or without it, are spread evenly over the three deployments. The
//! policy rejects no request.

use crate::directive::{Deployment, RoutingDirective, WireDirective};
use crate::headers::{lookup, HeaderList, RequestHeaders};
use crate::selector::{uniform_three, Selector};
use crate::text::text_eq;
use vstd::prelude::*;

verus! {

/// The deployment that serves the adapter named by the `lora` header, where
/// the header names a known adapter.
pub open spec fn adapter_route(lora: Option<Seq<char>>) -> Option<Deployment> {
    if lora == Some("sql-tuned"@) {
        Some(Deployment::Two)
    } else if lora == Some("tweet-summary"@) {
        Some(Deployment::Three)
    } else {
        None
    }
}

/// The deployment that the uniform three-way split gives for a raw value.
pub open spec fn random_deployment(raw: u32) -> Deployment {
    if uniform_three(raw) == 1 {
        Deployment::One
    } else if uniform_three(raw) == 2 {
        Deployment::Two
    } else {
        Deployment::Three
    }
}

/// Whether the policy draws from the selector for a request.
pub open spec fn lora_draws(headers: HeaderList) -> bool {
    adapter_route(lookup(headers, "lora"@)) is None
}

/// The deployment that the policy routes a request to, given the raw value
/// that the selector would draw.
pub open spec fn lora_route(headers: HeaderList, raw: u32) -> Deployment {
    match adapter_route(lookup(headers, "lora"@)) {
        Some(deployment) => deployment,
        None => random_deployment(raw),
    }
}

/// Draws once and returns one of the three deployments, each for a third
/// of the generator's range.
pub fn get_random_deployment(selector: &mut Selector) -> (d: Deployment)
    ensures
        d == random_deployment(old(selector).next_raw()),
        *final(selector) == old(selector).advanced(),
{
    let value: u8 = selector.generate_weighted_random_value();
    if value == 1 {
        Deployment::One
    } else if value == 2 {
        Deployment::Two
    } else {
        Deployment::Three
    }
}

/// Routes a request by its `lora` header. A known adapter has a fixed
/// deployment and leaves the selector as it is: `sql-tuned` goes to the
/// second deployment and `tweet-summary` to the third. Every other request
/// takes one draw from the selector.
pub fn classify_lora(headers: &RequestHeaders, selector: &mut Selector) -> (d: Deployment)
    ensures
        d == lora_route(headers@, old(selector).next_raw()),
        lora_draws(headers@) ==> *final(selector) == old(selector).advanced(),
        !lora_draws(headers@) ==> *final(selector) == *old(selector),
        headers.value_of("lora"@) == Some("sql-tuned"@) ==> d == Deployment::Two,
        headers.value_of("lora"@) == Some("tweet-summary"@) ==> d == Deployment::Three,
{
    proof {
        lemma_adapters_differ();
    }
    match headers.get("lora") {
        Some(value) => {
            if text_eq(value, "sql-tuned") {
                Deployment::Two
            } else if text_eq(value, "tweet-summary") {
                Deployment::Three
            } else {
                get_random_deployment(selector)
            }
        },
        None => get_random_deployment(selector),
    }
}

/// The two adapter names are different texts.
pub proof fn lemma_adapters_differ()
    ensures
        "sql-tuned"@ != "tweet-summary"@,
{
    reveal_strlit("sql-tuned");
    reveal_strlit("tweet-summary");
    assert("sql-tuned"@.len() == 9);
    assert("tweet-summary"@.len() == 13);
}

/// A request for a known adapter has one route, whatever else it carries
/// and whatever the state of the selector: `sql-tuned` goes to the second
/// deployment and `tweet-summary` to the third. Two such requests with the
/// same headers get the same route, and neither takes a draw.
pub proof fn lemma_adapter_route_fixed(headers: HeaderList, raw: u32, other: u32)
    requires
        lookup(headers, "lora"@) == Some("sql-tuned"@) || lookup(headers, "lora"@) == Some(
            "tweet-summary"@,
        ),
    ensures
        lora_route(headers, raw) == lora_route(headers, other),
        lookup(headers, "lora"@) == Some("sql-tuned"@) ==> lora_route(headers, raw)
            == Deployment::Two,
        lookup(headers, "lora"@) == Some("tweet-summary"@) ==> lora_route(headers, raw)
            == Deployment::Three,
        lookup(headers, "lora"@) == Some("sql-tuned"@) ==> RoutingDirective::SetHeader(
            lora_route(headers, raw),
        )@ == (WireDirective::SetHeader { name: "x-route-to"@, value: "deployment-2"@ }),
        lookup(headers, "lora"@) == Some("tweet-summary"@) ==> RoutingDirective::SetHeader(
            lora_route(headers, raw),
        )@ == (WireDirective::SetHeader { name: "x-route-to"@, value: "deployment-3"@ }),
        !lora_draws(headers),
{
    lemma_adapters_differ();
}

/// A request without the header, or with any other value in it, is routed
/// by one draw.
pub proof fn lemma_other_requests_draw(headers: HeaderList, raw: u32)
    requires
        lookup(headers, "lora"@) != Some("sql-tuned"@),
        lookup(headers, "lora"@) != Some("tweet-summary"@),
    ensures
        lora_route(headers, raw) == random_deployment(raw),
        lora_draws(headers),
{
}

} // verus!
