//! The filter: one routing policy and the selector it draws from.
//!
//! Each execution unit of the proxy owns one filter. The filter decides
//! every request of its unit in turn, so the sequence of random choices is
//! the unit's own and starts anew whenever the unit does.

use crate::directive::{RoutingDirective, WireDirective};
use crate::headers::{
    distinct_names, lemma_read_named_keeps, read_named, HeaderList, RequestHeaders,
};
use crate::lora::{classify_lora, lora_draws, lora_route};
use crate::selector::Selector;
use crate::service::{classify_service, service_draws, service_route};
use vstd::prelude::*;

verus! {

/// The routing policy that a filter applies.
#[derive(Clone, Copy, Debug, PartialEq, Eq, Structural)]
pub enum Policy {
    /// Route by the `lora` header; reject nothing.
    LoraAware,
    /// Route by the `service` header; reject what it does not cover.
    ServiceAware,
}

/// The decision of a policy for a request, given the raw value that the
/// selector would draw.
pub open spec fn decision(policy: Policy, headers: HeaderList, raw: u32) -> RoutingDirective {
    match policy {
        Policy::LoraAware => RoutingDirective::SetHeader(lora_route(headers, raw)),
        Policy::ServiceAware => RoutingDirective::of(service_route(headers, raw)),
    }
}

/// Whether a policy draws from the selector for a request.
pub open spec fn draws(policy: Policy, headers: HeaderList) -> bool {
    match policy {
        Policy::LoraAware => lora_draws(headers),
        Policy::ServiceAware => service_draws(headers),
    }
}

/// The names of the headers that a policy reads.
pub open spec fn policy_reads(policy: Policy) -> Seq<Seq<char>> {
    match policy {
        Policy::LoraAware => seq!["lora"@],
        Policy::ServiceAware => seq!["service"@, "input_tokens"@, "max_tokens"@],
    }
}

impl Policy {
    /// The names of the headers that the policy reads.
    pub fn header_names(&self) -> (names: Vec<&'static str>)
        ensures
            names@.len() == policy_reads(*self).len(),
            forall|i: int| 0 <= i < names@.len() ==> (#[trigger] names@[i])@ == policy_reads(*self)[i],
    {
        match self {
            Policy::LoraAware => vec!["lora"],
            Policy::ServiceAware => vec!["service", "input_tokens", "max_tokens"],
        }
    }
}

/// A policy decides by the headers that it reads and by nothing else: a
/// request gets the same directive, and takes a draw or not, as the request
/// that carries just those headers, each with the value found for it.
pub proof fn lemma_decision_by_headers_read(policy: Policy, headers: HeaderList, raw: u32)
    ensures
        distinct_names(policy_reads(policy)),
        decision(policy, read_named(headers, policy_reads(policy)), raw) == decision(
            policy,
            headers,
            raw,
        ),
        draws(policy, read_named(headers, policy_reads(policy))) == draws(policy, headers),
{
    let names = policy_reads(policy);
    reveal_strlit("service");
    reveal_strlit("input_tokens");
    reveal_strlit("max_tokens");
    assert("service"@.len() == 7);
    assert("input_tokens"@.len() == 12);
    assert("max_tokens"@.len() == 10);
    assert(distinct_names(names));
    match policy {
        Policy::LoraAware => {
            lemma_read_named_keeps(headers, names, 0);
        },
        Policy::ServiceAware => {
            lemma_read_named_keeps(headers, names, 0);
            lemma_read_named_keeps(headers, names, 1);
            lemma_read_named_keeps(headers, names, 2);
        },
    }
}

/// A routing filter.
#[derive(Clone, Copy, Debug, PartialEq, Eq)]
pub struct MyWasmFilter {
    policy: Policy,
    rng: Selector,
}

impl MyWasmFilter {
    /// The policy that the filter applies.
    pub closed spec fn spec_policy(&self) -> Policy {
        self.policy
    }

    /// The selector that the filter draws from.
    pub closed spec fn spec_selector(&self) -> Selector {
        self.rng
    }

    /// A filter for the given policy, with a freshly seeded selector.
    pub fn new(policy: Policy) -> (f: MyWasmFilter)
        ensures
            f.spec_policy() == policy,
            f.spec_selector() == Selector::fresh(),
    {
        MyWasmFilter { policy, rng: Selector::new() }
    }

    /// The policy that the filter applies.
    pub fn policy(&self) -> (p: Policy)
        ensures
            p == self.spec_policy(),
    {
        self.policy
    }

    /// The selector that the filter draws from, as it is now.
    pub fn selector(&self) -> (s: Selector)
        ensures
            s == self.spec_selector(),
    {
        self.rng
    }

    /// Accepts the unit's configuration. The filter reads none, so this
    /// always succeeds.
    pub fn on_configure(&mut self, plugin_configuration_size: usize) -> (accepted: bool)
        ensures
            accepted,
            *final(self) == *old(self),
    {
        true
    }

    /// Decides one request: the directive that the filter's policy gives
    /// for the request's headers. The selector advances by one draw where
    /// the policy draws for the request, and stays as it is otherwise; a
    /// rejected request never draws.
    pub fn on_http_request_headers(&mut self, headers: &RequestHeaders) -> (d: RoutingDirective)
        ensures
            d == decision(
                old(self).spec_policy(),
                headers@,
                old(self).spec_selector().next_raw(),
            ),
            final(self).spec_policy() == old(self).spec_policy(),
            draws(old(self).spec_policy(), headers@) ==> final(self).spec_selector() == old(
                self,
            ).spec_selector().advanced(),
            !draws(old(self).spec_policy(), headers@) ==> final(self).spec_selector() == old(
                self,
            ).spec_selector(),
            d@ is RejectWith ==> final(self).spec_selector() == old(self).spec_selector(),
            old(self).spec_policy() == Policy::LoraAware ==> d@ is SetHeader,
            old(self).spec_policy() == Policy::ServiceAware && headers.value_of("service"@)
                is None ==> d@ == (WireDirective::RejectWith {
                status: 400,
                content_type: "text/plain"@,
                body: "Missing service header"@,
            }),
            old(self).spec_policy() == Policy::ServiceAware && headers.value_of("service"@)
                == Some("short"@) ==> d@ == (WireDirective::SetHeader {
                name: "x-route-to"@,
                value: "deployment-1"@,
            }),
            old(self).spec_policy() == Policy::ServiceAware && headers.value_of("service"@)
                == Some("long"@) ==> d@ == (WireDirective::SetHeader {
                name: "x-route-to"@,
                value: "deployment-2"@,
            }),
            old(self).spec_policy() == Policy::LoraAware && headers.value_of("lora"@) == Some(
                "sql-tuned"@,
            ) ==> d@ == (WireDirective::SetHeader { name: "x-route-to"@, value: "deployment-2"@ }),
            old(self).spec_policy() == Policy::LoraAware && headers.value_of("lora"@) == Some(
                "tweet-summary"@,
            ) ==> d@ == (WireDirective::SetHeader { name: "x-route-to"@, value: "deployment-3"@ }),
    {
        match self.policy {
            Policy::LoraAware => RoutingDirective::SetHeader(classify_lora(headers, &mut self.rng)),
            Policy::ServiceAware => RoutingDirective::from_outcome(
                classify_service(headers, &mut self.rng),
            ),
        }
    }
}

} // verus!
