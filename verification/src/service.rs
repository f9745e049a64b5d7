//! The service-aware routing policy.
//!
//! Every request must say in the `service` header what it asks for. Short
//! requests go to the first deployment and long ones to the second; random
//! ones are split evenly between the two; prompt requests are routed by
//! the sum of their two token counts. Requests whose headers do not say
//! all this are rejected.

use crate::directive::{Deployment, Field, RoutingDirective, ValidationError, WireDirective};
use crate::headers::{lookup, HeaderList, RequestHeaders};
use crate::selector::{weighted_bit, Probability, Selector};
use crate::text::{decimal_value, is_count, is_digit};
use crate::validate::{
    prompt_fields, service_field, service_of, validate_prompt, validate_service, Service,
    ValidatedFields,
};
use vstd::prelude::*;

verus! {

/// The number of tokens from which a prompt request counts as large.
pub const TOKEN_THRESHOLD: usize = 200;

/// The probability with which a random request goes to the first
/// deployment.
pub open spec fn even_odds() -> Probability {
    Probability { numerator: 1, denominator: 2 }
}

/// The deployment for a prompt request with the given token counts: the
/// first where their sum is below the threshold, else the second.
pub open spec fn prompt_route(input_tokens: int, max_tokens: int) -> Deployment {
    if input_tokens + max_tokens < TOKEN_THRESHOLD {
        Deployment::One
    } else {
        Deployment::Two
    }
}

/// The deployment that the even two-way split gives for a raw value.
pub open spec fn random_route(raw: u32) -> Deployment {
    if weighted_bit(raw, even_odds()) == 0 {
        Deployment::One
    } else {
        Deployment::Two
    }
}

/// Whether the policy draws from the selector for a request.
pub open spec fn service_draws(headers: HeaderList) -> bool {
    service_field(headers) == Ok::<Service, ValidationError>(Service::Random)
}

/// The policy's decision for a request, given the raw value that the
/// selector would draw.
pub open spec fn service_route(headers: HeaderList, raw: u32) -> Result<Deployment, ValidationError> {
    match service_field(headers) {
        Err(e) => Err(e),
        Ok(Service::Short) => Ok(Deployment::One),
        Ok(Service::Long) => Ok(Deployment::Two),
        Ok(Service::Random) => Ok(random_route(raw)),
        Ok(Service::Prompt) => match prompt_fields(headers) {
            Err(e) => Err(e),
            Ok(counts) => Ok(prompt_route(counts.0, counts.1)),
        },
    }
}

/// Routes a prompt request by the sum of its token counts.
pub fn route_prompt(fields: ValidatedFields) -> (d: Deployment)
    ensures
        d == prompt_route(fields.input_tokens as int, fields.max_tokens as int),
{
    if fields.input_tokens < TOKEN_THRESHOLD && fields.max_tokens < TOKEN_THRESHOLD
        - fields.input_tokens {
        Deployment::One
    } else {
        Deployment::Two
    }
}

/// Draws once and returns the first or the second deployment, each for
/// half of the generator's range.
pub fn route_random(selector: &mut Selector) -> (d: Deployment)
    ensures
        d == random_route(old(selector).next_raw()),
        *final(selector) == old(selector).advanced(),
{
    let even = Probability { numerator: 1, denominator: 2 };
    match selector.generate_weighted_random_bit(even) {
        Ok(0) => Deployment::One,
        _ => Deployment::Two,
    }
}

/// Routes a request by its `service` header, or says why it is rejected.
/// Only a random request draws from the selector; every other request,
/// accepted or rejected, leaves the selector as it is.
pub fn classify_service(headers: &RequestHeaders, selector: &mut Selector) -> (r: Result<
    Deployment,
    ValidationError,
>)
    ensures
        r == service_route(headers@, old(selector).next_raw()),
        service_draws(headers@) ==> *final(selector) == old(selector).advanced(),
        !service_draws(headers@) ==> *final(selector) == *old(selector),
        r is Err ==> *final(selector) == *old(selector),
        headers.value_of("service"@) is None ==> r == Err::<Deployment, ValidationError>(
            ValidationError::MissingHeader(Field::Service),
        ),
        headers.value_of("service"@) == Some("short"@) ==> r == Ok::<Deployment, ValidationError>(
            Deployment::One,
        ),
        headers.value_of("service"@) == Some("long"@) ==> r == Ok::<Deployment, ValidationError>(
            Deployment::Two,
        ),
        r matches Ok(d) ==> d == Deployment::One || d == Deployment::Two,
{
    proof {
        lemma_short_and_long_fixed(headers@, selector.next_raw());
    }
    match validate_service(headers) {
        Err(e) => Err(e),
        Ok(Service::Short) => Ok(Deployment::One),
        Ok(Service::Long) => Ok(Deployment::Two),
        Ok(Service::Random) => Ok(route_random(selector)),
        Ok(Service::Prompt) => match validate_prompt(headers) {
            Err(e) => Err(e),
            Ok(fields) => Ok(route_prompt(fields)),
        },
    }
}

/// The four service words are different texts.
pub proof fn lemma_service_words(value: Seq<char>)
    ensures
        value == "prompt"@ ==> service_of(value) == Some(Service::Prompt),
        value == "short"@ ==> service_of(value) == Some(Service::Short),
        value == "long"@ ==> service_of(value) == Some(Service::Long),
        value == "random"@ ==> service_of(value) == Some(Service::Random),
{
    reveal_strlit("prompt");
    reveal_strlit("short");
    reveal_strlit("long");
    reveal_strlit("random");
    assert("prompt"@.len() == 6 && "prompt"@[0] == 'p');
    assert("short"@.len() == 5);
    assert("long"@.len() == 4);
    assert("random"@.len() == 6 && "random"@[0] == 'r');
}

/// A request without a `service` header is rejected with status 400 and
/// the text `Missing service header`, whatever else it carries, and takes
/// no draw.
pub proof fn lemma_missing_service_rejected(headers: HeaderList, raw: u32)
    requires
        lookup(headers, "service"@) is None,
    ensures
        service_route(headers, raw) == Err::<Deployment, ValidationError>(
            ValidationError::MissingHeader(Field::Service),
        ),
        RoutingDirective::of(service_route(headers, raw))@ == (WireDirective::RejectWith {
            status: 400,
            content_type: "text/plain"@,
            body: "Missing service header"@,
        }),
        !service_draws(headers),
{
}

/// A request whose `service` header holds none of the four service words
/// is rejected with status 400 and the text `Invalid service header`, and
/// takes no draw.
pub proof fn lemma_unknown_service_rejected(headers: HeaderList, raw: u32)
    requires
        lookup(headers, "service"@) matches Some(value) && service_of(value) is None,
    ensures
        service_route(headers, raw) == Err::<Deployment, ValidationError>(
            ValidationError::InvalidEnumValue(Field::Service),
        ),
        RoutingDirective::of(service_route(headers, raw))@ == (WireDirective::RejectWith {
            status: 400,
            content_type: "text/plain"@,
            body: "Invalid service header"@,
        }),
        !service_draws(headers),
{
}

/// A short request goes to the first deployment and a long request to the
/// second, whatever else the request carries and whatever the selector
/// would draw; neither takes a draw.
pub proof fn lemma_short_and_long_fixed(headers: HeaderList, raw: u32)
    ensures
        lookup(headers, "service"@) == Some("short"@) ==> service_route(headers, raw) == Ok::<
            Deployment,
            ValidationError,
        >(Deployment::One) && !service_draws(headers),
        lookup(headers, "service"@) == Some("long"@) ==> service_route(headers, raw) == Ok::<
            Deployment,
            ValidationError,
        >(Deployment::Two) && !service_draws(headers),
        lookup(headers, "service"@) == Some("short"@) ==> RoutingDirective::of(
            service_route(headers, raw),
        )@ == (WireDirective::SetHeader { name: "x-route-to"@, value: "deployment-1"@ }),
        lookup(headers, "service"@) == Some("long"@) ==> RoutingDirective::of(
            service_route(headers, raw),
        )@ == (WireDirective::SetHeader { name: "x-route-to"@, value: "deployment-2"@ }),
{
    lemma_service_words("short"@);
    lemma_service_words("long"@);
}

/// A prompt request with two counts goes to the first deployment where
/// the counts sum to less than 200 and to the second otherwise. With 50
/// and 50 tokens that is the first, with 150 and 100 the second.
pub proof fn lemma_prompt_routed_by_total(headers: HeaderList, raw: u32)
    requires
        lookup(headers, "service"@) == Some("prompt"@),
    ensures
        forall|input: Seq<char>, max: Seq<char>|
            lookup(headers, "input_tokens"@) == Some(input) && lookup(headers, "max_tokens"@)
                == Some(max) && is_count(input) && is_count(max) ==> #[trigger] service_route(
                headers,
                raw,
            ) == Ok::<Deployment, ValidationError>(
                if decimal_value(input) + decimal_value(max) < 200 {
                    Deployment::One
                } else {
                    Deployment::Two
                },
            ),
        lookup(headers, "input_tokens"@) == Some("50"@) && lookup(headers, "max_tokens"@) == Some(
            "50"@,
        ) ==> service_route(headers, raw) == Ok::<Deployment, ValidationError>(Deployment::One),
        lookup(headers, "input_tokens"@) == Some("150"@) && lookup(headers, "max_tokens"@) == Some(
            "100"@,
        ) ==> service_route(headers, raw) == Ok::<Deployment, ValidationError>(Deployment::Two),
        !service_draws(headers),
{
    lemma_service_words("prompt"@);
    lemma_small_counts();
}

/// The texts `50`, `100` and `150` are counts and write those numbers.
pub proof fn lemma_small_counts()
    ensures
        is_count("50"@) && decimal_value("50"@) == 50,
        is_count("100"@) && decimal_value("100"@) == 100,
        is_count("150"@) && decimal_value("150"@) == 150,
{
    reveal_strlit("50");
    reveal_strlit("100");
    reveal_strlit("150");
    reveal_with_fuel(decimal_value, 4);
    let a = "50"@;
    assert(a.len() == 2 && a[0] == '5' && a[1] == '0');
    assert(a.drop_last().len() == 1 && a.drop_last().last() == '5');
    assert(a.drop_last().drop_last().len() == 0);
    assert(decimal_value(a) == 50);
    let b = "100"@;
    assert(b.len() == 3 && b[0] == '1' && b[1] == '0' && b[2] == '0');
    assert(b.drop_last().len() == 2 && b.drop_last().last() == '0');
    assert(b.drop_last().drop_last().len() == 1 && b.drop_last().drop_last().last() == '1');
    assert(b.drop_last().drop_last().drop_last().len() == 0);
    assert(decimal_value(b) == 100);
    let c = "150"@;
    assert(c.len() == 3 && c[0] == '1' && c[1] == '5' && c[2] == '0');
    assert(c.drop_last().len() == 2 && c.drop_last().last() == '5');
    assert(c.drop_last().drop_last().len() == 1 && c.drop_last().drop_last().last() == '1');
    assert(c.drop_last().drop_last().drop_last().len() == 0);
    assert(decimal_value(c) == 150);
}

/// A prompt request that carries input tokens but no maximum is rejected
/// with the text `Missing max_tokens header`; one whose maximum is `abc`,
/// or any other text that is no count, is rejected with the text `Invalid
/// max_tokens header`. Neither takes a draw.
pub proof fn lemma_prompt_maximum_rejected(headers: HeaderList, raw: u32)
    requires
        lookup(headers, "service"@) == Some("prompt"@),
        lookup(headers, "input_tokens"@) is Some,
    ensures
        lookup(headers, "max_tokens"@) is None ==> RoutingDirective::of(
            service_route(headers, raw),
        )@ == (WireDirective::RejectWith {
            status: 400,
            content_type: "text/plain"@,
            body: "Missing max_tokens header"@,
        }),
        lookup(headers, "max_tokens"@) matches Some(max) && !is_count(max)
            ==> RoutingDirective::of(service_route(headers, raw))@ == (WireDirective::RejectWith {
            status: 400,
            content_type: "text/plain"@,
            body: "Invalid max_tokens header"@,
        }),
        !is_count("abc"@),
        !service_draws(headers),
{
    lemma_service_words("prompt"@);
    reveal_strlit("abc");
    assert("abc"@.len() == 3 && !is_digit("abc"@[0]));
}

/// A prompt request without input tokens is rejected with the text
/// `Missing input_tokens header`; one with both headers whose maximum is a
/// count and whose input is none is rejected with the text `Invalid
/// input_tokens header`.
pub proof fn lemma_prompt_input_rejected(headers: HeaderList, raw: u32)
    requires
        lookup(headers, "service"@) == Some("prompt"@),
    ensures
        lookup(headers, "input_tokens"@) is None ==> RoutingDirective::of(
            service_route(headers, raw),
        )@ == (WireDirective::RejectWith {
            status: 400,
            content_type: "text/plain"@,
            body: "Missing input_tokens header"@,
        }),
        (lookup(headers, "input_tokens"@) matches Some(input) && !is_count(input)) && (lookup(
            headers,
            "max_tokens"@,
        ) matches Some(max) && is_count(max)) ==> RoutingDirective::of(
            service_route(headers, raw),
        )@ == (WireDirective::RejectWith {
            status: 400,
            content_type: "text/plain"@,
            body: "Invalid input_tokens header"@,
        }),
{
    lemma_service_words("prompt"@);
}

/// The policy routes to the first or the second deployment only, and a
/// request that it rejects takes no draw.
pub proof fn lemma_service_outcomes(headers: HeaderList, raw: u32)
    ensures
        service_route(headers, raw) matches Ok(d) ==> d == Deployment::One || d == Deployment::Two,
        service_route(headers, raw) is Err ==> !service_draws(headers),
        !service_draws(headers) ==> forall|other: u32|
            service_route(headers, raw) == #[trigger] service_route(headers, other),
{
}

} // verus!
