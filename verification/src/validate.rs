//! Validation of the headers that a routing rule requires.
//!
//! A required header is either a word from a fixed set or a count. An
//! absent header and a header with an unacceptable value are told apart.

use crate::directive::{Field, ValidationError};
use crate::headers::{lookup, HeaderList, RequestHeaders};
use crate::text::{decimal_value, is_count, parse_count, text_eq};
use vstd::prelude::*;

verus! {

/// The kinds of service that a request can ask for.
#[derive(Clone, Copy, Debug, PartialEq, Eq, Structural)]
pub enum Service {
    Prompt,
    Short,
    Long,
    Random,
}

/// The counts that a prompt request carries.
#[derive(Clone, Copy, Debug, PartialEq, Eq, Structural)]
pub struct ValidatedFields {
    pub input_tokens: usize,
    pub max_tokens: usize,
}

/// The service that a header value names, if it names one.
pub open spec fn service_of(value: Seq<char>) -> Option<Service> {
    if value == "prompt"@ {
        Some(Service::Prompt)
    } else if value == "short"@ {
        Some(Service::Short)
    } else if value == "long"@ {
        Some(Service::Long)
    } else if value == "random"@ {
        Some(Service::Random)
    } else {
        None
    }
}

/// The value of a required header, or the error for its absence.
pub open spec fn required(headers: HeaderList, field: Field) -> Result<Seq<char>, ValidationError> {
    match lookup(headers, field.id()) {
        Some(value) => Ok(value),
        None => Err(ValidationError::MissingHeader(field)),
    }
}

/// The count that a header value writes, or the error for a value that is
/// no count.
pub open spec fn count_of(value: Seq<char>, field: Field) -> Result<int, ValidationError> {
    if is_count(value) {
        Ok(decimal_value(value))
    } else {
        Err(ValidationError::UnparseableHeader(field))
    }
}

/// The service that a request asks for, or the error for an absent or
/// unknown one.
pub open spec fn service_field(headers: HeaderList) -> Result<Service, ValidationError> {
    match required(headers, Field::Service) {
        Ok(value) => match service_of(value) {
            Some(service) => Ok(service),
            None => Err(ValidationError::InvalidEnumValue(Field::Service)),
        },
        Err(e) => Err(e),
    }
}

/// The input and maximum token counts of a prompt request, or the first
/// error among: input tokens absent, maximum tokens absent, maximum tokens
/// no count, input tokens no count.
pub open spec fn prompt_fields(headers: HeaderList) -> Result<(int, int), ValidationError> {
    match required(headers, Field::InputTokens) {
        Err(e) => Err(e),
        Ok(input) => match required(headers, Field::MaxTokens) {
            Err(e) => Err(e),
            Ok(max) => match count_of(max, Field::MaxTokens) {
                Err(e) => Err(e),
                Ok(max_tokens) => match count_of(input, Field::InputTokens) {
                    Err(e) => Err(e),
                    Ok(input_tokens) => Ok((input_tokens, max_tokens)),
                },
            },
        },
    }
}

/// Reads the service that a header value names.
pub fn parse_service(value: &str) -> (r: Option<Service>)
    ensures
        r == service_of(value@),
{
    if text_eq(value, "prompt") {
        Some(Service::Prompt)
    } else if text_eq(value, "short") {
        Some(Service::Short)
    } else if text_eq(value, "long") {
        Some(Service::Long)
    } else if text_eq(value, "random") {
        Some(Service::Random)
    } else {
        None
    }
}

/// Finds a required header: its value, or `MissingHeader` where the
/// request does not carry it.
pub fn require<'a>(headers: &'a RequestHeaders, field: Field) -> (r: Result<&'a str, ValidationError>)
    ensures
        match r {
            Ok(value) => required(headers@, field) == Ok::<Seq<char>, ValidationError>(value@),
            Err(e) => required(headers@, field) == Err::<Seq<char>, ValidationError>(e),
        },
{
    match headers.get(field.name()) {
        Some(value) => Ok(value),
        None => Err(ValidationError::MissingHeader(field)),
    }
}

/// Reads the count that a header value writes, or fails with
/// `UnparseableHeader` where the value is no count.
pub fn parse_field_count(value: &str, field: Field) -> (r: Result<usize, ValidationError>)
    ensures
        match r {
            Ok(n) => count_of(value@, field) == Ok::<int, ValidationError>(n as int),
            Err(e) => count_of(value@, field) == Err::<int, ValidationError>(e),
        },
{
    match parse_count(value) {
        Some(n) => Ok(n),
        None => Err(ValidationError::UnparseableHeader(field)),
    }
}

/// Validates the service header of a request.
pub fn validate_service(headers: &RequestHeaders) -> (r: Result<Service, ValidationError>)
    ensures
        r == service_field(headers@),
{
    match require(headers, Field::Service) {
        Ok(value) => match parse_service(value) {
            Some(service) => Ok(service),
            None => Err(ValidationError::InvalidEnumValue(Field::Service)),
        },
        Err(e) => Err(e),
    }
}

/// Validates the two token counts of a prompt request. Both headers must
/// be present before either is read as a count; of two values that are no
/// counts, the maximum is reported.
pub fn validate_prompt(headers: &RequestHeaders) -> (r: Result<ValidatedFields, ValidationError>)
    ensures
        match r {
            Ok(fields) => prompt_fields(headers@) == Ok::<(int, int), ValidationError>(
                (fields.input_tokens as int, fields.max_tokens as int),
            ),
            Err(e) => prompt_fields(headers@) == Err::<(int, int), ValidationError>(e),
        },
{
    let input = match require(headers, Field::InputTokens) {
        Ok(value) => value,
        Err(e) => {
            return Err(e);
        },
    };
    let max = match require(headers, Field::MaxTokens) {
        Ok(value) => value,
        Err(e) => {
            return Err(e);
        },
    };
    let max_tokens = match parse_field_count(max, Field::MaxTokens) {
        Ok(n) => n,
        Err(e) => {
            return Err(e);
        },
    };
    let input_tokens = match parse_field_count(input, Field::InputTokens) {
        Ok(n) => n,
        Err(e) => {
            return Err(e);
        },
    };
    Ok(ValidatedFields { input_tokens, max_tokens })
}

} // verus!
