//! What a routing decision tells the proxy to do.
//!
//! A decision either names the deployment to route to, which the proxy
//! records in a request header before it continues, or rejects the request
//! with a diagnostic, after which the proxy forwards nothing.

use vstd::prelude::*;

verus! {

/// A backend deployment that a request can be routed to.
#[derive(Clone, Copy, Debug, PartialEq, Eq, Structural)]
pub enum Deployment {
    One,
    Two,
    Three,
}

impl Deployment {
    /// The identifier of the deployment as it is written on the wire.
    pub open spec fn id(&self) -> Seq<char> {
        match self {
            Deployment::One => "deployment-1"@,
            Deployment::Two => "deployment-2"@,
            Deployment::Three => "deployment-3"@,
        }
    }

    /// The identifier of the deployment as it is written on the wire.
    pub fn name(&self) -> (s: &'static str)
        ensures
            s@ == self.id(),
    {
        match self {
            Deployment::One => "deployment-1",
            Deployment::Two => "deployment-2",
            Deployment::Three => "deployment-3",
        }
    }
}

/// A header that a routing rule requires.
#[derive(Clone, Copy, Debug, PartialEq, Eq, Structural)]
pub enum Field {
    Service,
    InputTokens,
    MaxTokens,
}

impl Field {
    /// The header's name.
    pub open spec fn id(&self) -> Seq<char> {
        match self {
            Field::Service => "service"@,
            Field::InputTokens => "input_tokens"@,
            Field::MaxTokens => "max_tokens"@,
        }
    }

    /// The header's name.
    pub fn name(&self) -> (s: &'static str)
        ensures
            s@ == self.id(),
    {
        match self {
            Field::Service => "service",
            Field::InputTokens => "input_tokens",
            Field::MaxTokens => "max_tokens",
        }
    }
}

/// Why a request's headers were not accepted.
#[derive(Clone, Copy, Debug, PartialEq, Eq, Structural)]
pub enum ValidationError {
    /// A header that the rule needs is absent.
    MissingHeader(Field),
    /// A header that must hold a count holds something else.
    UnparseableHeader(Field),
    /// A header that must hold one of a fixed set of words holds another.
    InvalidEnumValue(Field),
}

impl ValidationError {
    /// The header that the error is about.
    pub open spec fn spec_field(&self) -> Field {
        match self {
            ValidationError::MissingHeader(f) => *f,
            ValidationError::UnparseableHeader(f) => *f,
            ValidationError::InvalidEnumValue(f) => *f,
        }
    }

    /// The diagnostic text: `Missing <name> header` for an absent header,
    /// `Invalid <name> header` for one with an unacceptable value.
    pub open spec fn text(&self) -> Seq<char> {
        match self {
            ValidationError::MissingHeader(f) => match f {
                Field::Service => "Missing service header"@,
                Field::InputTokens => "Missing input_tokens header"@,
                Field::MaxTokens => "Missing max_tokens header"@,
            },
            _ => match self.spec_field() {
                Field::Service => "Invalid service header"@,
                Field::InputTokens => "Invalid input_tokens header"@,
                Field::MaxTokens => "Invalid max_tokens header"@,
            },
        }
    }

    /// The header that the error is about.
    pub fn field(&self) -> (f: Field)
        ensures
            f == self.spec_field(),
    {
        match self {
            ValidationError::MissingHeader(f) => *f,
            ValidationError::UnparseableHeader(f) => *f,
            ValidationError::InvalidEnumValue(f) => *f,
        }
    }

    /// The diagnostic text that is sent to the client.
    pub fn diagnostic(&self) -> (s: &'static str)
        ensures
            s@ == self.text(),
    {
        match self {
            ValidationError::MissingHeader(f) => match f {
                Field::Service => "Missing service header",
                Field::InputTokens => "Missing input_tokens header",
                Field::MaxTokens => "Missing max_tokens header",
            },
            _ => match self.field() {
                Field::Service => "Invalid service header",
                Field::InputTokens => "Invalid input_tokens header",
                Field::MaxTokens => "Invalid max_tokens header",
            },
        }
    }
}

/// Whether the proxy goes on with a request or holds it.
#[derive(Clone, Copy, Debug, PartialEq, Eq, Structural)]
pub enum Action {
    Continue,
    Pause,
}

/// The status of every rejection.
pub const REJECT_STATUS: u32 = 400;

/// A directive as it appears on the wire.
pub enum WireDirective {
    /// Set the request header `name` to `value`, then continue.
    SetHeader { name: Seq<char>, value: Seq<char> },
    /// Answer with `status` and a `body` of the given content type, and
    /// forward nothing.
    RejectWith { status: int, content_type: Seq<char>, body: Seq<char> },
}

/// The outcome of a routing decision.
#[derive(Clone, Copy, Debug, PartialEq, Eq, Structural)]
pub enum RoutingDirective {
    /// Route the request to the deployment.
    SetHeader(Deployment),
    /// Reject the request for the given reason.
    RejectWith(ValidationError),
}

impl View for RoutingDirective {
    type V = WireDirective;

    open spec fn view(&self) -> WireDirective {
        match self {
            RoutingDirective::SetHeader(d) => WireDirective::SetHeader {
                name: "x-route-to"@,
                value: d.id(),
            },
            RoutingDirective::RejectWith(e) => WireDirective::RejectWith {
                status: REJECT_STATUS as int,
                content_type: "text/plain"@,
                body: e.text(),
            },
        }
    }
}

impl RoutingDirective {
    /// The directive for the result of a classification: a route where
    /// there is one, else a rejection for the error.
    pub open spec fn of(outcome: Result<Deployment, ValidationError>) -> RoutingDirective {
        match outcome {
            Ok(d) => RoutingDirective::SetHeader(d),
            Err(e) => RoutingDirective::RejectWith(e),
        }
    }

    /// Turns the result of a classification into a directive.
    pub fn from_outcome(outcome: Result<Deployment, ValidationError>) -> (d: RoutingDirective)
        ensures
            d == RoutingDirective::of(outcome),
    {
        match outcome {
            Ok(d) => RoutingDirective::SetHeader(d),
            Err(e) => RoutingDirective::RejectWith(e),
        }
    }

    /// What the proxy does with the request afterwards: it continues after
    /// a route was set and holds the request after a rejection.
    pub fn action(&self) -> (a: Action)
        ensures
            a == Action::Continue <==> self@ is SetHeader,
            a == Action::Pause <==> self@ is RejectWith,
    {
        match self {
            RoutingDirective::SetHeader(_) => Action::Continue,
            RoutingDirective::RejectWith(_) => Action::Pause,
        }
    }

    /// Name and value of the request header to set, if the directive sets
    /// one.
    pub fn header(&self) -> (h: Option<(&'static str, &'static str)>)
        ensures
            match h {
                Some(pair) => self@ == (WireDirective::SetHeader { name: pair.0@, value: pair.1@ }),
                None => self@ is RejectWith,
            },
    {
        match self {
            RoutingDirective::SetHeader(d) => Some(("x-route-to", d.name())),
            RoutingDirective::RejectWith(_) => None,
        }
    }

    /// Status, content type and body of the response to send, if the
    /// directive rejects the request.
    pub fn response(&self) -> (r: Option<(u32, &'static str, &'static str)>)
        ensures
            match r {
                Some(parts) => self@ == (WireDirective::RejectWith {
                    status: parts.0 as int,
                    content_type: parts.1@,
                    body: parts.2@,
                }),
                None => self@ is SetHeader,
            },
    {
        match self {
            RoutingDirective::SetHeader(_) => None,
            RoutingDirective::RejectWith(e) => Some((REJECT_STATUS, "text/plain", e.diagnostic())),
        }
    }
}

} // verus!
