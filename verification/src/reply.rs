//! The dependencies, what a call to one of them can come back with, and the
//! replies the service gives.

use vstd::prelude::*;

use crate::status::{checked_status, is_valid_status};

verus! {

/// The two remote primitives the slope is composed from.
#[derive(Clone, Copy, Debug, PartialEq, Eq, Structural)]
pub enum Dependency {
    /// `srvcs-floatsubtract`: `a - b`.
    FloatSubtract,
    /// `srvcs-floatdivide`: `a / b`.
    FloatDivide,
}

/// The service name of a dependency.
pub open spec fn dependency_name(dependency: Dependency) -> Seq<char> {
    match dependency {
        Dependency::FloatSubtract => "srvcs-floatsubtract"@,
        Dependency::FloatDivide => "srvcs-floatdivide"@,
    }
}

impl Dependency {
    /// The service name of this dependency, as it appears in replies and in
    /// the service's identity.
    pub fn name(&self) -> (name: &'static str)
        ensures
            name@ == dependency_name(*self),
    {
        proof {
            reveal_strlit("srvcs-floatsubtract");
            reveal_strlit("srvcs-floatdivide");
        }
        match self {
            Dependency::FloatSubtract => "srvcs-floatsubtract",
            Dependency::FloatDivide => "srvcs-floatdivide",
        }
    }
}

/// What a call to a dependency came back with: it could not be reached, or it
/// answered with an HTTP status and a (JSON) body.
pub enum CallOutcome<J> {
    Unreachable,
    Answered { status: u16, body: J },
}

/// The reply of the slope evaluation. `J` is the type of JSON values (the
/// coordinates and the dependencies' bodies), `N` that of the numbers the
/// dependencies compute.
pub enum Reply<J, N> {
    /// `200`: evaluated; the request is echoed and `result` is the slope.
    Evaluated { request: crate::flow::EvalRequest<J>, result: N },
    /// A dependency's answer forwarded verbatim, body and status.
    Forwarded { status: u16, body: J },
    /// `503`: a dependency is unavailable.
    Degraded { dependency: Dependency },
    /// `500`: a dependency answered `200` without a numeric `result`.
    Malformed { dependency: Dependency },
}

/// The message of a `503` reply.
pub open spec fn unavailable_message() -> Seq<char> {
    "dependency unavailable"@
}

/// The message of a `500` reply.
pub open spec fn malformed_message() -> Seq<char> {
    "dependency returned a malformed result"@
}

impl<J, N> Reply<J, N> {
    /// The HTTP status of the reply.
    pub open spec fn status_code(self) -> u16 {
        match self {
            Reply::Evaluated { .. } => 200,
            Reply::Forwarded { status, .. } => status,
            Reply::Degraded { .. } => 503,
            Reply::Malformed { .. } => 500,
        }
    }

    /// The dependency that a `503` or `500` reply names.
    pub open spec fn named_dependency(self) -> Option<Dependency> {
        match self {
            Reply::Degraded { dependency } => Some(dependency),
            Reply::Malformed { dependency } => Some(dependency),
            _ => None,
        }
    }

    /// The error message that a `503` or `500` reply carries.
    pub open spec fn error_message(self) -> Option<Seq<char>> {
        match self {
            Reply::Degraded { .. } => Some(unavailable_message()),
            Reply::Malformed { .. } => Some(malformed_message()),
            _ => None,
        }
    }

    /// The HTTP status of the reply.
    pub fn status(&self) -> (status: u16)
        ensures
            status == self.status_code(),
    {
        match self {
            Reply::Evaluated { .. } => 200,
            Reply::Forwarded { status, .. } => *status,
            Reply::Degraded { .. } => 503,
            Reply::Malformed { .. } => 500,
        }
    }

    /// The dependency that a `503` or `500` reply names, if any.
    pub fn dependency(&self) -> (dependency: Option<Dependency>)
        ensures
            dependency == self.named_dependency(),
    {
        match self {
            Reply::Degraded { dependency } => Some(*dependency),
            Reply::Malformed { dependency } => Some(*dependency),
            _ => None,
        }
    }

    /// The error message of a `503` or `500` reply, if any.
    pub fn error(&self) -> (message: Option<&'static str>)
        ensures
            message is Some == self.error_message() is Some,
            message matches Some(m) ==> m@ == self.error_message()->0,
    {
        proof {
            reveal_strlit("dependency unavailable");
            reveal_strlit("dependency returned a malformed result");
        }
        match self {
            Reply::Degraded { .. } => Some("dependency unavailable"),
            Reply::Malformed { .. } => Some("dependency returned a malformed result"),
            _ => None,
        }
    }
}

/// The `200` reply: the request echoed, with the slope as `result`.
pub fn ok<J, N>(request: crate::flow::EvalRequest<J>, result: N) -> (reply: Reply<J, N>)
    ensures
        reply == (Reply::Evaluated { request, result }),
        reply.status_code() == 200,
{
    Reply::Evaluated { request, result }
}

/// The `503` reply naming an unavailable dependency.
pub fn degraded<J, N>(dependency: Dependency) -> (reply: Reply<J, N>)
    ensures
        reply == (Reply::<J, N>::Degraded { dependency }),
        reply.status_code() == 503,
        reply.named_dependency() == Some(dependency),
        reply.error_message() == Some(unavailable_message()),
{
    Reply::Degraded { dependency }
}

/// The status under which an answer of status `status` is forwarded: that
/// status when it is a valid HTTP status, `502 Bad Gateway` otherwise.
pub open spec fn forwarded_status(status: u16) -> u16 {
    if is_valid_status(status) {
        status
    } else {
        502
    }
}

/// Forward a dependency's answer verbatim: its body, under its status when
/// that is a valid HTTP status and `502` otherwise.
pub fn forward<J, N>(status: u16, body: J) -> (reply: Reply<J, N>)
    ensures
        reply == (Reply::<J, N>::Forwarded { status: forwarded_status(status), body }),
{
    let code = match checked_status(status) {
        Some(code) => code,
        None => 502,
    };
    Reply::Forwarded { status: code, body }
}

/// The `500` reply naming a dependency that answered `200` without a numeric
/// `result`.
pub fn malformed<J, N>(dependency: Dependency) -> (reply: Reply<J, N>)
    ensures
        reply == (Reply::<J, N>::Malformed { dependency }),
        reply.status_code() == 500,
        reply.named_dependency() == Some(dependency),
        reply.error_message() == Some(malformed_message()),
{
    Reply::Malformed { dependency }
}

/// How an outcome of a call to `dependency` is triaged: a `200` answer hands
/// its body on; a `422` (the dependency rejected an input) is forwarded
/// verbatim; an unreachable dependency, or any other status, degrades the
/// service to a `503` naming the dependency.
pub open spec fn triage<J, N>(outcome: CallOutcome<J>, dependency: Dependency) -> Result<J, Reply<J, N>> {
    match outcome {
        CallOutcome::Answered { status, body } => {
            if status == 200 {
                Ok(body)
            } else if status == 422 {
                Err(Reply::Forwarded { status: 422, body })
            } else {
                Err(Reply::Degraded { dependency })
            }
        },
        CallOutcome::Unreachable => Err(Reply::Degraded { dependency }),
    }
}

/// Triage the outcome of a call to `dependency`: the body of a `200` answer,
/// or the reply the service gives at once.
pub fn ask<J, N>(outcome: CallOutcome<J>, dependency: Dependency) -> (r: Result<J, Reply<J, N>>)
    ensures
        r == triage::<J, N>(outcome, dependency),
{
    match outcome {
        CallOutcome::Unreachable => Err(degraded(dependency)),
        CallOutcome::Answered { status, body } => {
            if status == 200 {
                Ok(body)
            } else if status == 422 {
                Err(forward(422, body))
            } else {
                Err(degraded(dependency))
            }
        },
    }
}

} // verus!
