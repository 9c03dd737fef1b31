//! The decisions of the linear run.
//!
//! The run itself — reading the environment, the HTTP exchange, the JSON
//! decode — happens outside the library; these functions take each step's
//! outcome and decide whether the run goes on or aborts, and with which
//! error. They also fix that the output is a function of the decoded state
//! alone, so an unchanged remote state yields an unchanged report.

use vstd::prelude::*;

use crate::errors::Error;
use crate::errors::ErrorV;
use crate::report::report_failure;
use crate::report::report_lines;
use crate::report::EnvelopeV;
use crate::report::Envelope;
use crate::repo::RepoRefV;

verus! {

/// Admits the run only when the credential was found in the environment; its
/// absence is the fatal configuration error.
pub fn require_token(token: Option<String>) -> (r: Result<String, Error>)
    ensures
        token matches Some(t) ==> (r matches Ok(v) && v == t),
        token is None ==> (r matches Err(e) && e@ == ErrorV::ConfigurationError),
{
    match token {
        Some(t) => Ok(t),
        None => Err(Error::ConfigurationError),
    }
}

/// Decides what follows the HTTP exchange: a body to decode, or the fatal
/// transport error carrying the transport's own description. On a failed
/// exchange no body exists, so nothing is ever decoded.
pub fn after_send(outcome: Result<String, String>) -> (r: Result<String, Error>)
    ensures
        outcome matches Ok(body) ==> (r matches Ok(b) && b == body),
        outcome matches Err(d) ==> (r matches Err(e) && e@ == ErrorV::TransportError(d@)),
{
    match outcome {
        Ok(body) => Ok(body),
        Err(detail) => Err(Error::TransportError(detail)),
    }
}

/// Decides what follows the decode of the response body: the envelope, or
/// the fatal decode error carrying the captured diagnostic context.
pub fn after_decode(outcome: Result<Envelope, String>) -> (r: Result<Envelope, Error>)
    ensures
        outcome matches Ok(env) ==> (r matches Ok(e) && e == env),
        outcome matches Err(d) ==> (r matches Err(e) && e@ == ErrorV::DecodeError(d@)),
{
    match outcome {
        Ok(env) => Ok(env),
        Err(context) => Err(Error::DecodeError(context)),
    }
}

/// Two runs against the same decoded remote state print the same lines and
/// end the same way: the report is a function of the repository reference
/// and the envelope alone, and a run mutates nothing.
pub proof fn lemma_report_deterministic(
    repo: RepoRefV,
    env: EnvelopeV,
    first_lines: Seq<Seq<char>>,
    first_failure: Option<ErrorV>,
    second_lines: Seq<Seq<char>>,
    second_failure: Option<ErrorV>,
)
    requires
        first_lines == report_lines(repo, env),
        first_failure == report_failure(env),
        second_lines == report_lines(repo, env),
        second_failure == report_failure(env),
    ensures
        first_lines == second_lines,
        first_failure == second_failure,
{
}

} // verus!
