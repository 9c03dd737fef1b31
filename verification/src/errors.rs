//! The error taxonomy of the reporter.
//!
//! Everything but a GraphQL-level error (which is only printed) aborts the
//! run; the variants say which step failed.

use vstd::prelude::*;

use crate::chars::push_char;

verus! {

/// Which part of a decoded response was missing although the flow relies on
/// it being present.
#[derive(Clone, Copy, Debug, PartialEq, Eq, Structural)]
pub enum Missing {
    /// The envelope decoded but carried no `data` field.
    Data,
    /// `data` was present but `repository` was null or absent.
    Repository,
    /// The repository was present but its issue-node list was null.
    IssueNodes,
}

/// A fatal condition of the run.
#[derive(Debug)]
pub enum Error {
    /// The required credential was not found in the environment.
    ConfigurationError,
    /// The repository reference did not have the `owner/name` shape.
    FormatError,
    /// The HTTP exchange itself failed; the payload describes the transport
    /// failure.
    TransportError(String),
    /// The response body did not decode; the payload is the diagnostic
    /// context captured from the raw response.
    DecodeError(String),
    /// The decoded response lacked a part the flow relies on.
    InvariantViolation(Missing),
}

/// The mathematical shape of an [`Error`].
pub ghost enum ErrorV {
    ConfigurationError,
    FormatError,
    TransportError(Seq<char>),
    DecodeError(Seq<char>),
    InvariantViolation(Missing),
}

impl View for Error {
    type V = ErrorV;

    open spec fn view(&self) -> ErrorV {
        match self {
            Error::ConfigurationError => ErrorV::ConfigurationError,
            Error::FormatError => ErrorV::FormatError,
            Error::TransportError(d) => ErrorV::TransportError(d@),
            Error::DecodeError(d) => ErrorV::DecodeError(d@),
            Error::InvariantViolation(m) => ErrorV::InvariantViolation(*m),
        }
    }
}

/// The message that describes an error to the user.
pub open spec fn message_of(e: ErrorV) -> Seq<char> {
    match e {
        ErrorV::ConfigurationError => "environment variable GITHUB_API_TOKEN is missing (Set GITHUB_API_TOKEN)"@,
        ErrorV::FormatError => "wrong format for the repository name param (we expect something like facebook/graphql)"@,
        ErrorV::TransportError(d) => "request failed: "@ + d,
        ErrorV::DecodeError(d) => "could not decode the response body ("@ + d + ")"@,
        ErrorV::InvariantViolation(m) => match m {
            Missing::Data => "missing response data"@,
            Missing::Repository => "missing repository"@,
            Missing::IssueNodes => "issue nodes is null"@,
        },
    }
}

impl Error {
    /// Renders the user-facing description of this error.
    pub fn message(&self) -> (r: String)
        ensures
            r@ == message_of(self@),
    {
        match self {
            Error::ConfigurationError => {
                let r = String::from_str(
                    "environment variable GITHUB_API_TOKEN is missing (Set GITHUB_API_TOKEN)",
                );
                r
            },
            Error::FormatError => {
                let r = String::from_str(
                    "wrong format for the repository name param (we expect something like facebook/graphql)",
                );
                r
            },
            Error::TransportError(d) => {
                let r = String::from_str("request failed: ").concat(d.as_str());
                assert(r@ =~= message_of(self@));
                r
            },
            Error::DecodeError(d) => {
                let mut r = String::from_str("could not decode the response body (").concat(
                    d.as_str(),
                );
                push_char(&mut r, ')');
                proof {
                    reveal_strlit(")");
                    assert(")"@ =~= seq![')']);
                    assert(r@ =~= message_of(self@));
                }
                r
            },
            Error::InvariantViolation(m) => match m {
                Missing::Data => String::from_str("missing response data"),
                Missing::Repository => String::from_str("missing repository"),
                Missing::IssueNodes => String::from_str("issue nodes is null"),
            },
        }
    }
}

} // verus!
