//! Repository star/issue reporter.
//!
//! The library holds the verified logic of a small tool that asks the GitHub
//! GraphQL endpoint for a repository's star count and open issue titles:
//! resolving an `owner/name` reference, building the query payload, and
//! turning the decoded response envelope into the lines that are printed.
//! The surrounding process (environment, HTTP, JSON decoding) lives outside
//! the library and hands it plain values.

mod chars;
mod errors;
mod flow;
mod numbers;
mod repo;
mod report;
mod request;

pub use chars::hex_digit;
pub use errors::message_of;
pub use errors::Error;
pub use errors::ErrorV;
pub use errors::Missing;
pub use flow::after_decode;
pub use flow::after_send;
pub use flow::lemma_report_deterministic;
pub use flow::require_token;
pub use numbers::dec_i;
pub use numbers::dec_u;
pub use numbers::i64_to_dec;
pub use numbers::u64_to_dec;
pub use repo::contains_slash;
pub use repo::first_slash;
pub use repo::is_first_slash;
pub use repo::is_slash_at;
pub use repo::name_of;
pub use repo::owner_of;
pub use repo::parse_repo_name;
pub use repo::resolve_repo;
pub use repo::RepoRef;
pub use repo::RepoRefV;
pub use report::error_lines;
pub use report::issue_line;
pub use report::issue_lines;
pub use report::report;
pub use report::report_failure;
pub use report::report_lines;
pub use report::star_line;
pub use report::views_of;
pub use report::Envelope;
pub use report::EnvelopeV;
pub use report::Issue;
pub use report::IssueV;
pub use report::Repository;
pub use report::RepositoryV;
pub use report::ReportOutcome;
pub use report::ResponseData;
pub use report::ResponseDataV;
pub use request::build_query;
pub use request::escaped_char;
pub use request::json_escaped;
pub use request::query_document;
pub use request::query_document_view;
pub use request::request_body;
pub use request::request_body_view;
pub use request::QueryRequest;
pub use request::QueryRequestV;

