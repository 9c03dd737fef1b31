use repo_report::after_decode;
use repo_report::after_send;
use repo_report::build_query;
use repo_report::i64_to_dec;
use repo_report::parse_repo_name;
use repo_report::query_document;
use repo_report::report;
use repo_report::request_body;
use repo_report::require_token;
use repo_report::resolve_repo;
use repo_report::u64_to_dec;
use repo_report::Envelope;
use repo_report::Error;
use repo_report::Issue;
use repo_report::Missing;
use repo_report::RepoRef;
use repo_report::Repository;
use repo_report::ResponseData;

fn repo(owner: &str, name: &str) -> RepoRef {
    RepoRef {
        owner: owner.to_string(),
        name: name.to_string(),
    }
}

#[test]
fn parse_splits_on_first_slash() {
    let p = parse_repo_name("facebook/graphql").unwrap();
    assert_eq!(p.owner, "facebook");
    assert_eq!(p.name, "graphql");
}

#[test]
fn parse_ignores_trailing_segments() {
    let p = parse_repo_name("a/b/c").unwrap();
    assert_eq!(p.owner, "a");
    assert_eq!(p.name, "b");
}

#[test]
fn parse_accepts_empty_segments() {
    let p = parse_repo_name("/").unwrap();
    assert_eq!(p.owner, "");
    assert_eq!(p.name, "");
    let p = parse_repo_name("owner/").unwrap();
    assert_eq!(p.owner, "owner");
    assert_eq!(p.name, "");
    let p = parse_repo_name("/name").unwrap();
    assert_eq!(p.owner, "");
    assert_eq!(p.name, "name");
}

#[test]
fn parse_rejects_string_without_slash() {
    let e = parse_repo_name("no-slash-here").unwrap_err();
    assert!(matches!(e, Error::FormatError));
    assert_eq!(
        e.message(),
        "wrong format for the repository name param (we expect something like facebook/graphql)"
    );
}

#[test]
fn parse_rejects_empty_string() {
    assert!(matches!(parse_repo_name(""), Err(Error::FormatError)));
}

#[test]
fn resolve_falls_back_on_bad_reference() {
    let p = resolve_repo("no-slash-here");
    assert_eq!(p.owner, "tomhoule");
    assert_eq!(p.name, "graphql-client");
}

#[test]
fn resolve_keeps_good_reference() {
    let p = resolve_repo("graphql-rust/graphql-client");
    assert_eq!(p.owner, "graphql-rust");
    assert_eq!(p.name, "graphql-client");
}

#[test]
fn decimal_rendering() {
    assert_eq!(u64_to_dec(0), "0");
    assert_eq!(u64_to_dec(42), "42");
    assert_eq!(u64_to_dec(u64::MAX), "18446744073709551615");
    assert_eq!(i64_to_dec(0), "0");
    assert_eq!(i64_to_dec(-7), "-7");
    assert_eq!(i64_to_dec(i64::MIN), "-9223372036854775808");
    assert_eq!(i64_to_dec(i64::MAX), "9223372036854775807");
}

#[test]
fn query_request_binds_variables() {
    let q = build_query(&repo("facebook", "graphql"));
    assert_eq!(q.query, query_document());
    assert_eq!(q.owner, "facebook");
    assert_eq!(q.name, "graphql");
}

#[test]
fn request_body_is_the_json_payload() {
    let q = build_query(&repo("facebook", "graphql"));
    let body = request_body(&q);
    let expected = format!(
        "{{\"query\":\"{}\",\"variables\":{{\"owner\":\"facebook\",\"name\":\"graphql\"}}}}",
        query_document()
    );
    assert_eq!(body, expected);
    // The fixed query document needs no escaping, so it must appear verbatim.
    assert!(body.contains(query_document()));
}

#[test]
fn request_body_escapes_the_variables() {
    let q = build_query(&repo("a\"b", "c\\d\ne\tf\rg\u{1}h"));
    let body = request_body(&q);
    assert!(body.ends_with(
        "\"variables\":{\"owner\":\"a\\\"b\",\"name\":\"c\\\\d\\ne\\tf\\rg\\u0001h\"}}"
    ));
}

#[test]
fn request_body_round_trips_through_a_json_decoder() {
    let q = build_query(&repo("ow\"ner", "na\\me\n"));
    let body = request_body(&q);
    let v: serde_json::Value = serde_json::from_str(&body).unwrap();
    assert_eq!(v["query"].as_str().unwrap(), query_document());
    assert_eq!(v["variables"]["owner"].as_str().unwrap(), "ow\"ner");
    assert_eq!(v["variables"]["name"].as_str().unwrap(), "na\\me\n");
}

fn simulated_envelope() -> Envelope {
    // The decoded form of:
    // {"data":{"repository":{"stargazers":{"totalCount":42},"issues":{"nodes":
    //   [{"title":"Bug A","comments":{"totalCount":3}},null,
    //    {"title":"Bug B","comments":{"totalCount":0}}]}}}}
    Envelope {
        errors: None,
        data: Some(ResponseData {
            repository: Some(Repository {
                stargazers_total: 42,
                issue_nodes: Some(vec![
                    Some(Issue {
                        title: "Bug A".to_string(),
                        comments_total: 3,
                    }),
                    None,
                    Some(Issue {
                        title: "Bug B".to_string(),
                        comments_total: 0,
                    }),
                ]),
            }),
        }),
    }
}

#[test]
fn report_prints_stars_and_issues() {
    let outcome = report(&repo("owner", "name"), &simulated_envelope());
    assert_eq!(
        outcome.lines,
        vec![
            "owner/name - \u{1f31f} 42".to_string(),
            "Bug A, 3".to_string(),
            "Bug B, 0".to_string(),
        ]
    );
    assert!(outcome.failure.is_none());
}

#[test]
fn report_aborts_on_missing_data() {
    let outcome = report(
        &repo("owner", "name"),
        &Envelope {
            errors: None,
            data: None,
        },
    );
    assert!(outcome.lines.is_empty());
    match outcome.failure {
        Some(Error::InvariantViolation(m)) => {
            assert_eq!(m, Missing::Data);
        }
        other => panic!("unexpected outcome: {:?}", other),
    }
}

#[test]
fn report_aborts_on_missing_repository_without_a_star_line() {
    let outcome = report(
        &repo("owner", "name"),
        &Envelope {
            errors: None,
            data: Some(ResponseData { repository: None }),
        },
    );
    assert!(outcome.lines.is_empty());
    match outcome.failure {
        Some(Error::InvariantViolation(m)) => {
            assert_eq!(m, Missing::Repository);
            assert_eq!(
                Error::InvariantViolation(m).message(),
                "missing repository"
            );
        }
        other => panic!("unexpected outcome: {:?}", other),
    }
}

#[test]
fn report_aborts_on_missing_issue_nodes() {
    let outcome = report(
        &repo("owner", "name"),
        &Envelope {
            errors: None,
            data: Some(ResponseData {
                repository: Some(Repository {
                    stargazers_total: 5,
                    issue_nodes: None,
                }),
            }),
        },
    );
    assert_eq!(outcome.lines, vec!["owner/name - \u{1f31f} 5".to_string()]);
    match outcome.failure {
        Some(Error::InvariantViolation(m)) => assert_eq!(m, Missing::IssueNodes),
        other => panic!("unexpected outcome: {:?}", other),
    }
}

#[test]
fn errors_do_not_suppress_the_data_lines() {
    let mut env = simulated_envelope();
    env.errors = Some(vec![
        "first reported error".to_string(),
        "second reported error".to_string(),
    ]);
    let outcome = report(&repo("owner", "name"), &env);
    assert_eq!(
        outcome.lines,
        vec![
            "there are errors:".to_string(),
            "first reported error".to_string(),
            "second reported error".to_string(),
            "owner/name - \u{1f31f} 42".to_string(),
            "Bug A, 3".to_string(),
            "Bug B, 0".to_string(),
        ]
    );
    assert!(outcome.failure.is_none());
}

#[test]
fn an_empty_errors_list_still_prints_the_header() {
    let mut env = simulated_envelope();
    env.errors = Some(vec![]);
    let outcome = report(&repo("owner", "name"), &env);
    assert_eq!(outcome.lines[0], "there are errors:");
    assert_eq!(outcome.lines[1], "owner/name - \u{1f31f} 42");
}

#[test]
fn missing_token_is_a_configuration_error() {
    let e = require_token(None).unwrap_err();
    assert!(matches!(e, Error::ConfigurationError));
    assert_eq!(
        e.message(),
        "environment variable GITHUB_API_TOKEN is missing (Set GITHUB_API_TOKEN)"
    );
    assert_eq!(require_token(Some("tok".to_string())).unwrap(), "tok");
}

#[test]
fn failed_exchange_is_a_transport_error() {
    let e = after_send(Err("connection refused".to_string())).unwrap_err();
    match &e {
        Error::TransportError(d) => assert_eq!(d, "connection refused"),
        other => panic!("unexpected error: {:?}", other),
    }
    assert_eq!(e.message(), "request failed: connection refused");
    assert_eq!(after_send(Ok("body".to_string())).unwrap(), "body");
}

#[test]
fn failed_decode_is_a_decode_error_with_context() {
    let e = after_decode(Err("Response: 502 Bad Gateway".to_string())).unwrap_err();
    match &e {
        Error::DecodeError(d) => assert_eq!(d, "Response: 502 Bad Gateway"),
        other => panic!("unexpected error: {:?}", other),
    }
    assert_eq!(
        e.message(),
        "could not decode the response body (Response: 502 Bad Gateway)"
    );
}

#[test]
fn identical_state_yields_identical_output() {
    let first = report(&repo("owner", "name"), &simulated_envelope());
    let second = report(&repo("owner", "name"), &simulated_envelope());
    assert_eq!(first.lines, second.lines);
    assert!(first.failure.is_none() && second.failure.is_none());
}

#[test]
fn parse_handles_non_ascii_segments() {
    let p = parse_repo_name("héllo/wörld").unwrap();
    assert_eq!(p.owner, "héllo");
    assert_eq!(p.name, "wörld");
}

#[test]
fn request_body_with_empty_segments() {
    let q = build_query(&repo("", ""));
    let body = request_body(&q);
    assert!(body.ends_with("\"variables\":{\"owner\":\"\",\"name\":\"\"}}"));
}

#[test]
fn report_with_an_empty_issue_page() {
    let outcome = report(
        &repo("owner", "name"),
        &Envelope {
            errors: None,
            data: Some(ResponseData {
                repository: Some(Repository {
                    stargazers_total: 0,
                    issue_nodes: Some(vec![]),
                }),
            }),
        },
    );
    assert_eq!(outcome.lines, vec!["owner/name - \u{1f31f} 0".to_string()]);
    assert!(outcome.failure.is_none());
}

#[test]
fn report_skips_every_null_node() {
    let outcome = report(
        &repo("owner", "name"),
        &Envelope {
            errors: None,
            data: Some(ResponseData {
                repository: Some(Repository {
                    stargazers_total: 7,
                    issue_nodes: Some(vec![None, None]),
                }),
            }),
        },
    );
    assert_eq!(outcome.lines, vec!["owner/name - \u{1f31f} 7".to_string()]);
    assert!(outcome.failure.is_none());
}
