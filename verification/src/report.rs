//! Interpretation of a decoded response envelope.
//!
//! Given the repository reference and the envelope, this module produces the
//! exact lines the tool prints and the fatal condition, if any, that ends the
//! run. GraphQL-level errors are advisory: they are printed and the flow goes
//! on to read the data.

use vstd::prelude::*;

use crate::errors::Error;
use crate::errors::ErrorV;
use crate::errors::Missing;
use crate::numbers::dec_i;
use crate::numbers::i64_to_dec;
use crate::repo::RepoRef;
use crate::repo::RepoRefV;

verus! {

/// One issue of the first page: its title and its total comment count.
#[derive(Debug)]
pub struct Issue {
    pub title: String,
    pub comments_total: i64,
}

/// The mathematical shape of an [`Issue`].
pub ghost struct IssueV {
    pub title: Seq<char>,
    pub comments_total: int,
}

impl View for Issue {
    type V = IssueV;

    open spec fn view(&self) -> IssueV {
        IssueV { title: self.title@, comments_total: self.comments_total as int }
    }
}

/// The repository part of a response: the star count and the first page of
/// issue nodes. The node list itself, or any single node, may be null.
#[derive(Debug)]
pub struct Repository {
    pub stargazers_total: i64,
    pub issue_nodes: Option<Vec<Option<Issue>>>,
}

/// The mathematical shape of a [`Repository`].
pub ghost struct RepositoryV {
    pub stargazers_total: int,
    pub issue_nodes: Option<Seq<Option<IssueV>>>,
}

impl View for Repository {
    type V = RepositoryV;

    open spec fn view(&self) -> RepositoryV {
        RepositoryV {
            stargazers_total: self.stargazers_total as int,
            issue_nodes: match self.issue_nodes {
                None => None,
                Some(nodes) => Some(
                    nodes@.map_values(
                        |node: Option<Issue>|
                            match node {
                                None => None,
                                Some(issue) => Some(issue@),
                            },
                    ),
                ),
            },
        }
    }
}

/// The data part of a response; `repository` is absent when the target was
/// not found or not accessible.
#[derive(Debug)]
pub struct ResponseData {
    pub repository: Option<Repository>,
}

/// The mathematical shape of a [`ResponseData`].
pub ghost struct ResponseDataV {
    pub repository: Option<RepositoryV>,
}

impl View for ResponseData {
    type V = ResponseDataV;

    open spec fn view(&self) -> ResponseDataV {
        ResponseDataV {
            repository: match self.repository {
                None => None,
                Some(r) => Some(r@),
            },
        }
    }
}

/// The decoded response envelope: optional GraphQL-level errors (each already
/// rendered as text) and optional data.
#[derive(Debug)]
pub struct Envelope {
    pub errors: Option<Vec<String>>,
    pub data: Option<ResponseData>,
}

/// The mathematical shape of an [`Envelope`].
pub ghost struct EnvelopeV {
    pub errors: Option<Seq<Seq<char>>>,
    pub data: Option<ResponseDataV>,
}

impl View for Envelope {
    type V = EnvelopeV;

    open spec fn view(&self) -> EnvelopeV {
        EnvelopeV {
            errors: match self.errors {
                None => None,
                Some(es) => Some(es@.map_values(|e: String| e@)),
            },
            data: match self.data {
                None => None,
                Some(d) => Some(d@),
            },
        }
    }
}

/// The views of a sequence of rendered lines.
pub open spec fn views_of(lines: Seq<String>) -> Seq<Seq<char>> {
    lines.map_values(|l: String| l@)
}

/// The summary line: `owner/name - 🌟 stars`.
pub open spec fn star_line(repo: RepoRefV, stars: int) -> Seq<char> {
    repo.owner + "/"@ + repo.name + " - 🌟 "@ + dec_i(stars)
}

/// The line printed for one issue: `title, comments`.
pub open spec fn issue_line(issue: IssueV) -> Seq<char> {
    issue.title + ", "@ + dec_i(issue.comments_total)
}

/// The advisory lines printed when the envelope carries an `errors` field: a
/// header, then one line per reported error.
pub open spec fn error_lines(errors: Option<Seq<Seq<char>>>) -> Seq<Seq<char>> {
    match errors {
        None => Seq::empty(),
        Some(es) => seq!["there are errors:"@] + es,
    }
}

/// The lines printed for the issue nodes: one per present node, in order;
/// null nodes print nothing.
pub open spec fn issue_lines(nodes: Seq<Option<IssueV>>) -> Seq<Seq<char>>
    decreases nodes.len(),
{
    if nodes.len() == 0 {
        Seq::empty()
    } else {
        (match nodes[0] {
            None => Seq::empty(),
            Some(issue) => seq![issue_line(issue)],
        }) + issue_lines(nodes.drop_first())
    }
}

/// All the lines the run prints for this envelope, in order: the advisory
/// error lines, then — only when data and repository are present — the
/// summary line and the issue lines.
pub open spec fn report_lines(repo: RepoRefV, env: EnvelopeV) -> Seq<Seq<char>> {
    let advisory = error_lines(env.errors);
    match env.data {
        None => advisory,
        Some(data) => match data.repository {
            None => advisory,
            Some(repository) => advisory + seq![star_line(repo, repository.stargazers_total)]
                + (match repository.issue_nodes {
                None => Seq::empty(),
                Some(nodes) => issue_lines(nodes),
            }),
        },
    }
}

/// The fatal condition of the run for this envelope, if any: absent data,
/// absent repository, or an absent issue-node list.
pub open spec fn report_failure(env: EnvelopeV) -> Option<ErrorV> {
    match env.data {
        None => Some(ErrorV::InvariantViolation(Missing::Data)),
        Some(data) => match data.repository {
            None => Some(ErrorV::InvariantViolation(Missing::Repository)),
            Some(repository) => match repository.issue_nodes {
                None => Some(ErrorV::InvariantViolation(Missing::IssueNodes)),
                Some(_) => None,
            },
        },
    }
}

/// What a run prints and whether it then aborts: the lines come first either
/// way, the failure (when there is one) ends the process.
#[derive(Debug)]
pub struct ReportOutcome {
    pub lines: Vec<String>,
    pub failure: Option<Error>,
}

/// Pushing a line extends the line views by that line's view.
proof fn lemma_views_of_push(lines: Seq<String>, line: String)
    ensures
        views_of(lines.push(line)) == views_of(lines) + seq![line@],
{
    assert(views_of(lines.push(line)) =~= views_of(lines) + seq![line@]);
}

/// Adding one node at the end extends the issue lines by that node's line.
proof fn lemma_issue_lines_snoc(nodes: Seq<Option<IssueV>>, node: Option<IssueV>)
    ensures
        issue_lines(nodes.push(node)) == issue_lines(nodes) + (match node {
            None => Seq::<Seq<char>>::empty(),
            Some(issue) => seq![issue_line(issue)],
        }),
    decreases nodes.len(),
{
    let tail = (match node {
        None => Seq::<Seq<char>>::empty(),
        Some(issue) => seq![issue_line(issue)],
    });
    if nodes.len() == 0 {
        assert(nodes.push(node)[0] == node);
        assert(nodes.push(node).drop_first() =~= Seq::<Option<IssueV>>::empty());
        assert(issue_lines(Seq::<Option<IssueV>>::empty()) =~= Seq::<Seq<char>>::empty());
        assert(issue_lines(nodes.push(node)) =~= issue_lines(nodes) + tail);
    } else {
        assert(nodes.push(node).drop_first() =~= nodes.drop_first().push(node));
        lemma_issue_lines_snoc(nodes.drop_first(), node);
        assert(issue_lines(nodes.push(node)) =~= issue_lines(nodes) + tail);
    }
}

/// Renders the summary line for a repository with `stars` stars.
fn render_star_line(repo: &RepoRef, stars: i64) -> (r: String)
    ensures
        r@ == star_line(repo@, stars as int),
{
    let mut line = repo.owner.clone();
    line.append("/");
    line.append(repo.name.as_str());
    line.append(" - 🌟 ");
    let rendered = i64_to_dec(stars);
    line.append(rendered.as_str());
    assert(line@ =~= star_line(repo@, stars as int));
    line
}

/// Renders the line for one present issue node.
fn render_issue_line(issue: &Issue) -> (r: String)
    ensures
        r@ == issue_line(issue@),
{
    let mut line = issue.title.clone();
    line.append(", ");
    let rendered = i64_to_dec(issue.comments_total);
    line.append(rendered.as_str());
    assert(line@ =~= issue_line(issue@));
    line
}

/// Turns a decoded envelope into the printed lines and the fatal condition,
/// if any, of the run.
///
/// The advisory error lines never suppress the data lines, and a missing
/// repository aborts before any summary line is produced.
pub fn report(repo: &RepoRef, env: &Envelope) -> (r: ReportOutcome)
    ensures
        views_of(r.lines@) == report_lines(repo@, env@),
        r.failure is Some <==> report_failure(env@) is Some,
        r.failure matches Some(e) ==> report_failure(env@) == Some(e@),
{
    let mut lines: Vec<String> = Vec::new();
    match &env.errors {
        None => {
            assert(views_of(lines@) =~~= error_lines(env@.errors));
        },
        Some(errors) => {
            lines.push(String::from_str("there are errors:"));
            let mut k: usize = 0;
            while k < errors.len()
                invariant
                    k <= errors.len(),
                    env@.errors matches Some(es) && es == errors@.map_values(|e: String| e@),
                    views_of(lines@) =~~= seq!["there are errors:"@] + errors@.map_values(
                        |e: String| e@,
                    ).subrange(0, k as int),
                decreases errors.len() - k,
            {
                let line = errors[k].clone();
                proof {
                    lemma_views_of_push(lines@, line);
                }
                lines.push(line);
                assert(views_of(lines@) =~~= seq!["there are errors:"@] + errors@.map_values(
                    |e: String| e@,
                ).subrange(0, k + 1));
                k = k + 1;
            }
            assert(errors@.map_values(|e: String| e@).subrange(
                0,
                errors@.len() as int,
            ) =~= errors@.map_values(|e: String| e@));
            assert(views_of(lines@) =~~= error_lines(env@.errors));
        },
    }
    let data = match &env.data {
        None => {
            return ReportOutcome {
                lines,
                failure: Some(Error::InvariantViolation(Missing::Data)),
            };
        },
        Some(data) => data,
    };
    let repository = match &data.repository {
        None => {
            return ReportOutcome {
                lines,
                failure: Some(Error::InvariantViolation(Missing::Repository)),
            };
        },
        Some(repository) => repository,
    };
    let ghost advisory = error_lines(env@.errors);
    lines.push(render_star_line(repo, repository.stargazers_total));
    assert(views_of(lines@) =~~= advisory + seq![
        star_line(repo@, repository.stargazers_total as int),
    ]);
    let nodes = match &repository.issue_nodes {
        None => {
            return ReportOutcome {
                lines,
                failure: Some(Error::InvariantViolation(Missing::IssueNodes)),
            };
        },
        Some(nodes) => nodes,
    };
    let ghost nodes_view = nodes@.map_values(
        |node: Option<Issue>|
            match node {
                None => None,
                Some(issue) => Some(issue@),
            },
    );
    let ghost header = advisory + seq![star_line(repo@, repository.stargazers_total as int)];
    let mut k: usize = 0;
    while k < nodes.len()
        invariant
            k <= nodes.len(),
            nodes_view == nodes@.map_values(
                |node: Option<Issue>|
                    match node {
                        None => None,
                        Some(issue) => Some(issue@),
                    },
            ),
            views_of(lines@) =~~= header + issue_lines(nodes_view.subrange(0, k as int)),
        decreases nodes.len() - k,
    {
        match &nodes[k] {
            None => {
                assert(nodes_view[k as int] is None);
            },
            Some(issue) => {
                let line = render_issue_line(issue);
                proof {
                    lemma_views_of_push(lines@, line);
                }
                lines.push(line);
                assert(nodes_view[k as int] == Some(issue@));
            },
        }
        proof {
            lemma_issue_lines_snoc(nodes_view.subrange(0, k as int), nodes_view[k as int]);
            assert(nodes_view.subrange(0, k as int).push(nodes_view[k as int])
                =~= nodes_view.subrange(0, k + 1));
            assert(views_of(lines@) =~~= header + issue_lines(nodes_view.subrange(0, k + 1)));
        }
        k = k + 1;
    }
    assert(nodes_view.subrange(0, nodes_view.len() as int) =~= nodes_view);
    assert(views_of(lines@) =~~= report_lines(repo@, env@));
    ReportOutcome { lines, failure: None }
}

} // verus!
