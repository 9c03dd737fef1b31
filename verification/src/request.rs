//! Construction of the outbound GraphQL payload.
//!
//! The query document is fixed; a request binds it to the `owner` and `name`
//! variables and is framed as the JSON body that goes over the wire.

use vstd::prelude::*;

use crate::chars::digit_char;
use crate::chars::hex_digit;
use crate::chars::push_char;
use crate::repo::RepoRef;

verus! {

/// The fixed query document asking for the star count and the first page of
/// issues.
pub open spec fn query_document_view() -> Seq<char> {
    "query RepoView($owner: String!, $name: String!) { repository(owner: $owner, name: $name) { stargazers { totalCount } issues(last: 10) { nodes { title comments { totalCount } } } } }"@
}

/// Returns the fixed query document.
pub fn query_document() -> (r: &'static str)
    ensures
        r@ == query_document_view(),
{
    "query RepoView($owner: String!, $name: String!) { repository(owner: $owner, name: $name) { stargazers { totalCount } issues(last: 10) { nodes { title comments { totalCount } } } } }"
}

/// The outbound payload: the query document plus the two variables.
#[derive(Debug)]
pub struct QueryRequest {
    pub query: String,
    pub owner: String,
    pub name: String,
}

/// The mathematical shape of a [`QueryRequest`].
pub ghost struct QueryRequestV {
    pub query: Seq<char>,
    pub owner: Seq<char>,
    pub name: Seq<char>,
}

impl View for QueryRequest {
    type V = QueryRequestV;

    open spec fn view(&self) -> QueryRequestV {
        QueryRequestV { query: self.query@, owner: self.owner@, name: self.name@ }
    }
}

/// Binds the fixed query document to the repository reference.
pub fn build_query(repo: &RepoRef) -> (q: QueryRequest)
    ensures
        q.query@ == query_document_view(),
        q.owner@ == repo.owner@,
        q.name@ == repo.name@,
{
    QueryRequest {
        query: String::from_str(query_document()),
        owner: repo.owner.clone(),
        name: repo.name.clone(),
    }
}

/// How one character appears inside a JSON string literal.
pub open spec fn escaped_char(c: char) -> Seq<char> {
    if c == '"' {
        seq!['\\', '"']
    } else if c == '\\' {
        seq!['\\', '\\']
    } else if c == '\n' {
        seq!['\\', 'n']
    } else if c == '\r' {
        seq!['\\', 'r']
    } else if c == '\t' {
        seq!['\\', 't']
    } else if (c as u32) < 32 {
        seq!['\\', 'u', '0', '0', hex_digit((c as u32 / 16) as nat), hex_digit(
            (c as u32 % 16) as nat,
        )]
    } else {
        seq![c]
    }
}

/// The JSON string-literal encoding of `s`, without the enclosing quotes.
pub open spec fn json_escaped(s: Seq<char>) -> Seq<char>
    decreases s.len(),
{
    if s.len() == 0 {
        Seq::empty()
    } else {
        escaped_char(s[0]) + json_escaped(s.drop_first())
    }
}

/// Escaping a string one character longer appends that character's escape.
proof fn lemma_json_escaped_snoc(s: Seq<char>, c: char)
    ensures
        json_escaped(s.push(c)) == json_escaped(s) + escaped_char(c),
    decreases s.len(),
{
    if s.len() == 0 {
        assert(s.push(c)[0] == c);
        assert(s.push(c).drop_first() =~= Seq::<char>::empty());
        assert(json_escaped(s.push(c)) == escaped_char(c) + json_escaped(
            Seq::<char>::empty(),
        ));
        assert(json_escaped(Seq::<char>::empty()) =~= Seq::<char>::empty());
        assert(json_escaped(s.push(c)) =~= json_escaped(s) + escaped_char(c));
    } else {
        assert(s.push(c).drop_first() =~= s.drop_first().push(c));
        lemma_json_escaped_snoc(s.drop_first(), c);
        assert(json_escaped(s.push(c)) =~= json_escaped(s) + escaped_char(c));
    }
}

/// Appends the JSON string-literal encoding of `s` to `out`.
fn append_escaped(out: &mut String, s: &str)
    ensures
        final(out)@ == old(out)@ + json_escaped(s@),
{
    let len = s.unicode_len();
    let mut i: usize = 0;
    while i < len
        invariant
            i <= len,
            len == s@.len(),
            out@ == old(out)@ + json_escaped(s@.subrange(0, i as int)),
        decreases len - i,
    {
        let c = s.get_char(i);
        if c == '"' {
            push_char(out, '\\');
            push_char(out, '"');
        } else if c == '\\' {
            push_char(out, '\\');
            push_char(out, '\\');
        } else if c == '\n' {
            push_char(out, '\\');
            push_char(out, 'n');
        } else if c == '\r' {
            push_char(out, '\\');
            push_char(out, 'r');
        } else if c == '\t' {
            push_char(out, '\\');
            push_char(out, 't');
        } else if (c as u32) < 32 {
            let v = c as u32;
            push_char(out, '\\');
            push_char(out, 'u');
            push_char(out, '0');
            push_char(out, '0');
            push_char(out, digit_char((v / 16) as u8));
            push_char(out, digit_char((v % 16) as u8));
        } else {
            push_char(out, c);
        }
        proof {
            lemma_json_escaped_snoc(s@.subrange(0, i as int), s@[i as int]);
            assert(s@.subrange(0, i as int).push(s@[i as int]) =~= s@.subrange(0, i + 1));
            assert(out@ =~= old(out)@ + json_escaped(s@.subrange(0, i + 1)));
        }
        i = i + 1;
    }
    assert(s@.subrange(0, len as int) =~= s@);
}

/// The JSON body of a request: the query document and the two variables,
/// each framed as an escaped JSON string.
pub open spec fn request_body_view(q: QueryRequestV) -> Seq<char> {
    "{\"query\":\""@ + json_escaped(q.query) + "\",\"variables\":{\"owner\":\""@ + json_escaped(
        q.owner,
    ) + "\",\"name\":\""@ + json_escaped(q.name) + "\"}}"@
}

/// Frames a request as the JSON body that is sent over the wire.
pub fn request_body(q: &QueryRequest) -> (r: String)
    ensures
        r@ == request_body_view(q@),
{
    let mut out = String::from_str("{\"query\":\"");
    append_escaped(&mut out, q.query.as_str());
    out.append("\",\"variables\":{\"owner\":\"");
    append_escaped(&mut out, q.owner.as_str());
    out.append("\",\"name\":\"");
    append_escaped(&mut out, q.name.as_str());
    out.append("\"}}");
    assert(out@ =~= request_body_view(q@));
    out
}

} // verus!
