//! A minimal HTTP greeting handler.
//!
//! The library holds the pure half of a serverless handler: it reads the
//! optional `name` query parameter of a request, formats a fixed greeting
//! around it, and describes the response to send back (status 200, a
//! `content-type: text/html` header, and the greeting as the body). The
//! hosting runtime that receives events and transports responses stands
//! outside the library and hands it plain values.

use vstd::prelude::*;
use vstd::string::StringExecFns;

verus! {

/// An inbound HTTP request, reduced to what the handler reads: its query
/// parameters as key/value pairs, in the order the runtime delivered them.
pub struct Request {
    pub query: Vec<(String, String)>,
}

/// An HTTP response: a status code, header name/value pairs, and a text body.
pub struct Response {
    pub status: u16,
    pub headers: Vec<(String, String)>,
    pub body: String,
}

/// The value of the first query pair whose key is `key`, if any.
pub open spec fn first_value(q: Seq<(String, String)>, key: Seq<char>) -> Option<Seq<char>>
    decreases q.len(),
{
    if q.len() == 0 {
        None
    } else if q[0].0@ == key {
        Some(q[0].1@)
    } else {
        first_value(q.drop_first(), key)
    }
}

/// The greeting text built around `who`.
pub open spec fn greeting_of(who: Seq<char>) -> Seq<char> {
    "Hello "@ + who + ", this is an AWS Lambda HTTP request baby!"@
}

/// The value of the first query pair named `key`, cloned out of `query`;
/// `None` exactly when no pair has that key.
pub fn lookup_first(query: &Vec<(String, String)>, key: &String) -> (r: Option<String>)
    ensures
        match r {
            Some(v) => first_value(query@, key@) == Some(v@),
            None => first_value(query@, key@) is None,
        },
{
    let mut i: usize = 0;
    proof {
        assert(query@.skip(0) =~= query@);
    }
    while i < query.len()
        invariant
            i <= query.len(),
            first_value(query@, key@) == first_value(query@.skip(i as int), key@),
        decreases query.len() - i,
    {
        if query[i].0 == *key {
            assert(query@.skip(i as int)[0] == query@[i as int]);
            return Some(query[i].1.clone());
        }
        proof {
            assert(query@.skip(i as int)[0] == query@[i as int]);
            assert(query@.skip(i as int).drop_first() =~= query@.skip(i as int + 1));
        }
        i = i + 1;
    }
    None
}

/// Builds the greeting text around `who`.
pub fn greeting(who: &str) -> (r: String)
    ensures
        r@ == greeting_of(who@),
{
    let mut s = String::from_str("Hello ");
    s.append(who);
    s.append(", this is an AWS Lambda HTTP request baby!");
    s
}

/// Whom the handler greets for query `q`: the first `name` query value when
/// one is present (an empty value counts as present and passes through
/// literally), otherwise `world`.
pub open spec fn who_of(q: Seq<(String, String)>) -> Seq<char> {
    match first_value(q, "name"@) {
        Some(v) => v,
        None => "world"@,
    }
}

/// The body the handler owes a request with query `q`.
pub open spec fn body_of(q: Seq<(String, String)>) -> Seq<char> {
    greeting_of(who_of(q))
}

/// Handles one request: greets the first `name` query value, or `world` when
/// none is present, with status 200 and a single `content-type: text/html`
/// header. The body doubles as the log line the caller is expected to emit.
pub fn handle(req: &Request) -> (r: Response)
    ensures
        r.status == 200,
        r.headers@.len() == 1,
        r.headers@[0].0@ == "content-type"@,
        r.headers@[0].1@ == "text/html"@,
        r.body@ == body_of(req.query@),
{
    let name_key = String::from_str("name");
    let who = lookup_first(&req.query, &name_key);
    let body = match who {
        Some(v) => greeting(v.as_str()),
        None => greeting("world"),
    };
    let mut headers: Vec<(String, String)> = Vec::new();
    headers.push((String::from_str("content-type"), String::from_str("text/html")));
    Response { status: 200, headers, body }
}

/// For every request whose first `name` query value is `v`, the handler's
/// body is exactly `Hello `, then `v`, then the fixed closing text.
pub proof fn lemma_body_with_name(q: Seq<(String, String)>, v: Seq<char>)
    requires
        first_value(q, "name"@) == Some(v),
    ensures
        body_of(q) == "Hello "@ + v + ", this is an AWS Lambda HTTP request baby!"@,
{
}

/// When no query pair is named `name`, the handler greets `world`: the body
/// is exactly `Hello world, this is an AWS Lambda HTTP request baby!`.
pub proof fn lemma_body_without_name(q: Seq<(String, String)>)
    requires
        first_value(q, "name"@) is None,
    ensures
        body_of(q) == "Hello world, this is an AWS Lambda HTTP request baby!"@,
{
    reveal_strlit("Hello ");
    reveal_strlit("world");
    reveal_strlit(", this is an AWS Lambda HTTP request baby!");
    reveal_strlit("Hello world, this is an AWS Lambda HTTP request baby!");
    assert("Hello "@ + "world"@ + ", this is an AWS Lambda HTTP request baby!"@
        =~= "Hello world, this is an AWS Lambda HTTP request baby!"@);
}

/// An empty `name` value counts as present and passes through literally: the
/// body is exactly `Hello , this is an AWS Lambda HTTP request baby!`.
pub proof fn lemma_body_with_empty_name(q: Seq<(String, String)>)
    requires
        first_value(q, "name"@) == Some(Seq::<char>::empty()),
    ensures
        body_of(q) == "Hello , this is an AWS Lambda HTTP request baby!"@,
{
    reveal_strlit("Hello ");
    reveal_strlit(", this is an AWS Lambda HTTP request baby!");
    reveal_strlit("Hello , this is an AWS Lambda HTTP request baby!");
    assert("Hello "@ + Seq::<char>::empty() + ", this is an AWS Lambda HTTP request baby!"@
        =~= "Hello , this is an AWS Lambda HTTP request baby!"@);
}

} // verus!
