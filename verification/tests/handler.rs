use leader_lambda::{greeting, handle, lookup_first, Request};

fn request(pairs: &[(&str, &str)]) -> Request {
    Request {
        query: pairs
            .iter()
            .map(|(k, v)| (k.to_string(), v.to_string()))
            .collect(),
    }
}

fn assert_ok_html(resp: &leader_lambda::Response) {
    assert_eq!(resp.status, 200);
    assert_eq!(resp.headers.len(), 1);
    assert_eq!(resp.headers[0].0, "content-type");
    assert_eq!(resp.headers[0].1, "text/html");
}

#[test]
fn empty_query_greets_world() {
    let resp = handle(&request(&[]));
    assert_ok_html(&resp);
    assert_eq!(resp.body, "Hello world, this is an AWS Lambda HTTP request baby!");
}

#[test]
fn named_query_greets_the_name() {
    let resp = handle(&request(&[("name", "Ada")]));
    assert_ok_html(&resp);
    assert_eq!(resp.body, "Hello Ada, this is an AWS Lambda HTTP request baby!");
}

#[test]
fn empty_name_passes_through_literally() {
    let resp = handle(&request(&[("name", "")]));
    assert_ok_html(&resp);
    assert_eq!(resp.body, "Hello , this is an AWS Lambda HTTP request baby!");
}

#[test]
fn other_key_only_greets_world() {
    let resp = handle(&request(&[("other", "x")]));
    assert_ok_html(&resp);
    assert_eq!(resp.body, "Hello world, this is an AWS Lambda HTTP request baby!");
}

#[test]
fn first_name_value_wins() {
    let resp = handle(&request(&[("other", "x"), ("name", "Ada"), ("name", "Bob")]));
    assert_ok_html(&resp);
    assert_eq!(resp.body, "Hello Ada, this is an AWS Lambda HTTP request baby!");
}

#[test]
fn lookup_first_finds_the_first_match() {
    let req = request(&[("a", "1"), ("name", "first"), ("name", "second")]);
    let found = lookup_first(&req.query, &"name".to_string());
    assert_eq!(found, Some("first".to_string()));
}

#[test]
fn lookup_first_misses_absent_key() {
    let req = request(&[("a", "1"), ("b", "2")]);
    assert_eq!(lookup_first(&req.query, &"name".to_string()), None);
}

#[test]
fn greeting_wraps_who_exactly() {
    assert_eq!(greeting("Ada"), "Hello Ada, this is an AWS Lambda HTTP request baby!");
    assert_eq!(greeting(""), "Hello , this is an AWS Lambda HTTP request baby!");
}
