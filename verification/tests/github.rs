use goose_mcp::github::{
    is_bot_comment, without_bot_comments, GetCommentsParams, GetIssueParams, GetPrParams,
    GithubServer, SearchIssuesParams,
};
use goose_mcp::http::{Method, Reply, Request, Service};
use goose_mcp::tool::Reading;
use serde_json::Value;

fn json(text: &str) -> Value {
    serde_json::from_str(text).unwrap()
}

fn headers(request: &Request) -> Vec<(String, String)> {
    request.headers.iter().map(|h| (h.name.clone(), h.value.clone())).collect()
}

fn pair(name: &str, value: &str) -> (String, String) {
    (name.to_string(), value.to_string())
}

fn pr(owner: &str, repo: &str, pull_number: u64) -> GetPrParams {
    GetPrParams { owner: owner.to_string(), repo: repo.to_string(), pull_number }
}

#[test]
fn bot_comment_is_recognised() {
    assert!(is_bot_comment(&json("{\"user\": {\"type\": \"Bot\", \"login\": \"ci\"}}")));
}

#[test]
fn human_comment_is_no_bot() {
    assert!(!is_bot_comment(&json("{\"user\": {\"type\": \"User\"}}")));
    assert!(!is_bot_comment(&json("{\"user\": {\"type\": \"Organization\"}}")));
}

#[test]
fn bot_is_matched_exactly() {
    assert!(!is_bot_comment(&json("{\"user\": {\"type\": \"bot\"}}")));
    assert!(!is_bot_comment(&json("{\"user\": {\"type\": \"Bot \"}}")));
    assert!(!is_bot_comment(&json("{\"user\": {\"type\": \"\"}}")));
}

#[test]
fn comment_without_user_is_no_bot() {
    assert!(!is_bot_comment(&json("{\"body\": \"hi\"}")));
    assert!(!is_bot_comment(&json("{}")));
}

#[test]
fn comment_without_type_is_no_bot() {
    assert!(!is_bot_comment(&json("{\"user\": {\"login\": \"x\"}}")));
    assert!(!is_bot_comment(&json("{\"user\": {}}")));
}

#[test]
fn comment_whose_type_is_no_string_is_no_bot() {
    assert!(!is_bot_comment(&json("{\"user\": {\"type\": 3}}")));
    assert!(!is_bot_comment(&json("{\"user\": {\"type\": null}}")));
    assert!(!is_bot_comment(&json("{\"user\": {\"type\": [\"Bot\"]}}")));
    assert!(!is_bot_comment(&json("{\"user\": {\"type\": {\"type\": \"Bot\"}}}")));
}

#[test]
fn comment_whose_user_is_no_object_is_no_bot() {
    assert!(!is_bot_comment(&json("{\"user\": \"Bot\"}")));
    assert!(!is_bot_comment(&json("{\"user\": null}")));
    assert!(!is_bot_comment(&json("{\"user\": [{\"type\": \"Bot\"}]}")));
}

#[test]
fn value_that_is_no_object_is_no_bot() {
    assert!(!is_bot_comment(&json("\"Bot\"")));
    assert!(!is_bot_comment(&json("null")));
    assert!(!is_bot_comment(&json("[1]")));
}

#[test]
fn filter_drops_bots_and_keeps_order() {
    let input = json(
        "[{\"id\": 1, \"user\": {\"type\": \"User\"}, \"body\": \"a\"},
          {\"id\": 2, \"user\": {\"type\": \"Bot\"}, \"body\": \"b\"},
          {\"id\": 3, \"user\": {\"type\": \"User\"}, \"body\": \"c\"},
          {\"id\": 4, \"user\": {\"type\": \"Bot\"}, \"body\": \"d\"},
          {\"id\": 5, \"user\": {\"type\": \"Organization\"}, \"body\": \"e\"}]",
    );
    let expected = json(
        "[{\"id\": 1, \"user\": {\"type\": \"User\"}, \"body\": \"a\"},
          {\"id\": 3, \"user\": {\"type\": \"User\"}, \"body\": \"c\"},
          {\"id\": 5, \"user\": {\"type\": \"Organization\"}, \"body\": \"e\"}]",
    );
    assert_eq!(without_bot_comments(input), expected);
}

#[test]
fn filter_counts_n_minus_m() {
    let mut entries: Vec<Value> = Vec::new();
    for i in 0..20u64 {
        let kind = if i % 3 == 0 { "Bot" } else { "User" };
        entries.push(json(&format!("{{\"id\": {}, \"user\": {{\"type\": \"{}\"}}}}", i, kind)));
    }
    let bots = entries.iter().filter(|e| e["user"]["type"] == "Bot").count();
    assert_eq!(bots, 7);
    let output = without_bot_comments(Value::Array(entries.clone()));
    let kept = output.as_array().unwrap();
    assert_eq!(kept.len(), 20 - 7);
    let expected: Vec<Value> =
        entries.into_iter().filter(|e| e["user"]["type"] != "Bot").collect();
    assert_eq!(kept, &expected);
}

#[test]
fn filter_keeps_entries_with_unknown_author() {
    let input = json(
        "[{\"body\": \"no user\"},
          {\"user\": {\"login\": \"no type\"}},
          {\"user\": {\"type\": 7}},
          {\"user\": null},
          17,
          \"text\",
          {\"user\": {\"type\": \"Bot\"}}]",
    );
    let expected = json(
        "[{\"body\": \"no user\"},
          {\"user\": {\"login\": \"no type\"}},
          {\"user\": {\"type\": 7}},
          {\"user\": null},
          17,
          \"text\"]",
    );
    assert_eq!(without_bot_comments(input), expected);
}

#[test]
fn filter_of_empty_array_is_empty() {
    assert_eq!(without_bot_comments(json("[]")), json("[]"));
}

#[test]
fn filter_of_bots_only_is_empty() {
    let input = json("[{\"user\": {\"type\": \"Bot\"}}, {\"user\": {\"type\": \"Bot\"}}]");
    assert_eq!(without_bot_comments(input), json("[]"));
}

#[test]
fn filter_without_bots_changes_nothing() {
    let input = json("[{\"user\": {\"type\": \"User\"}, \"n\": 1.5}, {\"n\": [1, {\"k\": null}]}]");
    assert_eq!(without_bot_comments(input.clone()), input);
}

#[test]
fn filter_leaves_other_values_alone() {
    let object = json("{\"user\": {\"type\": \"Bot\"}}");
    assert_eq!(without_bot_comments(object.clone()), object);
    assert_eq!(without_bot_comments(Value::Null), Value::Null);
    assert_eq!(without_bot_comments(json("\"Bot\"")), json("\"Bot\""));
    assert_eq!(without_bot_comments(json("12")), json("12"));
}

#[test]
fn filter_does_not_look_below_the_entries() {
    let input = json("[[{\"user\": {\"type\": \"Bot\"}}], {\"inner\": {\"user\": {\"type\": \"Bot\"}}}]");
    assert_eq!(without_bot_comments(input.clone()), input);
}

#[test]
fn get_pr_plans_a_get_on_the_pull_request() {
    let server = GithubServer::new(None, None);
    let call = server.get_pr(pr("block", "goose", 42));
    assert_eq!(call.service, Service::Github);
    assert_eq!(call.reading, Reading::Json);
    assert_eq!(call.request.method, Method::Get);
    assert_eq!(call.request.url, "https://api.github.com/repos/block/goose/pulls/42");
    assert_eq!(headers(&call.request), vec![pair("Accept", "application/vnd.github.v3+json")]);
    assert_eq!(call.request.body, None);
}

#[test]
fn get_pr_diff_asks_for_the_diff_format() {
    let server = GithubServer::new(Some("tok".to_string()), None);
    let call = server.get_pr_diff(pr("o", "r", 1));
    assert_eq!(call.service, Service::Github);
    assert_eq!(call.reading, Reading::Text);
    assert_eq!(call.request.method, Method::Get);
    assert_eq!(call.request.url, "https://api.github.com/repos/o/r/pulls/1");
    assert_eq!(
        headers(&call.request),
        vec![pair("Accept", "application/vnd.github.v3.diff"), pair("Authorization", "Bearer tok")]
    );
    assert_eq!(call.request.body, None);
}

#[test]
fn get_issue_plans_a_get_on_the_issue() {
    let server = GithubServer::new(None, None);
    let params =
        GetIssueParams { owner: "rust-lang".to_string(), repo: "rust".to_string(), issue_number: 100000 };
    let call = server.get_issue(params);
    assert_eq!(call.reading, Reading::Json);
    assert_eq!(call.request.method, Method::Get);
    assert_eq!(call.request.url, "https://api.github.com/repos/rust-lang/rust/issues/100000");
    assert_eq!(headers(&call.request), vec![pair("Accept", "application/vnd.github.v3+json")]);
}

#[test]
fn get_comments_plans_a_get_on_the_comments() {
    let server = GithubServer::new(None, None);
    let params = GetCommentsParams { owner: "o".to_string(), repo: "r".to_string(), number: 0 };
    let call = server.get_comments(params);
    assert_eq!(call.reading, Reading::Comments);
    assert_eq!(call.request.method, Method::Get);
    assert_eq!(call.request.url, "https://api.github.com/repos/o/r/issues/0/comments");
}

#[test]
fn identifiers_go_into_the_address_as_they_are() {
    let server = GithubServer::new(None, None);
    let call = server.get_pr(pr("a b", "c/d?e", u64::MAX));
    assert_eq!(
        call.request.url,
        "https://api.github.com/repos/a b/c/d?e/pulls/18446744073709551615"
    );
}

#[test]
fn primary_credential_wins() {
    let server = GithubServer::new(Some("first".to_string()), Some("second".to_string()));
    let request = server.request(Method::Get, "u".to_string());
    assert_eq!(headers(&request)[1], pair("Authorization", "Bearer first"));
}

#[test]
fn fallback_credential_is_used_without_primary() {
    let server = GithubServer::new(None, Some("second".to_string()));
    let request = server.request(Method::Get, "u".to_string());
    assert_eq!(headers(&request)[1], pair("Authorization", "Bearer second"));
}

#[test]
fn no_credential_means_no_authorization_header() {
    let server = GithubServer::new(None, None);
    let request = server.request(Method::Get, "https://api.github.com/x".to_string());
    assert_eq!(request.url, "https://api.github.com/x");
    assert!(request.headers.iter().all(|h| h.name != "Authorization"));
}

#[test]
fn github_describes_itself() {
    let info = GithubServer::new(None, None).get_info();
    assert_eq!(info.name, "goose-github");
    assert_eq!(
        info.instructions,
        "Tools for interacting with GitHub, including viewing PRs and Issues."
    );
}

#[test]
fn search_params_hold_the_query() {
    let params = SearchIssuesParams { query: "is:open label:bug".to_string() };
    assert_eq!(params.query, "is:open label:bug");
}

#[test]
fn get_pr_prints_the_body_with_indentation() {
    let server = GithubServer::new(None, None);
    let call = server.get_pr(pr("o", "r", 5));
    let body = "{\"title\":\"Fix\",\"number\":5,\"labels\":[\"a\",\"b\"],\"draft\":false}";
    let output = call.finish(Reply::Complete { status: 200, body: body.to_string() }).ok().unwrap();
    assert_eq!(
        output,
        "{\n  \"draft\": false,\n  \"labels\": [\n    \"a\",\n    \"b\"\n  ],\n  \"number\": 5,\n  \"title\": \"Fix\"\n}"
    );
    assert_eq!(json(&output), json(body));
}

#[test]
fn get_pr_diff_returns_the_diff_unparsed() {
    let server = GithubServer::new(None, None);
    let call = server.get_pr_diff(pr("o", "r", 5));
    let diff = "diff --git a/f b/f\n{\"not\": parsed}\n";
    let output = call.finish(Reply::Complete { status: 200, body: diff.to_string() });
    assert_eq!(output.ok(), Some(diff.to_string()));
}

#[test]
fn get_comments_prints_the_human_comments() {
    let server = GithubServer::new(None, None);
    let call = server.get_comments(GetCommentsParams {
        owner: "o".to_string(),
        repo: "r".to_string(),
        number: 9,
    });
    let body = "[{\"user\":{\"type\":\"Bot\"},\"body\":\"ci\"},{\"user\":{\"type\":\"User\"},\"body\":\"hi\"}]";
    let output = call.finish(Reply::Complete { status: 200, body: body.to_string() }).ok().unwrap();
    assert_eq!(
        output,
        "[\n  {\n    \"body\": \"hi\",\n    \"user\": {\n      \"type\": \"User\"\n    }\n  }\n]"
    );
}

#[test]
fn get_comments_of_a_body_that_is_no_array() {
    let server = GithubServer::new(None, None);
    let call = server.get_comments(GetCommentsParams {
        owner: "o".to_string(),
        repo: "r".to_string(),
        number: 9,
    });
    let output = call.finish(Reply::Complete { status: 200, body: "{\"message\":\"x\"}".to_string() });
    assert_eq!(output.ok(), Some("{\n  \"message\": \"x\"\n}".to_string()));
}

#[test]
fn get_issue_reports_a_missing_issue() {
    let server = GithubServer::new(None, None);
    let call = server.get_issue(GetIssueParams {
        owner: "o".to_string(),
        repo: "r".to_string(),
        issue_number: 1,
    });
    let error = call
        .finish(Reply::Complete { status: 404, body: "{\"message\":\"Not Found\"}".to_string() })
        .err()
        .unwrap();
    assert_eq!(error.message, "GitHub API Error 404 Not Found: {\"message\":\"Not Found\"}");
}

#[test]
fn cloned_github_server_plans_the_same_requests() {
    let server = GithubServer::new(Some("tok".to_string()), None);
    let copy = server.clone();
    let a = server.request(Method::Get, "https://api.github.com/x".to_string());
    let b = copy.request(Method::Get, "https://api.github.com/x".to_string());
    assert_eq!(headers(&a), headers(&b));
    assert_eq!(headers(&b)[1], pair("Authorization", "Bearer tok"));
    assert_eq!(a.url, b.url);
}

#[test]
fn github_token_is_the_first_that_is_there() {
    assert_eq!(GithubServer::new(None, None).token(), None);
    assert_eq!(GithubServer::new(Some("a".to_string()), None).token(), Some("a"));
    assert_eq!(GithubServer::new(None, Some("b".to_string())).token(), Some("b"));
    assert_eq!(
        GithubServer::new(Some("a".to_string()), Some("b".to_string())).token(),
        Some("a")
    );
}

#[test]
fn empty_primary_credential_still_wins() {
    let server = GithubServer::new(Some(String::new()), Some("b".to_string()));
    assert_eq!(server.token(), Some(""));
}
