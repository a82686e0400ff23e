//! The tools of the issue tracker: issues, their development status, edits
//! and comments.

use crate::http::{headers_for, join, option_view, plan, Method, Request, RequestView, Service};
use crate::json::{
    compact_text, distinct_names, json_of, lemma_made_of_unique, made_of, object, object_with,
    string, Json,
};
use crate::text::{
    decimal, decimal_string, first_present, lemma_occurs_in_middle,
    lemma_trimmed_has_no_trailing_slash, occurs_in, trim_trailing_slashes,
    without_trailing_slashes,
};
use crate::tool::{Call, Reading, ServerDescription};
use vstd::prelude::*;

verus! {

/// Names an issue by its key.
#[derive(Debug)]
pub struct GetIssueParams {
    pub issue_key: String,
}

/// Names an issue by its numeric id, and what linked development
/// information is wanted. The application defaults to `github`, the kind of
/// data to `pullrequest`.
#[derive(Debug)]
pub struct GetDevStatusParams {
    pub issue_id: u64,
    pub application_type: Option<String>,
    pub data_type: Option<String>,
}

/// An edit of an issue: the fields to change, each with its new value. Each
/// field is meant to occur once.
#[derive(Debug)]
pub struct EditIssueParams {
    pub issue_key: String,
    pub fields: Vec<(String, serde_json::Value)>,
}

/// A comment to add to an issue.
#[derive(Debug)]
pub struct AddCommentParams {
    pub issue_key: String,
    pub body: String,
}

/// The adapter of the issue tracker. It holds the address of the tracker,
/// without a slash at its end, and the bearer credential; both are fixed when
/// it is made.
#[derive(Debug)]
pub struct JiraServer {
    instance_url: String,
    token: Option<String>,
}

/// The address of the tracker where none is configured.
pub open spec fn default_instance() -> Seq<char> {
    "https://jira.atlassian.com"@
}

/// The address that requests start with: the configured one, or the
/// default, without the slashes at its end.
pub open spec fn base_of(configured: Option<Seq<char>>) -> Seq<char> {
    without_trailing_slashes(
        match configured {
            Some(url) => url,
            None => default_instance(),
        },
    )
}

/// The address of `path` on the tracker at `base`.
pub open spec fn url_at(base: Seq<char>, path: Seq<char>) -> Seq<char> {
    base + "/"@ + path
}

/// The path of the issue with key `key`.
pub open spec fn issue_path(key: Seq<char>) -> Seq<char> {
    "rest/api/2/issue/"@ + key
}

/// The path on which an issue is read, with its names and rendered fields.
pub open spec fn issue_read_path(key: Seq<char>) -> Seq<char> {
    issue_path(key) + "?expand=names,renderedFields"@
}

/// The path of the comments of the issue with key `key`.
pub open spec fn comment_path(key: Seq<char>) -> Seq<char> {
    issue_path(key) + "/comment"@
}

/// `given`, or `default` where nothing is given.
pub open spec fn or_default(given: Option<Seq<char>>, default: Seq<char>) -> Seq<char> {
    match given {
        Some(text) => text,
        None => default,
    }
}

/// The path of the development status of the issue with id `id`.
pub open spec fn dev_status_path(
    id: u64,
    application: Option<Seq<char>>,
    data: Option<Seq<char>>,
) -> Seq<char> {
    "rest/dev-status/1.0/issue/detail?issueId="@ + decimal(id as nat) + "&applicationType="@
        + or_default(application, "github"@) + "&dataType="@ + or_default(data, "pullrequest"@)
}

/// `text` is the body of an edit that sets `fields`: the one-line text of an
/// object that holds, under `fields`, an object made of them.
pub open spec fn is_edit_body(text: Seq<char>, fields: Seq<(String, serde_json::Value)>) -> bool {
    exists|changes: Json| #[trigger]
        made_of(changes, fields) && text == compact_text(
            Json::Object(Map::<Seq<char>, Json>::empty().insert("fields"@, changes)),
        )
}

/// The body of a new comment with the text `body`.
pub open spec fn comment_body(body: Seq<char>) -> Seq<char> {
    compact_text(Json::Object(Map::<Seq<char>, Json>::empty().insert("body"@, Json::Text(body))))
}

fn issue_address(key: &str) -> (r: String)
    ensures
        r@ == issue_path(key@),
{
    join("rest/api/2/issue/", key)
}

fn text_or<'a>(given: &'a Option<String>, default: &'a str) -> (r: &'a str)
    ensures
        r@ == or_default(option_view(*given), default@),
{
    match given {
        Some(text) => text.as_str(),
        None => default,
    }
}

impl Clone for JiraServer {
    fn clone(&self) -> (r: JiraServer)
        ensures
            r == *self,
    {
        JiraServer {
            instance_url: self.instance_url.clone(),
            token: match &self.token {
                Some(token) => Some(token.clone()),
                None => None,
            },
        }
    }
}

impl JiraServer {
    /// The credential that every request carries, if there is one.
    pub closed spec fn credential(&self) -> Option<Seq<char>> {
        option_view(self.token)
    }

    /// The address that every request starts with.
    pub closed spec fn base(&self) -> Seq<char> {
        self.instance_url@
    }

    /// Makes the adapter from what was found: the first of the two
    /// credentials that is there, and the configured address of the tracker,
    /// or the default one, without the slashes at its end.
    pub fn new(
        primary: Option<String>,
        fallback: Option<String>,
        instance_url: Option<String>,
    ) -> (r: JiraServer)
        ensures
            r.credential() == first_present(option_view(primary), option_view(fallback)),
            r.base() == base_of(option_view(instance_url)),
            r.base().len() > 0 ==> r.base().last() != '/',
    {
        let base = match &instance_url {
            Some(url) => trim_trailing_slashes(url.as_str()),
            None => trim_trailing_slashes("https://jira.atlassian.com"),
        };
        proof {
            lemma_trimmed_has_no_trailing_slash(
                match option_view(instance_url) {
                    Some(url) => url,
                    None => default_instance(),
                },
            );
        }
        JiraServer {
            instance_url: base,
            token: match primary {
                Some(token) => Some(token),
                None => fallback,
            },
        }
    }

    /// The credential in use, if there is one.
    pub fn token(&self) -> (r: Option<&str>)
        ensures
            match r {
                Some(token) => self.credential() == Some(token@),
                None => self.credential() is None,
            },
    {
        match &self.token {
            Some(token) => Some(token.as_str()),
            None => None,
        }
    }

    /// The address that every request starts with.
    pub fn instance_url(&self) -> (r: &str)
        ensures
            r@ == self.base(),
    {
        self.instance_url.as_str()
    }

    /// What the server says of itself.
    pub fn get_info(&self) -> (r: ServerDescription)
        ensures
            r.name@ == "goose-jira"@,
            r.instructions@ == "Tools for interacting with Jira."@,
    {
        ServerDescription {
            name: String::from_str("goose-jira"),
            instructions: String::from_str("Tools for interacting with Jira."),
        }
    }

    /// Plans a request: `method` on `path` below the tracker's address, with
    /// the credential and, where there is one, the JSON value `body`.
    pub fn request(&self, method: Method, path: &str, body: Option<&serde_json::Value>) -> (r:
        Request)
        ensures
            r@ == (RequestView {
                method,
                url: url_at(self.base(), path@),
                headers: headers_for("application/json"@, body is Some, self.credential()),
                body: match body {
                    Some(value) => Some(compact_text(json_of(*value))),
                    None => None,
                },
            }),
    {
        let mut url = join(self.instance_url.as_str(), "/");
        url.append(path);
        plan(method, url, "application/json", &self.token, body)
    }

    /// Plans the reading of an issue's details.
    pub fn get_issue(&self, params: GetIssueParams) -> (r: Call)
        ensures
            r.service == Service::Jira,
            r.reading == Reading::Json,
            r.request@ == (RequestView {
                method: Method::Get,
                url: url_at(self.base(), issue_read_path(params.issue_key@)),
                headers: headers_for("application/json"@, false, self.credential()),
                body: None,
            }),
    {
        let mut path = issue_address(params.issue_key.as_str());
        path.append("?expand=names,renderedFields");
        Call {
            service: Service::Jira,
            request: self.request(Method::Get, path.as_str(), None),
            reading: Reading::Json,
        }
    }

    /// Plans the reading of the pull requests and commits linked to an
    /// issue.
    pub fn get_dev_status(&self, params: GetDevStatusParams) -> (r: Call)
        ensures
            r.service == Service::Jira,
            r.reading == Reading::Json,
            r.request@ == (RequestView {
                method: Method::Get,
                url: url_at(
                    self.base(),
                    dev_status_path(
                        params.issue_id,
                        option_view(params.application_type),
                        option_view(params.data_type),
                    ),
                ),
                headers: headers_for("application/json"@, false, self.credential()),
                body: None,
            }),
    {
        let mut path = join(
            "rest/dev-status/1.0/issue/detail?issueId=",
            decimal_string(params.issue_id).as_str(),
        );
        path.append("&applicationType=");
        path.append(text_or(&params.application_type, "github"));
        path.append("&dataType=");
        path.append(text_or(&params.data_type, "pullrequest"));
        Call {
            service: Service::Jira,
            request: self.request(Method::Get, path.as_str(), None),
            reading: Reading::Json,
        }
    }

    /// Plans an edit of an issue's fields. What comes back is discarded: the
    /// tool's text is a fixed confirmation.
    pub fn edit_issue(&self, params: EditIssueParams) -> (r: Call)
        ensures
            r.service == Service::Jira,
            r.reading == Reading::Confirmation,
            r.request@.method == Method::Put,
            r.request@.url == url_at(self.base(), issue_path(params.issue_key@)),
            r.request@.headers == headers_for("application/json"@, true, self.credential()),
            r.request@.body matches Some(text) && is_edit_body(text, params.fields@),
    {
        let path = issue_address(params.issue_key.as_str());
        let changes = object(params.fields);
        let ghost made = json_of(changes);
        let body = object_with("fields", changes);
        let request = self.request(Method::Put, path.as_str(), Some(&body));
        proof {
            assert(made_of(made, params.fields@));
        }
        Call { service: Service::Jira, request, reading: Reading::Confirmation }
    }

    /// Plans the adding of a comment to an issue. The tool's text is the
    /// comment as the tracker stored it.
    pub fn add_comment(&self, params: AddCommentParams) -> (r: Call)
        ensures
            r.service == Service::Jira,
            r.reading == Reading::Json,
            r.request@ == (RequestView {
                method: Method::Post,
                url: url_at(self.base(), comment_path(params.issue_key@)),
                headers: headers_for("application/json"@, true, self.credential()),
                body: Some(comment_body(params.body@)),
            }),
    {
        let mut path = issue_address(params.issue_key.as_str());
        path.append("/comment");
        let body = object_with("body", string(params.body));
        Call {
            service: Service::Jira,
            request: self.request(Method::Post, path.as_str(), Some(&body)),
            reading: Reading::Json,
        }
    }
}

/// `text` holds two slashes side by side at `at`.
pub open spec fn double_slash_at(text: Seq<char>, at: int) -> bool {
    0 <= at && at + 1 < text.len() && text[at] == '/' && text[at + 1] == '/'
}

/// A configured address loses the slashes at its end, so that one slash
/// alone joins it to the path: a request's address holds no two slashes side
/// by side from the end of the base on, as long as the path holds none and
/// does not start with one.
pub proof fn lemma_one_slash_joins(configured: Option<Seq<char>>, path: Seq<char>)
    requires
        path.len() > 0 ==> path[0] != '/',
        forall|at: int| !double_slash_at(path, at),
    ensures
        ({
            let base = base_of(configured);
            let url = url_at(base, path);
            &&& url.len() == base.len() + 1 + path.len()
            &&& url.subrange(0, base.len() as int) == base
            &&& url[base.len() as int] == '/'
            &&& forall|at: int| at >= base.len() - 1 ==> !double_slash_at(url, at)
        }),
{
    reveal_strlit("/");
    let given = match configured {
        Some(url) => url,
        None => default_instance(),
    };
    lemma_trimmed_has_no_trailing_slash(given);
    let base = base_of(configured);
    let url = url_at(base, path);
    assert(url.subrange(0, base.len() as int) =~= base);
    assert forall|at: int| at >= base.len() - 1 implies !double_slash_at(url, at) by {
        if double_slash_at(url, at) {
            if at == base.len() - 1 {
                assert(url[at] == base.last());
            } else if at == base.len() {
                assert(url[at + 1] == path[0]);
            } else {
                let inner = at - base.len() - 1;
                assert(url[at] == path[inner]);
                assert(url[at + 1] == path[inner + 1]);
                assert(double_slash_at(path, inner));
            }
        }
    }
}

/// An address configured with slashes at its end gives the base that the
/// same address gives without one of them.
pub proof fn lemma_trailing_slash_is_dropped(stem: Seq<char>)
    ensures
        base_of(Some(stem.push('/'))) == base_of(Some(stem)),
{
    assert(stem.push('/').drop_last() =~= stem);
}

/// Fields that each occur once have one body only.
pub proof fn lemma_edit_body_is_determined(
    a: Seq<char>,
    b: Seq<char>,
    fields: Seq<(String, serde_json::Value)>,
)
    requires
        distinct_names(fields),
        is_edit_body(a, fields),
        is_edit_body(b, fields),
    ensures
        a == b,
{
    let left = choose|changes: Json| #[trigger]
        made_of(changes, fields) && a == compact_text(
            Json::Object(Map::<Seq<char>, Json>::empty().insert("fields"@, changes)),
        );
    let right = choose|changes: Json| #[trigger]
        made_of(changes, fields) && b == compact_text(
            Json::Object(Map::<Seq<char>, Json>::empty().insert("fields"@, changes)),
        );
    lemma_made_of_unique(left, right, fields);
}

/// Where neither the application nor the kind of data is given, the query
/// asks for the pull requests on GitHub.
pub proof fn lemma_dev_status_defaults(base: Seq<char>, id: u64)
    ensures
        occurs_in(
            "applicationType=github&dataType=pullrequest"@,
            url_at(base, dev_status_path(id, None, None)),
        ),
{
    reveal_strlit("applicationType=github&dataType=pullrequest");
    reveal_strlit("&applicationType=");
    reveal_strlit("github");
    reveal_strlit("&dataType=");
    reveal_strlit("pullrequest");
    let part = "applicationType=github&dataType=pullrequest"@;
    let head = "rest/dev-status/1.0/issue/detail?issueId="@ + decimal(id as nat);
    let path = dev_status_path(id, None, None);
    let tail = "&applicationType="@ + "github"@ + "&dataType="@ + "pullrequest"@;
    assert(path =~= head + tail);
    assert(tail =~= seq!['&'] + part);
    let before = base + "/"@ + head + seq!['&'];
    assert(url_at(base, path) =~= before + part + Seq::<char>::empty());
    lemma_occurs_in_middle(before, part, Seq::<char>::empty());
}

} // verus!
