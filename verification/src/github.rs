//! The tools of the code-hosting service: pull requests, their diffs, issues
//! and comments.

use crate::http::{headers_for, join, option_view, plan, Method, Request, RequestView, Service};
use crate::json::{array, as_text, into_items, json_of, jsons_of, member, member_of, text_of, Json};
use crate::text::{decimal, decimal_string, first_present, same_text};
use crate::tool::{Call, Reading, ServerDescription};
use vstd::prelude::*;

verus! {

/// Names a pull request.
#[derive(Debug)]
pub struct GetPrParams {
    pub owner: String,
    pub repo: String,
    pub pull_number: u64,
}

/// Names an issue.
#[derive(Debug)]
pub struct GetIssueParams {
    pub owner: String,
    pub repo: String,
    pub issue_number: u64,
}

/// A search for issues.
#[derive(Debug)]
pub struct SearchIssuesParams {
    pub query: String,
}

/// Names the issue or pull request whose comments are wanted.
#[derive(Debug)]
pub struct GetCommentsParams {
    pub owner: String,
    pub repo: String,
    pub number: u64,
}

/// The adapter of the code-hosting service. It holds the bearer credential,
/// fixed when it is made.
#[derive(Debug)]
pub struct GithubServer {
    token: Option<String>,
}

/// The address of the repository `owner`/`repo`.
pub open spec fn repo_url(owner: Seq<char>, repo: Seq<char>) -> Seq<char> {
    "https://api.github.com/repos/"@ + owner + "/"@ + repo
}

/// The address of pull request `number`.
pub open spec fn pull_url(owner: Seq<char>, repo: Seq<char>, number: u64) -> Seq<char> {
    repo_url(owner, repo) + "/pulls/"@ + decimal(number as nat)
}

/// The address of issue `number`.
pub open spec fn issue_url(owner: Seq<char>, repo: Seq<char>, number: u64) -> Seq<char> {
    repo_url(owner, repo) + "/issues/"@ + decimal(number as nat)
}

/// The address of the comments on issue or pull request `number`.
pub open spec fn comments_url(owner: Seq<char>, repo: Seq<char>, number: u64) -> Seq<char> {
    issue_url(owner, repo, number) + "/comments"@
}

/// What the service is asked to answer with where JSON is wanted.
pub open spec fn json_media() -> Seq<char> {
    "application/vnd.github.v3+json"@
}

/// What the service is asked to answer with where a diff is wanted.
pub open spec fn diff_media() -> Seq<char> {
    "application/vnd.github.v3.diff"@
}

/// The kind of account that wrote `comment`: the text under `user`, then
/// `type`. Nothing where either name is missing or the value is no string.
pub open spec fn author_kind(comment: Json) -> Option<Seq<char>> {
    match member_of(comment, "user"@) {
        Some(user) => match member_of(user, "type"@) {
            Some(kind) => text_of(kind),
            None => None,
        },
        None => None,
    }
}

/// `comment` was written by a bot.
pub open spec fn is_bot(comment: Json) -> bool {
    author_kind(comment) == Some("Bot"@)
}

/// `comment` is kept: it was not written by a bot.
pub open spec fn is_kept(comment: Json) -> bool {
    !is_bot(comment)
}

/// `json` without the comments written by bots: an array loses those
/// entries, and any other value stays as it is.
pub open spec fn without_bots(json: Json) -> Json {
    match json {
        Json::Array(comments) => Json::Array(comments.filter(|comment: Json| is_kept(comment))),
        _ => json,
    }
}

/// The places, in ascending order, of the comments that are kept.
pub open spec fn kept_places(comments: Seq<Json>) -> Seq<int>
    decreases comments.len(),
{
    if comments.len() == 0 {
        Seq::<int>::empty()
    } else {
        let before = kept_places(comments.drop_last());
        if is_kept(comments.last()) {
            before.push(comments.len() - 1)
        } else {
            before
        }
    }
}

/// Of `N` comments of which `M` were written by bots, `N - M` are kept. Each
/// kept comment is the comment at its place in what came in, unchanged; the
/// places ascend, so the order stays; and a comment's place is among them
/// exactly if no bot wrote it.
pub proof fn lemma_bots_are_dropped(comments: Seq<Json>)
    ensures
        ({
            let kept = comments.filter(|comment: Json| is_kept(comment));
            let bots = comments.filter(|comment: Json| is_bot(comment));
            let places = kept_places(comments);
            &&& without_bots(Json::Array(comments)) == Json::Array(kept)
            &&& kept.len() == comments.len() - bots.len()
            &&& places.len() == kept.len()
            &&& forall|k: int|
                0 <= k < kept.len() ==> 0 <= #[trigger] places[k] < comments.len() && kept[k]
                    == comments[places[k]]
            &&& forall|j: int, k: int|
                0 <= j < k < kept.len() ==> #[trigger] places[j] < #[trigger] places[k]
            &&& forall|i: int|
                0 <= i < comments.len() ==> (places.contains(i) <==> is_kept(
                    #[trigger] comments[i],
                ))
        }),
    decreases comments.len(),
{
    reveal(Seq::filter);
    let keep = |comment: Json| is_kept(comment);
    let kept = comments.filter(keep);
    let places = kept_places(comments);
    if comments.len() > 0 {
        let rest = comments.drop_last();
        let last = comments.len() - 1;
        lemma_bots_are_dropped(rest);
        let rest_kept = rest.filter(keep);
        let rest_places = kept_places(rest);
        assert forall|i: int| 0 <= i < comments.len() implies (places.contains(i) <==> is_kept(
            #[trigger] comments[i],
        )) by {
            if i < last {
                assert(rest[i] == comments[i]);
                if rest_places.contains(i) {
                    let k = choose|k: int| 0 <= k < rest_places.len() && rest_places[k] == i;
                    assert(places[k] == i);
                }
                if places.contains(i) {
                    let k = choose|k: int| 0 <= k < places.len() && places[k] == i;
                    assert(k < rest_places.len());
                    assert(rest_places[k] == i);
                }
            } else {
                if is_kept(comments[i]) {
                    assert(places[places.len() - 1] == i);
                }
                if places.contains(i) {
                    let k = choose|k: int| 0 <= k < places.len() && places[k] == i;
                    if k < rest_places.len() {
                        assert(rest_places[k] < rest.len());
                    }
                }
            }
        }
        assert forall|k: int| 0 <= k < kept.len() implies 0 <= #[trigger] places[k]
            < comments.len() && kept[k] == comments[places[k]] by {
            if k < rest_kept.len() {
                assert(rest_places[k] == places[k]);
                assert(rest[rest_places[k]] == comments[places[k]]);
            }
        }
        assert forall|j: int, k: int| 0 <= j < k < kept.len() implies #[trigger] places[j]
            < #[trigger] places[k] by {
            if k < rest_kept.len() {
                assert(rest_places[j] < rest_places[k]);
            } else {
                assert(rest_places[j] < rest.len());
            }
        }
    }
}

/// A comment without a `user`, or whose `user` has no `type`, or whose
/// `type` is no string, is kept.
pub proof fn lemma_unknown_author_is_kept(comments: Seq<Json>, i: int)
    requires
        0 <= i < comments.len(),
        member_of(comments[i], "user"@) matches Some(user) ==> (member_of(user, "type"@)
            matches Some(kind) ==> text_of(kind) is None),
    ensures
        is_kept(comments[i]),
        ({
            let kept = comments.filter(|comment: Json| is_kept(comment));
            exists|k: int|
                0 <= k < kept.len() && #[trigger] kept_places(comments)[k] == i && kept[k]
                    == comments[i]
        }),
{
    lemma_bots_are_dropped(comments);
    assert(author_kind(comments[i]) is None);
    let places = kept_places(comments);
    assert(places.contains(i));
    let k = choose|k: int| 0 <= k < places.len() && places[k] == i;
    assert(kept_places(comments)[k] == i);
}

/// Whether `comment` was written by a bot.
pub fn is_bot_comment(comment: &serde_json::Value) -> (r: bool)
    ensures
        r == is_bot(json_of(*comment)),
{
    match member(comment, "user") {
        Some(user) => match member(user, "type") {
            Some(kind) => match as_text(kind) {
                Some(kind) => same_text(kind, "Bot"),
                None => false,
            },
            None => false,
        },
        None => false,
    }
}

/// Drops the comments written by bots from an array of comments.
pub fn without_bot_comments(json: serde_json::Value) -> (r: serde_json::Value)
    ensures
        json_of(r) == without_bots(json_of(json)),
{
    match into_items(json) {
        Ok(comments) => {
            let ghost all = jsons_of(comments@);
            let ghost keep = |comment: Json| is_kept(comment);
            let mut kept: Vec<serde_json::Value> = Vec::new();
            proof {
                assert(all.take(0) =~= Seq::<Json>::empty());
                reveal(Seq::filter);
            }
            for comment in it: comments
                invariant
                    jsons_of(it.seq()) == all,
                    jsons_of(kept@) == all.take(it.index() as int).filter(keep),
                    keep == |comment: Json| is_kept(comment),
            {
                proof {
                    let i = it.index() as int;
                    assert(all.take(i + 1).drop_last() =~= all.take(i));
                    assert(all.take(i + 1).last() == json_of(comment));
                    reveal(Seq::filter);
                }
                if !is_bot_comment(&comment) {
                    kept.push(comment);
                    proof {
                        let i = it.index() as int;
                        assert(jsons_of(kept@) =~= all.take(i).filter(keep).push(json_of(comment)));
                    }
                }
            }
            proof {
                assert(all.take(all.len() as int) =~= all);
            }
            array(kept)
        },
        Err(other) => other,
    }
}

fn repo_address(owner: &str, repo: &str) -> (r: String)
    ensures
        r@ == repo_url(owner@, repo@),
{
    let mut r = join("https://api.github.com/repos/", owner);
    r.append("/");
    r.append(repo);
    r
}

fn pull_address(params: &GetPrParams) -> (r: String)
    ensures
        r@ == pull_url(params.owner@, params.repo@, params.pull_number),
{
    let mut r = repo_address(params.owner.as_str(), params.repo.as_str());
    r.append("/pulls/");
    r.append(decimal_string(params.pull_number).as_str());
    r
}

fn issue_address(owner: &str, repo: &str, number: u64) -> (r: String)
    ensures
        r@ == issue_url(owner@, repo@, number),
{
    let mut r = repo_address(owner, repo);
    r.append("/issues/");
    r.append(decimal_string(number).as_str());
    r
}

impl Clone for GithubServer {
    fn clone(&self) -> (r: GithubServer)
        ensures
            r == *self,
    {
        GithubServer {
            token: match &self.token {
                Some(token) => Some(token.clone()),
                None => None,
            },
        }
    }
}

impl GithubServer {
    /// The credential that every request carries, if there is one.
    pub closed spec fn credential(&self) -> Option<Seq<char>> {
        option_view(self.token)
    }

    /// Makes the adapter from the credentials that were found: the first of
    /// the two that is there is the one it uses.
    pub fn new(primary: Option<String>, fallback: Option<String>) -> (r: GithubServer)
        ensures
            r.credential() == first_present(option_view(primary), option_view(fallback)),
    {
        GithubServer {
            token: match primary {
                Some(token) => Some(token),
                None => fallback,
            },
        }
    }

    /// The credential in use, if there is one.
    pub fn token(&self) -> (r: Option<&str>)
        ensures
            match r {
                Some(token) => self.credential() == Some(token@),
                None => self.credential() is None,
            },
    {
        match &self.token {
            Some(token) => Some(token.as_str()),
            None => None,
        }
    }

    /// What the server says of itself.
    pub fn get_info(&self) -> (r: ServerDescription)
        ensures
            r.name@ == "goose-github"@,
            r.instructions@
                == "Tools for interacting with GitHub, including viewing PRs and Issues."@,
    {
        ServerDescription {
            name: String::from_str("goose-github"),
            instructions: String::from_str(
                "Tools for interacting with GitHub, including viewing PRs and Issues.",
            ),
        }
    }

    /// Plans a request for JSON: `method` on `url`, with the credential.
    pub fn request(&self, method: Method, url: String) -> (r: Request)
        ensures
            r@ == (RequestView {
                method,
                url: url@,
                headers: headers_for(json_media(), false, self.credential()),
                body: None,
            }),
    {
        plan(method, url, "application/vnd.github.v3+json", &self.token, None)
    }

    /// Plans the reading of a pull request's details.
    pub fn get_pr(&self, params: GetPrParams) -> (r: Call)
        ensures
            r.service == Service::Github,
            r.reading == Reading::Json,
            r.request@ == (RequestView {
                method: Method::Get,
                url: pull_url(params.owner@, params.repo@, params.pull_number),
                headers: headers_for(json_media(), false, self.credential()),
                body: None,
            }),
    {
        Call {
            service: Service::Github,
            request: self.request(Method::Get, pull_address(&params)),
            reading: Reading::Json,
        }
    }

    /// Plans the reading of a pull request's diff, which comes as plain text.
    pub fn get_pr_diff(&self, params: GetPrParams) -> (r: Call)
        ensures
            r.service == Service::Github,
            r.reading == Reading::Text,
            r.request@ == (RequestView {
                method: Method::Get,
                url: pull_url(params.owner@, params.repo@, params.pull_number),
                headers: headers_for(diff_media(), false, self.credential()),
                body: None,
            }),
    {
        Call {
            service: Service::Github,
            request: plan(
                Method::Get,
                pull_address(&params),
                "application/vnd.github.v3.diff",
                &self.token,
                None,
            ),
            reading: Reading::Text,
        }
    }

    /// Plans the reading of an issue's details.
    pub fn get_issue(&self, params: GetIssueParams) -> (r: Call)
        ensures
            r.service == Service::Github,
            r.reading == Reading::Json,
            r.request@ == (RequestView {
                method: Method::Get,
                url: issue_url(params.owner@, params.repo@, params.issue_number),
                headers: headers_for(json_media(), false, self.credential()),
                body: None,
            }),
    {
        let url = issue_address(
            params.owner.as_str(),
            params.repo.as_str(),
            params.issue_number,
        );
        Call {
            service: Service::Github,
            request: self.request(Method::Get, url),
            reading: Reading::Json,
        }
    }

    /// Plans the reading of the comments on an issue or pull request. The
    /// comments written by bots are dropped from what comes back.
    pub fn get_comments(&self, params: GetCommentsParams) -> (r: Call)
        ensures
            r.service == Service::Github,
            r.reading == Reading::Comments,
            r.request@ == (RequestView {
                method: Method::Get,
                url: comments_url(params.owner@, params.repo@, params.number),
                headers: headers_for(json_media(), false, self.credential()),
                body: None,
            }),
    {
        let mut url = issue_address(params.owner.as_str(), params.repo.as_str(), params.number);
        url.append("/comments");
        Call {
            service: Service::Github,
            request: self.request(Method::Get, url),
            reading: Reading::Comments,
        }
    }
}

} // verus!
