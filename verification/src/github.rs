//! GitHub data as the installer sees it, the URLs it builds, and the
//! decisions it takes on what the GitHub API answers.
use vstd::prelude::*;

use crate::text::{
    body_excerpt, decimal, ends_with, has_prefix, has_suffix, lex_le, push_decimal, push_str,
    sort_strings, sorted_views, spec_body_excerpt, starts_with, str_eq, string_of, views,
};

verus! {

/// The GitHub account whose public repositories make up the suite.
pub const ORG: &'static str = "rusty-suite";

/// Base of the GitHub REST API.
pub const API_BASE: &'static str = "https://api.github.com";

/// Base of the raw file host.
pub const RAW_BASE: &'static str = "https://raw.githubusercontent.com";

/// A public repository of the organisation.
#[derive(Debug, Clone)]
pub struct GithubRepo {
    pub name: String,
    pub description: Option<String>,
    pub html_url: String,
    pub default_branch: String,
}

/// A release of a repository.
#[derive(Debug, Clone)]
pub struct GithubRelease {
    pub tag_name: String,
    pub assets: Vec<ReleaseAsset>,
    pub draft: bool,
    pub prerelease: bool,
}

/// A downloadable file attached to a release.
#[derive(Debug, Clone)]
pub struct ReleaseAsset {
    pub name: String,
    pub browser_download_url: String,
    pub size: u64,
}

/// An entry of a repository folder listing.
#[derive(Debug, Clone)]
pub struct GithubContent {
    pub name: String,
    pub kind: String,
}

/// `https://raw.githubusercontent.com/<ORG>/<repo>/<branch>/<path>`.
pub open spec fn spec_raw_url(repo: Seq<char>, branch: Seq<char>, path: Seq<char>) -> Seq<char> {
    RAW_BASE@ + "/"@ + ORG@ + "/"@ + repo + "/"@ + branch + "/"@ + path
}

/// Path of the public certificate of a repository.
pub open spec fn spec_certificate_path(repo: Seq<char>) -> Seq<char> {
    "certificat_public/"@ + repo + ".crt"@
}

/// Returns the raw URL for a file of a repository at the given branch.
pub fn raw_url(repo: &str, branch: &str, path: &str) -> (r: String)
    ensures
        r@ == spec_raw_url(repo@, branch@, path@),
{
    let mut r = string_of(RAW_BASE);
    push_str(&mut r, "/");
    push_str(&mut r, ORG);
    push_str(&mut r, "/");
    push_str(&mut r, repo);
    push_str(&mut r, "/");
    push_str(&mut r, branch);
    push_str(&mut r, "/");
    push_str(&mut r, path);
    r
}

/// URL of the public certificate `certificat_public/<repo>.crt` of a repository.
pub fn certificate_url(repo: &str, branch: &str) -> (r: String)
    ensures
        r@ == spec_raw_url(repo@, branch@, spec_certificate_path(repo@)),
{
    let mut path = string_of("certificat_public/");
    push_str(&mut path, repo);
    push_str(&mut path, ".crt");
    raw_url(repo, branch, path.as_str())
}

// ───────────────────────────── repositories ─────────────────────────────

/// Repositories that are not programs of the suite: the installer itself,
/// the organisation's meta repository and hidden infrastructure repositories.
pub open spec fn is_listed_repo(r: GithubRepo) -> bool {
    r.name@ != "suite_install"@ && r.name@ != "rusty-suite"@ && !has_prefix(r.name@, "."@)
}

/// The repositories of `repos` that are programs, in their order.
pub open spec fn listed_repos(repos: Seq<GithubRepo>) -> Seq<GithubRepo> {
    repos.filter(|r: GithubRepo| is_listed_repo(r))
}

/// Keeps the repositories that are programs of the suite.
pub fn filter_repos(repos: Vec<GithubRepo>) -> (r: Vec<GithubRepo>)
    ensures
        r@ == listed_repos(repos@),
{
    let ghost all = repos@;
    let mut out: Vec<GithubRepo> = Vec::new();
    for repo in it: repos
        invariant
            it.seq() == all,
            out@ == listed_repos(all.subrange(0, it.index() as int)),
    {
        let ghost k = it.index() as int;
        proof {
            assert(all.subrange(0, k + 1) =~= all.subrange(0, k).push(repo));
            all.subrange(0, k).lemma_filter_push(repo, |r: GithubRepo| is_listed_repo(r));
        }
        let name = repo.name.as_str();
        let keep = !str_eq(name, "suite_install") && !str_eq(name, "rusty-suite") && !starts_with(
            name,
            ".",
        );
        if keep {
            out.push(repo);
        }
    }
    assert(all.subrange(0, all.len() as int) =~= all);
    out
}

// ───────────────────────────── API replies ─────────────────────────────

/// What an HTTP exchange gave: the status code, its display text
/// (`404 Not Found`) and the body, or why it could not be read.
pub struct HttpReply {
    pub status: u16,
    pub status_text: String,
    pub body: Result<String, String>,
}

/// 2xx statuses.
pub open spec fn is_success(status: u16) -> bool {
    200 <= status <= 299
}

/// Error text when the body of a reply could not be read.
pub open spec fn spec_read_error(status: Seq<char>, url: Seq<char>, e: Seq<char>) -> Seq<char> {
    "lecture de la reponse GitHub impossible ("@ + status + ") pour "@ + url + ": "@ + e
}

/// Error text for a reply whose status is not a success.
pub open spec fn spec_status_error(status: Seq<char>, url: Seq<char>, body: Seq<char>) -> Seq<
    char,
> {
    "GitHub a retourne "@ + status + " pour "@ + url + ": "@ + spec_body_excerpt(body)
}

/// Error text for a body that is not the expected JSON.
pub open spec fn spec_decode_error(url: Seq<char>, e: Seq<char>, body: Seq<char>) -> Seq<char> {
    "decodage JSON impossible pour "@ + url + ": "@ + e + ". Extrait: "@ + spec_body_excerpt(body)
}

/// The body of a reply that may be decoded, or the error text.
pub open spec fn spec_checked_body(url: Seq<char>, r: HttpReply) -> Result<Seq<char>, Seq<char>> {
    match r.body {
        Err(e) => Err(spec_read_error(r.status_text@, url, e@)),
        Ok(b) => if is_success(r.status) {
            Ok(b@)
        } else {
            Err(spec_status_error(r.status_text@, url, b@))
        },
    }
}

/// A string result whose view is the given one.
pub open spec fn result_is(r: Result<String, String>, s: Result<Seq<char>, Seq<char>>) -> bool {
    match (r, s) {
        (Ok(a), Ok(b)) => a@ == b,
        (Err(a), Err(b)) => a@ == b,
        _ => false,
    }
}

/// Whether a status is a success.
pub fn status_is_success(status: u16) -> (r: bool)
    ensures
        r == is_success(status),
{
    200 <= status && status <= 299
}

/// Checks a reply before its body is decoded: an unreadable body or a
/// status other than a success is an error.
pub fn check_reply(url: &str, reply: HttpReply) -> (r: Result<String, String>)
    ensures
        result_is(r, spec_checked_body(url@, reply)),
{
    match reply.body {
        Err(e) => {
            let mut m = string_of("lecture de la reponse GitHub impossible (");
            push_str(&mut m, reply.status_text.as_str());
            push_str(&mut m, ") pour ");
            push_str(&mut m, url);
            push_str(&mut m, ": ");
            push_str(&mut m, e.as_str());
            Err(m)
        },
        Ok(b) => {
            if status_is_success(reply.status) {
                Ok(b)
            } else {
                let mut m = string_of("GitHub a retourne ");
                push_str(&mut m, reply.status_text.as_str());
                push_str(&mut m, " pour ");
                push_str(&mut m, url);
                push_str(&mut m, ": ");
                let ex = body_excerpt(b.as_str());
                push_str(&mut m, ex.as_str());
                Err(m)
            }
        },
    }
}

/// The error text for a body that failed to decode.
pub fn decode_error(url: &str, e: &str, body: &str) -> (r: String)
    ensures
        r@ == spec_decode_error(url@, e@, body@),
{
    let mut m = string_of("decodage JSON impossible pour ");
    push_str(&mut m, url);
    push_str(&mut m, ": ");
    push_str(&mut m, e);
    push_str(&mut m, ". Extrait: ");
    let ex = body_excerpt(body);
    push_str(&mut m, ex.as_str());
    m
}

// ───────────────────────────── listing the repositories ─────────────────────────────

/// `https://api.github.com/orgs/<ORG>/repos?per_page=100&type=public`.
pub open spec fn spec_org_repos_url() -> Seq<char> {
    API_BASE@ + "/orgs/"@ + ORG@ + "/repos?per_page=100&type=public"@
}

/// `https://api.github.com/users/<ORG>/repos?per_page=100&type=public`.
pub open spec fn spec_user_repos_url() -> Seq<char> {
    API_BASE@ + "/users/"@ + ORG@ + "/repos?per_page=100&type=public"@
}

/// A step of listing the repositories: what the previous request gave.
pub enum RepoListStep {
    /// Nothing asked yet.
    Begin,
    /// The reply to the organisation listing.
    OrgReply(HttpReply),
    /// The reply to the user listing.
    UserReply(HttpReply),
    /// The decoding of a listing body.
    Decoded { url: String, body: String, result: Result<Vec<GithubRepo>, String> },
    /// The request could not be sent.
    Failed(String),
}

/// What to do next when listing the repositories.
pub enum RepoListAction {
    /// Request the organisation listing and answer `OrgReply`.
    GetOrg(String),
    /// Request the user listing and answer `UserReply`.
    GetUser(String),
    /// Decode `body` as a list of repositories and answer `Decoded`.
    Decode { url: String, body: String },
    /// The listing is over.
    Done(Result<Vec<GithubRepo>, String>),
}

/// The action for a checked reply: decode its body, or stop with its error.
pub open spec fn repo_reply_action(url: Seq<char>, r: HttpReply, a: RepoListAction) -> bool {
    match spec_checked_body(url, r) {
        Ok(b) => a matches RepoListAction::Decode { url: u, body } && u@ == url && body@ == b,
        Err(e) => a matches RepoListAction::Done(Err(m)) && m@ == e,
    }
}

/// The decisions of `fetch_org_repos`.
pub open spec fn spec_fetch_org_repos(step: RepoListStep, a: RepoListAction) -> bool {
    match step {
        RepoListStep::Begin => a matches RepoListAction::GetOrg(u) && u@ == spec_org_repos_url(),
        RepoListStep::OrgReply(r) => if r.status == 404 {
            a matches RepoListAction::GetUser(u) && u@ == spec_user_repos_url()
        } else {
            repo_reply_action(spec_org_repos_url(), r, a)
        },
        RepoListStep::UserReply(r) => repo_reply_action(spec_user_repos_url(), r, a),
        RepoListStep::Decoded { url, body, result } => match result {
            Ok(repos) => a matches RepoListAction::Done(Ok(v)) && v@ == listed_repos(repos@),
            Err(e) => a matches RepoListAction::Done(Err(m)) && m@ == spec_decode_error(
                url@,
                e@,
                body@,
            ),
        },
        RepoListStep::Failed(e) => a matches RepoListAction::Done(Err(m)) && m@ == e@,
    }
}

fn org_repos_url() -> (r: String)
    ensures
        r@ == spec_org_repos_url(),
{
    let mut u = string_of(API_BASE);
    push_str(&mut u, "/orgs/");
    push_str(&mut u, ORG);
    push_str(&mut u, "/repos?per_page=100&type=public");
    u
}

fn user_repos_url() -> (r: String)
    ensures
        r@ == spec_user_repos_url(),
{
    let mut u = string_of(API_BASE);
    push_str(&mut u, "/users/");
    push_str(&mut u, ORG);
    push_str(&mut u, "/repos?per_page=100&type=public");
    u
}

fn repo_reply(url: String, reply: HttpReply) -> (a: RepoListAction)
    ensures
        repo_reply_action(url@, reply, a),
{
    match check_reply(url.as_str(), reply) {
        Ok(body) => RepoListAction::Decode { url, body },
        Err(m) => RepoListAction::Done(Err(m)),
    }
}

/// Lists the public repositories of the organisation, falling back to the
/// user account of the same name when the organisation is not found, and
/// keeps the programs of the suite.
pub fn fetch_org_repos(step: RepoListStep) -> (a: RepoListAction)
    ensures
        spec_fetch_org_repos(step, a),
{
    match step {
        RepoListStep::Begin => RepoListAction::GetOrg(org_repos_url()),
        RepoListStep::OrgReply(r) => {
            if r.status == 404 {
                RepoListAction::GetUser(user_repos_url())
            } else {
                repo_reply(org_repos_url(), r)
            }
        },
        RepoListStep::UserReply(r) => repo_reply(user_repos_url(), r),
        RepoListStep::Decoded { url, body, result } => match result {
            Ok(repos) => RepoListAction::Done(Ok(filter_repos(repos))),
            Err(e) => RepoListAction::Done(
                Err(decode_error(url.as_str(), e.as_str(), body.as_str())),
            ),
        },
        RepoListStep::Failed(e) => RepoListAction::Done(Err(e)),
    }
}

// ───────────────────────────── latest release ─────────────────────────────

/// `https://api.github.com/repos/<ORG>/<repo>/releases/latest`.
pub open spec fn spec_latest_release_url(repo: Seq<char>) -> Seq<char> {
    API_BASE@ + "/repos/"@ + ORG@ + "/"@ + repo + "/releases/latest"@
}

/// `https://api.github.com/repos/<ORG>/<repo>/releases?per_page=20`.
pub open spec fn spec_release_list_url(repo: Seq<char>) -> Seq<char> {
    API_BASE@ + "/repos/"@ + ORG@ + "/"@ + repo + "/releases?per_page=20"@
}

/// Index of the first release that is not a draft.
pub open spec fn first_published(releases: Seq<GithubRelease>) -> Option<int> {
    if exists|i: int| 0 <= i < releases.len() && !releases[i].draft {
        Some(
            choose|i: int|
                0 <= i < releases.len() && !releases[i].draft && forall|k: int|
                    0 <= k < i ==> #[trigger] releases[k].draft,
        )
    } else {
        None
    }
}

/// A step of looking up the latest release: what the previous request gave.
pub enum ReleaseStep {
    /// Nothing asked yet.
    Begin,
    /// The reply to `releases/latest`.
    LatestReply(HttpReply),
    /// The reply to the release list.
    ListReply(HttpReply),
    /// The decoding of the latest release.
    LatestDecoded { url: String, body: String, result: Result<GithubRelease, String> },
    /// The decoding of the release list.
    ListDecoded { url: String, body: String, result: Result<Vec<GithubRelease>, String> },
    /// The request could not be sent.
    Failed(String),
}

/// What to do next when looking up the latest release.
pub enum ReleaseAction {
    /// Request the latest release and answer `LatestReply`.
    GetLatest(String),
    /// Request the release list and answer `ListReply`.
    GetList(String),
    /// Decode `body` as a release and answer `LatestDecoded`.
    DecodeLatest { url: String, body: String },
    /// Decode `body` as a list of releases and answer `ListDecoded`.
    DecodeList { url: String, body: String },
    /// The lookup is over: the release, none, or an error.
    Done(Result<Option<GithubRelease>, String>),
}

/// The decisions of `fetch_latest_release`.
pub open spec fn spec_fetch_latest_release(
    repo: Seq<char>,
    step: ReleaseStep,
    a: ReleaseAction,
) -> bool {
    match step {
        ReleaseStep::Begin => a matches ReleaseAction::GetLatest(u) && u@
            == spec_latest_release_url(repo),
        ReleaseStep::LatestReply(r) => if is_success(r.status) {
            match spec_checked_body(spec_latest_release_url(repo), r) {
                Ok(b) => a matches ReleaseAction::DecodeLatest { url: u, body } && u@
                    == spec_latest_release_url(repo) && body@ == b,
                Err(e) => a matches ReleaseAction::Done(Err(m)) && m@ == e,
            }
        } else {
            a matches ReleaseAction::GetList(u) && u@ == spec_release_list_url(repo)
        },
        ReleaseStep::ListReply(r) => if !is_success(r.status) {
            a matches ReleaseAction::Done(Ok(None))
        } else {
            match spec_checked_body(spec_release_list_url(repo), r) {
                Ok(b) => a matches ReleaseAction::DecodeList { url: u, body } && u@
                    == spec_release_list_url(repo) && body@ == b,
                Err(e) => a matches ReleaseAction::Done(Err(m)) && m@ == e,
            }
        },
        ReleaseStep::LatestDecoded { url, body, result } => match result {
            Ok(rel) => a == ReleaseAction::Done(Ok(Some(rel))),
            Err(e) => a matches ReleaseAction::Done(Err(m)) && m@ == spec_decode_error(
                url@,
                e@,
                body@,
            ),
        },
        ReleaseStep::ListDecoded { url, body, result } => match result {
            Ok(rels) => match first_published(rels@) {
                Some(i) => a == ReleaseAction::Done(Ok(Some(rels@[i]))),
                None => a == ReleaseAction::Done(Ok(None)),
            },
            Err(e) => a matches ReleaseAction::Done(Err(m)) && m@ == spec_decode_error(
                url@,
                e@,
                body@,
            ),
        },
        ReleaseStep::Failed(e) => a matches ReleaseAction::Done(Err(m)) && m@ == e@,
    }
}

fn latest_release_url(repo: &str) -> (r: String)
    ensures
        r@ == spec_latest_release_url(repo@),
{
    let mut u = string_of(API_BASE);
    push_str(&mut u, "/repos/");
    push_str(&mut u, ORG);
    push_str(&mut u, "/");
    push_str(&mut u, repo);
    push_str(&mut u, "/releases/latest");
    u
}

fn release_list_url(repo: &str) -> (r: String)
    ensures
        r@ == spec_release_list_url(repo@),
{
    let mut u = string_of(API_BASE);
    push_str(&mut u, "/repos/");
    push_str(&mut u, ORG);
    push_str(&mut u, "/");
    push_str(&mut u, repo);
    push_str(&mut u, "/releases?per_page=20");
    u
}

/// The first release of a list that is not a draft.
pub fn first_non_draft(releases: Vec<GithubRelease>) -> (r: Option<GithubRelease>)
    ensures
        match first_published(releases@) {
            Some(i) => r == Some(releases@[i]),
            None => r is None,
        },
{
    let ghost all = releases@;
    for rel in it: releases
        invariant
            it.seq() == all,
            forall|k: int| 0 <= k < it.index() ==> #[trigger] all[k].draft,
    {
        if !rel.draft {
            proof {
                let i = it.index() as int;
                assert(0 <= i < all.len() && !all[i].draft);
                let c = choose|c: int|
                    0 <= c < all.len() && !all[c].draft && forall|k: int|
                        0 <= k < c ==> #[trigger] all[k].draft;
                assert(!(c < i) && !(i < c));
            }
            return Some(rel);
        }
    }
    None
}

/// Looks up the latest release of a repository: `releases/latest` first,
/// and when that is not a success the first non-draft release of the list.
pub fn fetch_latest_release(repo: &str, step: ReleaseStep) -> (a: ReleaseAction)
    ensures
        spec_fetch_latest_release(repo@, step, a),
{
    match step {
        ReleaseStep::Begin => ReleaseAction::GetLatest(latest_release_url(repo)),
        ReleaseStep::LatestReply(r) => {
            if status_is_success(r.status) {
                let url = latest_release_url(repo);
                match check_reply(url.as_str(), r) {
                    Ok(body) => ReleaseAction::DecodeLatest { url, body },
                    Err(m) => ReleaseAction::Done(Err(m)),
                }
            } else {
                ReleaseAction::GetList(release_list_url(repo))
            }
        },
        ReleaseStep::ListReply(r) => {
            if !status_is_success(r.status) {
                ReleaseAction::Done(Ok(None))
            } else {
                let url = release_list_url(repo);
                match check_reply(url.as_str(), r) {
                    Ok(body) => ReleaseAction::DecodeList { url, body },
                    Err(m) => ReleaseAction::Done(Err(m)),
                }
            }
        },
        ReleaseStep::LatestDecoded { url, body, result } => match result {
            Ok(rel) => ReleaseAction::Done(Ok(Some(rel))),
            Err(e) => ReleaseAction::Done(
                Err(decode_error(url.as_str(), e.as_str(), body.as_str())),
            ),
        },
        ReleaseStep::ListDecoded { url, body, result } => match result {
            Ok(rels) => ReleaseAction::Done(Ok(first_non_draft(rels))),
            Err(e) => ReleaseAction::Done(
                Err(decode_error(url.as_str(), e.as_str(), body.as_str())),
            ),
        },
        ReleaseStep::Failed(e) => ReleaseAction::Done(Err(e)),
    }
}

// ───────────────────────────── language files ─────────────────────────────

/// The folders where a program keeps its language files, in the order they
/// are looked for.
#[derive(Debug, Clone, Copy, PartialEq, Eq)]
pub enum LangFolder {
    /// `langue`, the suite's own convention.
    Langue,
    /// `lang`, the fallback.
    Lang,
}

/// The folder's name.
pub open spec fn lang_folder_name(f: LangFolder) -> Seq<char> {
    match f {
        LangFolder::Langue => "langue"@,
        LangFolder::Lang => "lang"@,
    }
}

/// The name of a folder.
pub fn folder_name(f: LangFolder) -> (r: &'static str)
    ensures
        r@ == lang_folder_name(f),
{
    match f {
        LangFolder::Langue => "langue",
        LangFolder::Lang => "lang",
    }
}

/// `https://api.github.com/repos/<ORG>/<repo>/contents/<folder>?ref=<branch>`.
pub open spec fn spec_contents_url(repo: Seq<char>, branch: Seq<char>, folder: Seq<char>) -> Seq<
    char,
> {
    API_BASE@ + "/repos/"@ + ORG@ + "/"@ + repo + "/contents/"@ + folder + "?ref="@ + branch
}

/// A language file: a file whose name ends with `.toml`.
pub open spec fn is_language_file(c: GithubContent) -> bool {
    c.kind@ == "file"@ && has_suffix(c.name@, ".toml"@)
}

/// The names of the language files of a listing, in listing order.
pub open spec fn language_file_names(cs: Seq<GithubContent>) -> Seq<Seq<char>>
    decreases cs.len(),
{
    if cs.len() == 0 {
        Seq::empty()
    } else {
        let rest = language_file_names(cs.subrange(0, cs.len() - 1));
        if is_language_file(cs[cs.len() - 1]) {
            rest.push(cs[cs.len() - 1].name@)
        } else {
            rest
        }
    }
}

/// `names` are the language files of `cs`, sorted.
pub open spec fn is_sorted_language_list(cs: Seq<GithubContent>, names: Seq<String>) -> bool {
    &&& sorted_views(views(names))
    &&& views(names).to_multiset() == language_file_names(cs).to_multiset()
}

/// The language files of a folder listing, sorted by name.
pub fn language_files(contents: Vec<GithubContent>) -> (r: Vec<String>)
    ensures
        is_sorted_language_list(contents@, r@),
{
    let ghost all = contents@;
    let mut names: Vec<String> = Vec::new();
    for c in it: contents
        invariant
            it.seq() == all,
            views(names@) == language_file_names(all.subrange(0, it.index() as int)),
    {
        let ghost k = it.index() as int;
        proof {
            assert(all.subrange(0, k + 1).subrange(0, k) =~= all.subrange(0, k));
        }
        if str_eq(c.kind.as_str(), "file") && ends_with(c.name.as_str(), ".toml") {
            let ghost before = names@;
            names.push(c.name);
            assert(views(names@) =~= views(before).push(c.name@));
        }
    }
    assert(all.subrange(0, all.len() as int) =~= all);
    sort_strings(names)
}

/// A step of looking for the language files: what the previous request gave.
pub enum LanguageStep {
    /// Nothing asked yet.
    Begin,
    /// The reply to the listing of `folder`.
    Reply { folder: LangFolder, reply: HttpReply },
    /// The decoding of the listing of `folder`.
    Decoded {
        folder: LangFolder,
        url: String,
        body: String,
        result: Result<Vec<GithubContent>, String>,
    },
    /// The request could not be sent.
    Failed(String),
}

/// What to do next when looking for the language files.
pub enum LanguageAction {
    /// Request the listing of `folder` at `url` and answer `Reply`.
    Get { folder: LangFolder, url: String },
    /// Decode `body` as a folder listing and answer `Decoded`.
    Decode { folder: LangFolder, url: String, body: String },
    /// The search is over: the sorted language files and the folder holding them.
    Done(Result<(Vec<String>, String), String>),
}

/// The decisions of `fetch_language_files`.
pub open spec fn spec_fetch_language_files(
    repo: Seq<char>,
    branch: Seq<char>,
    step: LanguageStep,
    a: LanguageAction,
) -> bool {
    match step {
        LanguageStep::Begin => a matches LanguageAction::Get { folder, url } && folder
            == LangFolder::Langue && url@ == spec_contents_url(repo, branch, "langue"@),
        LanguageStep::Reply { folder, reply } => {
            let url = spec_contents_url(repo, branch, lang_folder_name(folder));
            if reply.status == 404 {
                match folder {
                    LangFolder::Langue => a matches LanguageAction::Get { folder: f, url: u } && f
                        == LangFolder::Lang && u@ == spec_contents_url(repo, branch, "lang"@),
                    LangFolder::Lang => a matches LanguageAction::Done(Ok((v, f))) && v@.len()
                        == 0 && f@ == "langue"@,
                }
            } else {
                match spec_checked_body(url, reply) {
                    Ok(b) => a matches LanguageAction::Decode { folder: f, url: u, body } && f
                        == folder && u@ == url && body@ == b,
                    Err(e) => a matches LanguageAction::Done(Err(m)) && m@ == e,
                }
            }
        },
        LanguageStep::Decoded { folder, url, body, result } => match result {
            Ok(cs) => a matches LanguageAction::Done(Ok((v, f))) && is_sorted_language_list(
                cs@,
                v@,
            ) && f@ == lang_folder_name(folder),
            Err(e) => a matches LanguageAction::Done(Err(m)) && m@ == spec_decode_error(
                url@,
                e@,
                body@,
            ),
        },
        LanguageStep::Failed(e) => a matches LanguageAction::Done(Err(m)) && m@ == e@,
    }
}

fn contents_url(repo: &str, branch: &str, folder: LangFolder) -> (r: String)
    ensures
        r@ == spec_contents_url(repo@, branch@, lang_folder_name(folder)),
{
    let mut u = string_of(API_BASE);
    push_str(&mut u, "/repos/");
    push_str(&mut u, ORG);
    push_str(&mut u, "/");
    push_str(&mut u, repo);
    push_str(&mut u, "/contents/");
    push_str(&mut u, folder_name(folder));
    push_str(&mut u, "?ref=");
    push_str(&mut u, branch);
    u
}

/// Looks for the language files of a repository: the `.toml` files of its
/// `langue` folder, or else of its `lang` folder, sorted by name; none (and
/// the folder `langue`) when neither folder exists.
pub fn fetch_language_files(repo: &str, branch: &str, step: LanguageStep) -> (a: LanguageAction)
    ensures
        spec_fetch_language_files(repo@, branch@, step, a),
{
    match step {
        LanguageStep::Begin => LanguageAction::Get {
            folder: LangFolder::Langue,
            url: contents_url(repo, branch, LangFolder::Langue),
        },
        LanguageStep::Reply { folder, reply } => {
            if reply.status == 404 {
                match folder {
                    LangFolder::Langue => LanguageAction::Get {
                        folder: LangFolder::Lang,
                        url: contents_url(repo, branch, LangFolder::Lang),
                    },
                    LangFolder::Lang => LanguageAction::Done(
                        Ok((Vec::new(), string_of("langue"))),
                    ),
                }
            } else {
                let url = contents_url(repo, branch, folder);
                match check_reply(url.as_str(), reply) {
                    Ok(body) => LanguageAction::Decode { folder, url, body },
                    Err(m) => LanguageAction::Done(Err(m)),
                }
            }
        },
        LanguageStep::Decoded { folder, url, body, result } => match result {
            Ok(cs) => LanguageAction::Done(
                Ok((language_files(cs), string_of(folder_name(folder)))),
            ),
            Err(e) => LanguageAction::Done(
                Err(decode_error(url.as_str(), e.as_str(), body.as_str())),
            ),
        },
        LanguageStep::Failed(e) => LanguageAction::Done(Err(e)),
    }
}

// ───────────────────────────── connectivity ─────────────────────────────

/// `https://api.github.com/orgs/<ORG>`, the address probed for connectivity.
pub open spec fn spec_connectivity_url() -> Seq<char> {
    API_BASE@ + "/orgs/"@ + ORG@
}

/// The address probed for connectivity.
pub fn connectivity_url() -> (r: String)
    ensures
        r@ == spec_connectivity_url(),
{
    let mut u = string_of(API_BASE);
    push_str(&mut u, "/orgs/");
    push_str(&mut u, ORG);
    u
}

/// GitHub counts as reachable when the probe answers with a success or with
/// 404 (what an unauthenticated, rate-limited request gets); the latency is
/// then kept, else the status is reported as `HTTP <status>`.
pub fn connectivity_verdict(status: u16, status_text: &str, ms: u64) -> (r: Result<u64, String>)
    ensures
        (is_success(status) || status == 404) ==> r == Ok::<u64, String>(ms),
        !(is_success(status) || status == 404) ==> (r matches Err(m) && m@ == "HTTP "@
            + status_text@),
{
    if status_is_success(status) || status == 404 {
        Ok(ms)
    } else {
        let mut m = string_of("HTTP ");
        push_str(&mut m, status_text);
        Err(m)
    }
}


/// The release taken from the list is the first one that is not a draft,
/// pre-release or not; none only when every release is a draft.
pub proof fn law_first_non_draft_release(repo: Seq<char>, url: String, body: String, releases: Vec<GithubRelease>, a: ReleaseAction)
    requires
        spec_fetch_latest_release(
            repo,
            ReleaseStep::ListDecoded { url, body, result: Ok(releases) },
            a,
        ),
    ensures
        forall|j: int|
            0 <= j < releases@.len() && !releases@[j].draft && (forall|k: int|
                0 <= k < j ==> #[trigger] releases@[k].draft) ==> a == ReleaseAction::Done(
                Ok(Some(releases@[j])),
            ),
        (forall|k: int| 0 <= k < releases@.len() ==> #[trigger] releases@[k].draft) ==> a
            == ReleaseAction::Done(Ok(None)),
{
    let rels = releases@;
    assert forall|j: int|
        0 <= j < rels.len() && !rels[j].draft && (forall|k: int| 0 <= k < j ==> #[trigger] rels[k].draft)
        implies a == ReleaseAction::Done(Ok(Some(rels[j]))) by {
        let c = first_published(rels)->0;
        assert(!(c < j) && !(j < c));
    }
}

/// The programs of the suite are exactly the listed repositories other
/// than `suite_install`, `rusty-suite` and the repositories whose name
/// starts with a dot.
pub proof fn law_listed_repos(repos: Seq<GithubRepo>, r: GithubRepo)
    ensures
        listed_repos(repos).contains(r) <==> (repos.contains(r) && r.name@ != "suite_install"@
            && r.name@ != "rusty-suite"@ && !(r.name@.len() > 0 && r.name@[0] == '.')),
{
    reveal_strlit(".");
    assert("."@ =~= seq!['.']);
    let p = |x: GithubRepo| is_listed_repo(x);
    if listed_repos(repos).contains(r) {
        repos.lemma_filter_contains_rev(p, r);
        let i = choose|i: int| 0 <= i < listed_repos(repos).len() && listed_repos(repos)[i] == r;
        #[allow(deprecated)]
        repos.filter_lemma(p);
        assert(p(listed_repos(repos)[i]));
        if r.name@.len() > 0 && r.name@[0] == '.' {
            assert(r.name@.subrange(0, 1) =~= seq!['.']);
        }
    }
    if repos.contains(r) && r.name@ != "suite_install"@ && r.name@ != "rusty-suite"@ && !(
    r.name@.len() > 0 && r.name@[0] == '.') {
        let i = choose|i: int| 0 <= i < repos.len() && repos[i] == r;
        if has_prefix(r.name@, "."@) {
            assert(r.name@.subrange(0, 1)[0] == r.name@[0]);
        }
        assert(!has_prefix(r.name@, "."@));
        repos.lemma_filter_contains(p, i);
    }
}

} // verus!
