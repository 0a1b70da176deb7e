//! The decisions of the registry cache: where a response is kept, what is
//! asked of the registry, when the network may be used, and what a response
//! is taken for. Reading, writing and sending are the caller's part.

use crate::retry::{after_attempt, Retry, Step};
use crate::text::{decimal, has_char, to_decimal};
use vstd::prelude::*;
use vstd::string::*;

verus! {

/// The page size asked of the registry.
pub const PER_PAGE: usize = 100;

/// Why a fetch failed.
#[derive(Clone, Debug, PartialEq, Eq)]
pub enum FetchError {
    /// No usable copy is kept at this path, and the network may not be used.
    CacheMiss(String),
    /// The registry answered this URL with a status that is no success.
    DownloadFailure(String),
    /// The request did not reach the registry.
    Transport(String),
    /// The response does not have the expected shape.
    Deserialization(String),
}

/// The mathematical value of a [`FetchError`].
pub enum FetchErrorView {
    CacheMiss(Seq<char>),
    DownloadFailure(Seq<char>),
    Transport(Seq<char>),
    Deserialization(Seq<char>),
}

impl View for FetchError {
    type V = FetchErrorView;

    open spec fn view(&self) -> FetchErrorView {
        match self {
            FetchError::CacheMiss(path) => FetchErrorView::CacheMiss(path@),
            FetchError::DownloadFailure(url) => FetchErrorView::DownloadFailure(url@),
            FetchError::Transport(reason) => FetchErrorView::Transport(reason@),
            FetchError::Deserialization(reason) => FetchErrorView::Deserialization(reason@),
        }
    }
}

impl FetchErrorView {
    /// The error in words. A cache miss names the path and says how to get
    /// the file; a failed download names the URL.
    pub open spec fn message(self) -> Seq<char> {
        match self {
            FetchErrorView::CacheMiss(path) => "no cached copy at "@ + path
                + "; allow downloads for one run to fetch it"@,
            FetchErrorView::DownloadFailure(url) => "download failed: "@ + url,
            FetchErrorView::Transport(reason) => "request failed: "@ + reason,
            FetchErrorView::Deserialization(reason) => "unexpected response: "@ + reason,
        }
    }
}

impl FetchError {
    /// The error in words.
    pub fn to_string(&self) -> (s: String)
        ensures
            s@ == self@.message(),
    {
        match self {
            FetchError::CacheMiss(path) => {
                let mut s = "no cached copy at ".to_owned();
                s.append(path.as_str());
                s.append("; allow downloads for one run to fetch it");
                s
            },
            FetchError::DownloadFailure(url) => {
                let mut s = "download failed: ".to_owned();
                s.append(url.as_str());
                s
            },
            FetchError::Transport(reason) => {
                let mut s = "request failed: ".to_owned();
                s.append(reason.as_str());
                s
            },
            FetchError::Deserialization(reason) => {
                let mut s = "unexpected response: ".to_owned();
                s.append(reason.as_str());
                s
            },
        }
    }
}

/// What the cache holds for an endpoint.
#[derive(Clone, Copy, Debug, PartialEq, Eq, Structural)]
pub enum CacheState {
    /// A file that has the expected shape.
    Valid,
    /// No file.
    Missing,
    /// A file that cannot be read as the expected shape.
    Corrupt,
}

/// What a fetch does once the cache has been looked at.
#[derive(Clone, Debug, PartialEq, Eq)]
pub enum Plan {
    /// Return the cached copy; the network is not touched.
    UseCache,
    /// Ask the registry at this URL, and keep the response.
    Download(String),
    /// Give up with this error.
    Fail(FetchError),
}

/// The mathematical value of a [`Plan`].
pub enum PlanView {
    UseCache,
    Download(Seq<char>),
    Fail(FetchErrorView),
}

impl View for Plan {
    type V = PlanView;

    open spec fn view(&self) -> PlanView {
        match self {
            Plan::UseCache => PlanView::UseCache,
            Plan::Download(url) => PlanView::Download(url@),
            Plan::Fail(error) => PlanView::Fail(error@),
        }
    }
}

/// A location is relative where it does not start at the root.
pub open spec fn relative(location: Seq<char>) -> bool {
    location.len() == 0 || location[0] != '/'
}

/// The path below the cache root at which a location is kept.
pub open spec fn path_below(root: Seq<char>, location: Seq<char>) -> Seq<char> {
    root.push('/') + location
}

/// The URL that is asked for an endpoint: the base, the endpoint, and the
/// page size as one more query parameter.
pub open spec fn url_for(base: Seq<char>, endpoint: Seq<char>) -> Seq<char> {
    base + endpoint + (if endpoint.contains('?') {
        "&"@
    } else {
        "?"@
    }) + "per_page=100"@
}

/// The plan of a fetch: a valid cached copy is used, whatever else holds;
/// without one the registry is asked where the network may be used, and the
/// fetch fails with a cache miss naming the path where it may not.
pub open spec fn planned(
    state: CacheState,
    network: bool,
    path: Seq<char>,
    url: Seq<char>,
) -> PlanView {
    if state == CacheState::Valid {
        PlanView::UseCache
    } else if network {
        PlanView::Download(url)
    } else {
        PlanView::Fail(FetchErrorView::CacheMiss(path))
    }
}

/// What one attempt of a download is taken for: a request that did not get
/// through is a transport error, a status outside 200 to 299 a failed
/// download of the URL, and any other a success.
pub open spec fn judged(url: Seq<char>, response: Result<u16, Seq<char>>) -> Result<
    (),
    FetchErrorView,
> {
    match response {
        Err(reason) => Err(FetchErrorView::Transport(reason)),
        Ok(status) => if 200 <= status < 300 {
            Ok(())
        } else {
            Err(FetchErrorView::DownloadFailure(url))
        },
    }
}

/// The number of pages that hold `total` items.
pub open spec fn pages(total: nat) -> nat {
    (total + 99) / 100
}

/// Whether a location is relative.
pub fn is_relative(location: &str) -> (r: bool)
    ensures
        r == relative(location@),
{
    if location.unicode_len() == 0 {
        true
    } else {
        location.get_char(0) != '/'
    }
}

/// The path of a relative location below the cache root.
pub fn cache_path(root: &str, location: &str) -> (path: String)
    requires
        relative(location@),
    ensures
        path@ == path_below(root@, location@),
{
    let mut path = root.to_owned();
    proof {
        reveal_strlit("/");
    }
    path.append("/");
    path.append(location);
    proof {
        assert(root@ + "/"@ =~= root@.push('/'));
    }
    path
}

/// The URL that is asked for an endpoint of the registry at `base`.
pub fn request_url(base: &str, endpoint: &str) -> (url: String)
    ensures
        url@ == url_for(base@, endpoint@),
{
    let mut url = base.to_owned();
    url.append(endpoint);
    if has_char(endpoint, '?') {
        url.append("&");
    } else {
        url.append("?");
    }
    url.append("per_page=100");
    url
}

/// Decides what a fetch does, from what the cache holds for the endpoint and
/// whether the network may be used.
pub fn plan(state: CacheState, network: bool, path: &str, url: &str) -> (plan: Plan)
    ensures
        plan@ == planned(state, network, path@, url@),
{
    match state {
        CacheState::Valid => Plan::UseCache,
        _ => {
            if network {
                Plan::Download(url.to_owned())
            } else {
                Plan::Fail(FetchError::CacheMiss(path.to_owned()))
            }
        },
    }
}

/// The mathematical value of a response: the status, or the reason why the
/// request did not get through.
pub open spec fn response_view(response: Result<u16, String>) -> Result<u16, Seq<char>> {
    match response {
        Ok(status) => Ok(status),
        Err(reason) => Err(reason@),
    }
}

/// The mathematical value of the outcome of an attempt.
pub open spec fn outcome_view(outcome: Result<(), FetchError>) -> Result<(), FetchErrorView> {
    match outcome {
        Ok(_) => Ok(()),
        Err(error) => Err(error@),
    }
}

/// The mathematical value of how reading a response went.
pub open spec fn shape_view(shape: Result<(), String>) -> Result<(), Seq<char>> {
    match shape {
        Ok(_) => Ok(()),
        Err(reason) => Err(reason@),
    }
}

/// The mathematical value of what becomes of a response.
pub open spec fn kept_view(kept: Result<String, FetchError>) -> Result<
    Seq<char>,
    FetchErrorView,
> {
    match kept {
        Ok(at) => Ok(at@),
        Err(error) => Err(error@),
    }
}

/// Takes the response of one attempt: the status where the request got
/// through, else the reason why it did not.
pub fn judge(url: &str, response: Result<u16, String>) -> (outcome: Result<(), FetchError>)
    ensures
        outcome_view(outcome) == judged(url@, response_view(response)),
{
    match response {
        Err(reason) => Err(FetchError::Transport(reason)),
        Ok(status) => {
            if 200 <= status && status < 300 {
                Ok(())
            } else {
                Err(FetchError::DownloadFailure(url.to_owned()))
            }
        },
    }
}

/// What becomes of a downloaded response once it has been read: one of the
/// expected shape is to be kept at `path`, and one of another shape fails the
/// fetch with the reason given.
pub open spec fn settled(path: Seq<char>, shape: Result<(), Seq<char>>) -> Result<
    Seq<char>,
    FetchErrorView,
> {
    match shape {
        Ok(_) => Ok(path),
        Err(reason) => Err(FetchErrorView::Deserialization(reason)),
    }
}

/// Decides what becomes of a downloaded response, from how reading it went:
/// the path to keep it at, or the error of the fetch.
pub fn settle(path: &str, shape: Result<(), String>) -> (kept: Result<String, FetchError>)
    ensures
        kept_view(kept) == settled(path@, shape_view(shape)),
{
    match shape {
        Ok(_) => Ok(path.to_owned()),
        Err(reason) => Err(FetchError::Deserialization(reason)),
    }
}

/// One attempt of a download: the response is judged, a success ends the
/// download, and a failure ends it only when the budget is spent, with that
/// failure as the result.
pub fn attempt(retry: Retry, url: &str, response: Result<u16, String>) -> (step: Step<
    (),
    FetchError,
>)
    ensures
        match after_attempt(retry.left(), judged(url@, response_view(response))) {
            Ok(result) => step matches Step::Done(outcome) && outcome_view(outcome) == result,
            Err(rest) => step matches Step::Again(r) && r.left() == rest,
        },
{
    retry.next(judge(url, response))
}

/// One page of the index of crates.
#[derive(Clone, Debug)]
pub struct IndexPage {
    /// The names of the crates on the page, in the registry's order.
    pub crates: Vec<String>,
    /// The number of crates in the whole index.
    pub total: usize,
}

/// The number of pages of the index, from its first page.
pub fn page_count(first: &IndexPage) -> (count: usize)
    ensures
        count == pages(first.total as nat),
{
    let whole: usize = first.total / PER_PAGE;
    if first.total % PER_PAGE == 0 {
        whole
    } else {
        whole + 1
    }
}

/// Where page `page` of the index is kept.
pub open spec fn index_at(page: nat) -> Seq<char> {
    "index/"@ + decimal(page) + ".json"@
}

/// Where the versions of a crate are kept.
pub open spec fn crate_at(name: Seq<char>) -> Seq<char> {
    "crate/"@ + name + ".json"@
}

/// Where the dependencies of a crate version are kept.
pub open spec fn dependencies_at(name: Seq<char>, version: Seq<char>) -> Seq<char> {
    "dependencies/"@ + name + "/"@ + version + ".json"@
}

/// The endpoint of page `page` of the index.
pub open spec fn index_endpoint_of(page: nat) -> Seq<char> {
    "/crates?page="@ + decimal(page)
}

/// The endpoint of a crate.
pub open spec fn crate_endpoint_of(name: Seq<char>) -> Seq<char> {
    "/crates/"@ + name
}

/// The endpoint of the dependencies of a crate version.
pub open spec fn dependencies_endpoint_of(name: Seq<char>, version: Seq<char>) -> Seq<char> {
    "/crates/"@ + name + "/"@ + version + "/dependencies"@
}

/// The cache location of a page of the index.
pub fn index_location(page: u64) -> (location: String)
    ensures
        location@ == index_at(page as nat),
{
    let mut s = "index/".to_owned();
    let digits = to_decimal(page);
    s.append(digits.as_str());
    s.append(".json");
    s
}

/// The cache location of a crate.
pub fn crate_location(name: &str) -> (location: String)
    ensures
        location@ == crate_at(name@),
{
    let mut s = "crate/".to_owned();
    s.append(name);
    s.append(".json");
    s
}

/// The cache location of the dependencies of a crate version.
pub fn dependencies_location(name: &str, version: &str) -> (location: String)
    ensures
        location@ == dependencies_at(name@, version@),
{
    let mut s = "dependencies/".to_owned();
    s.append(name);
    s.append("/");
    s.append(version);
    s.append(".json");
    s
}

/// The endpoint of a page of the index.
pub fn index_endpoint(page: u64) -> (endpoint: String)
    ensures
        endpoint@ == index_endpoint_of(page as nat),
{
    let mut s = "/crates?page=".to_owned();
    let digits = to_decimal(page);
    s.append(digits.as_str());
    s
}

/// The endpoint of a crate.
pub fn crate_endpoint(name: &str) -> (endpoint: String)
    ensures
        endpoint@ == crate_endpoint_of(name@),
{
    let mut s = "/crates/".to_owned();
    s.append(name);
    s
}

/// The endpoint of the dependencies of a crate version.
pub fn dependencies_endpoint(name: &str, version: &str) -> (endpoint: String)
    ensures
        endpoint@ == dependencies_endpoint_of(name@, version@),
{
    let mut s = "/crates/".to_owned();
    s.append(name);
    s.append("/");
    s.append(version);
    s.append("/dependencies");
    s
}

/// A fetch that finds a valid cached copy uses it and asks for nothing; one
/// that finds none and may not use the network fails with a cache miss that
/// names the path.
pub proof fn cache_decides(state: CacheState, network: bool, path: Seq<char>, url: Seq<char>)
    ensures
        state == CacheState::Valid ==> planned(state, network, path, url) == PlanView::UseCache,
        state != CacheState::Valid && !network ==> planned(state, network, path, url)
            == PlanView::Fail(FetchErrorView::CacheMiss(path)),
        planned(state, network, path, url) is Download ==> network && state != CacheState::Valid,
{
}

} // verus!
