//! Scrape orchestration: three retrieval tiers tried in order, each through the proxy
//! pool, and the interpretation of each upstream answer.
//!
//! The library decides and the host performs: every step returns either a request to
//! perform or the final result, and the host hands back what the request produced.
//!
//! Policy for content answers (not found, private, rate limited, unauthorized) received
//! through a proxy: the tier still moves on to the next endpoint, and only transport
//! failures make an endpoint unavailable. Once a pool is configured, no request is ever
//! sent without a proxy.

use vstd::prelude::*;
use crate::config::AppConfig;
use crate::json::{
    get, oarray, oarray_exec, obool, obool_exec, oget, oget_exec, ostr, ostr_exec,
    parse_json, parsed_json, JsonValue,
};
use crate::models::{InstagramPost, InstagramUser, PostModel, UserModel, posts_view};
use crate::normalize::{
    api_user, count_positive, extract_from_additional_data_sources,
    extract_posts_from_items, extract_user_data_from_api_response,
    extract_user_data_from_json, graphql_user, html_user, items_posts, opt_posts_seq_view,
    sv,
};
use crate::proxy::{ProxyManager, any_available, count_available, lemma_positive_count_has_available, reinstated};
use crate::text::decimal;

verus! {

#[derive(Debug)]
pub enum ScraperError {
    NetworkError(String),
    ParsingError(String),
    RateLimited,
    ProfileNotFound,
    PrivateProfile,
    ProxyError(String),
    ProxyConfigurationMissing,
    AllProxiesFailed,
    UnauthorizedAccess(String),
}

/// The mathematical value of a `ScraperError`.
pub enum Failure {
    Network(Seq<char>),
    Parsing(Seq<char>),
    RateLimited,
    NotFound,
    Private,
    Proxy(Seq<char>),
    ProxyConfigurationMissing,
    AllProxiesFailed,
    Unauthorized(Seq<char>),
}

impl View for ScraperError {
    type V = Failure;

    open spec fn view(&self) -> Failure {
        match self {
            ScraperError::NetworkError(m) => Failure::Network(m@),
            ScraperError::ParsingError(m) => Failure::Parsing(m@),
            ScraperError::RateLimited => Failure::RateLimited,
            ScraperError::ProfileNotFound => Failure::NotFound,
            ScraperError::PrivateProfile => Failure::Private,
            ScraperError::ProxyError(m) => Failure::Proxy(m@),
            ScraperError::ProxyConfigurationMissing => Failure::ProxyConfigurationMissing,
            ScraperError::AllProxiesFailed => Failure::AllProxiesFailed,
            ScraperError::UnauthorizedAccess(m) => Failure::Unauthorized(m@),
        }
    }
}

/// The human-readable text of an error.
pub open spec fn failure_text(f: Failure) -> Seq<char> {
    match f {
        Failure::Network(m) => "Network error: "@ + m,
        Failure::Parsing(m) => "Parsing error: "@ + m,
        Failure::RateLimited => "Rate limited or blocked"@,
        Failure::NotFound => "Profile not found"@,
        Failure::Private => "Private profile"@,
        Failure::Proxy(m) => "Proxy error: "@ + m,
        Failure::ProxyConfigurationMissing => "No proxies configured"@,
        Failure::AllProxiesFailed => "All proxies failed"@,
        Failure::Unauthorized(m) => "Unauthorized access: "@ + m,
    }
}

impl ScraperError {
    /// The human-readable text of the error.
    pub fn message(&self) -> (r: String)
        ensures
            r@ == failure_text(self@),
    {
        match self {
            ScraperError::NetworkError(m) => String::from_str("Network error: ").concat(m.as_str()),
            ScraperError::ParsingError(m) => String::from_str("Parsing error: ").concat(m.as_str()),
            ScraperError::RateLimited => String::from_str("Rate limited or blocked"),
            ScraperError::ProfileNotFound => String::from_str("Profile not found"),
            ScraperError::PrivateProfile => String::from_str("Private profile"),
            ScraperError::ProxyError(m) => String::from_str("Proxy error: ").concat(m.as_str()),
            ScraperError::ProxyConfigurationMissing => String::from_str("No proxies configured"),
            ScraperError::AllProxiesFailed => String::from_str("All proxies failed"),
            ScraperError::UnauthorizedAccess(m) => String::from_str("Unauthorized access: ").concat(m.as_str()),
        }
    }
}

fn parsing(m: &str) -> (r: ScraperError)
    ensures
        r@ == Failure::Parsing(m@),
{
    ScraperError::ParsingError(String::from_str(m))
}

/// The retrieval tiers, in the order in which they are tried.
#[derive(Debug, Clone, Copy, PartialEq, Eq, Structural)]
pub enum Tier {
    WebApi,
    MobileApi,
    Html,
}

/// What a request is for; it decides the URL and the headers the host sends.
#[derive(Debug, Clone, Copy, PartialEq, Eq, Structural)]
pub enum RequestKind {
    WebApi,
    MobileApi,
    Html,
    PostsPage,
    PostsFeed,
}

/// One HTTP GET for the host to perform. `proxy` is the pool address used, and
/// `proxy_url` the same address with its scheme.
#[derive(Debug)]
pub struct FetchRequest {
    pub kind: RequestKind,
    pub url: String,
    pub proxy: Option<String>,
    pub proxy_url: Option<String>,
    pub send_cookies: bool,
}

/// What came of a request: an answer from the origin (`body` is `None` when it could not
/// be read), or a transport failure (connection refused, proxy setup, timeout).
#[derive(Debug)]
pub enum FetchOutcome {
    Response { status: u16, body: Option<String> },
    Transport(String),
}

/// What an answer to a profile request amounts to.
#[derive(Debug)]
pub enum ProfileReply {
    Found(InstagramUser),
    NeedsPosts(InstagramUser, String),
    Failed(ScraperError),
}

pub enum ReplyModel {
    Found(UserModel),
    NeedsPosts(UserModel, Seq<char>),
    Failed(Failure),
}

impl View for ProfileReply {
    type V = ReplyModel;

    open spec fn view(&self) -> ReplyModel {
        match self {
            ProfileReply::Found(u) => ReplyModel::Found(u@),
            ProfileReply::NeedsPosts(u, id) => ReplyModel::NeedsPosts(u@, id@),
            ProfileReply::Failed(e) => ReplyModel::Failed(e@),
        }
    }
}

pub open spec fn is_success(status: u16) -> bool {
    200 <= status < 300
}

pub open spec fn status_failure(status: u16) -> Failure {
    Failure::Parsing("HTTP error status: "@ + decimal(status as nat))
}

/// A profile came back with an empty first page although it reports posts, and a
/// session is configured: one supplementary page request is owed.
pub open spec fn needs_posts(m: UserModel, cookies: bool) -> bool {
    cookies && m.posts == Some(Seq::<PostModel>::empty()) && count_positive(m.stats.posts_count)
}

pub open spec fn found_or_needs(m: UserModel, id: Option<String>, cookies: bool) -> ReplyModel {
    if needs_posts(m, cookies) && id is Some {
        ReplyModel::NeedsPosts(m, id->0@)
    } else {
        ReplyModel::Found(m)
    }
}

/// The web endpoint's JSON document, once parsed (`None` when it did not parse).
pub open spec fn web_api_json_reply(j: Option<JsonValue>, username: Seq<char>, cookies: bool, now: i64) -> ReplyModel {
    match j {
        None => ReplyModel::Failed(Failure::Parsing("Could not extract data from web API"@)),
        Some(v) => {
            let u = oget(oget(Some(v), "graphql"@), "user"@);
            if obool(oget(u, "is_private"@)) == Some(true) {
                ReplyModel::Failed(Failure::Private)
            } else if u is Some {
                match graphql_user(v, username, now) {
                    None => ReplyModel::Failed(Failure::Parsing("Failed to extract user data"@)),
                    Some(m) => found_or_needs(m, ostr(oget(u, "id"@)), cookies),
                }
            } else {
                ReplyModel::Failed(Failure::Parsing("Could not extract data from web API"@))
            }
        },
    }
}

/// The mobile endpoint's JSON document, once parsed.
pub open spec fn mobile_api_json_reply(j: Option<JsonValue>, username: Seq<char>, cookies: bool, now: i64) -> ReplyModel {
    match j {
        None => ReplyModel::Failed(Failure::Parsing("Could not extract data from mobile API"@)),
        Some(v) => {
            let d = oget(oget(Some(v), "data"@), "user"@);
            if d is None {
                ReplyModel::Failed(Failure::Parsing("Could not extract data from mobile API"@))
            } else if obool(oget(d, "is_private"@)) == Some(true) {
                ReplyModel::Failed(Failure::Private)
            } else {
                match api_user(d->0, username, now) {
                    None => ReplyModel::Failed(Failure::Parsing("Failed to extract user data"@)),
                    Some(m) => found_or_needs(m, ostr(oget(d, "id"@)), cookies),
                }
            }
        },
    }
}

/// The reply of a tier to an answer from the origin.
pub open spec fn response_reply(tier: Tier, status: u16, body: Option<Seq<char>>, username: Seq<char>, cookies: bool, now: i64) -> ReplyModel {
    if status == 404 {
        ReplyModel::Failed(Failure::NotFound)
    } else if tier == Tier::WebApi && status == 429 {
        ReplyModel::Failed(Failure::RateLimited)
    } else if tier == Tier::MobileApi && (status == 401 || status == 403) {
        ReplyModel::Failed(Failure::Unauthorized(
            match body { Some(b) => b, None => "<failed to read body>"@ },
        ))
    } else if !is_success(status) {
        ReplyModel::Failed(status_failure(status))
    } else {
        match body {
            None => match tier {
                Tier::WebApi => ReplyModel::Failed(Failure::Parsing("Could not extract data from web API"@)),
                Tier::MobileApi => ReplyModel::Failed(Failure::Parsing("Could not extract data from mobile API"@)),
                Tier::Html => ReplyModel::Failed(Failure::Network("Failed to read response body"@)),
            },
            Some(b) => if b.len() == 0 {
                ReplyModel::Failed(Failure::Parsing("Empty response body"@))
            } else {
                match tier {
                    Tier::WebApi => web_api_json_reply(parsed_json(b), username, cookies, now),
                    Tier::MobileApi => mobile_api_json_reply(parsed_json(b), username, cookies, now),
                    Tier::Html => if vstd::utf8::encode_utf8(b).len() < 1000 {
                        ReplyModel::Failed(Failure::Parsing("HTML response too short, likely blocked"@))
                    } else {
                        match html_user(b, username, now) {
                            Some(m) => ReplyModel::Found(m),
                            None => ReplyModel::Failed(Failure::Parsing("Could not extract data from HTML"@)),
                        }
                    },
                }
            },
        }
    }
}

/// The reply of a tier to any outcome: a transport failure is attributed to the proxy
/// when one was used.
pub open spec fn outcome_reply(tier: Tier, o: FetchOutcome, proxied: bool, username: Seq<char>, cookies: bool, now: i64) -> ReplyModel {
    match o {
        FetchOutcome::Transport(m) => if proxied {
            ReplyModel::Failed(Failure::Proxy(m@))
        } else {
            ReplyModel::Failed(Failure::Network(m@))
        },
        FetchOutcome::Response { status, body } => response_reply(tier, status, sv(body), username, cookies, now),
    }
}

fn found_or_needs_exec(u: InstagramUser, id: Option<String>, cookies: bool) -> (r: ProfileReply)
    ensures
        r@ == found_or_needs(u@, id, cookies),
{
    let empty_posts = match &u.posts {
        Some(p) => p.len() == 0,
        None => false,
    };
    let positive = match u.stats.posts_count {
        Some(c) => c > 0,
        None => false,
    };
    proof {
        if u.posts is Some && u.posts->0@.len() == 0 {
            assert(posts_view(u.posts->0@) =~= Seq::<PostModel>::empty());
        }
        if u@.posts == Some(Seq::<PostModel>::empty()) {
            assert(posts_view(u.posts->0@).len() == 0);
        }
    }
    if cookies && empty_posts && positive {
        if let Some(id) = id {
            return ProfileReply::NeedsPosts(u, id);
        }
    }
    ProfileReply::Found(u)
}

/// What the web endpoint's parsed document amounts to (see `web_api_json_reply`).
pub fn web_api_reply(j: &Option<JsonValue>, username: &str, cookies: bool, now: i64) -> (r: ProfileReply)
    ensures
        r@ == web_api_json_reply(*j, username@, cookies, now),
{
    match j {
        None => ProfileReply::Failed(parsing("Could not extract data from web API")),
        Some(v) => {
            let u = oget_exec(get(v, "graphql"), "user");
            if obool_exec(oget_exec(u, "is_private")) == Some(true) {
                return ProfileReply::Failed(ScraperError::PrivateProfile);
            }
            if u.is_some() {
                match extract_user_data_from_json(v, username, now) {
                    None => ProfileReply::Failed(parsing("Failed to extract user data")),
                    Some(m) => found_or_needs_exec(m, ostr_exec(oget_exec(u, "id")), cookies),
                }
            } else {
                ProfileReply::Failed(parsing("Could not extract data from web API"))
            }
        },
    }
}

/// What the mobile endpoint's parsed document amounts to (see `mobile_api_json_reply`).
pub fn mobile_api_reply(j: &Option<JsonValue>, username: &str, cookies: bool, now: i64) -> (r: ProfileReply)
    ensures
        r@ == mobile_api_json_reply(*j, username@, cookies, now),
{
    match j {
        None => ProfileReply::Failed(parsing("Could not extract data from mobile API")),
        Some(v) => {
            let d = oget_exec(get(v, "data"), "user");
            match d {
                None => ProfileReply::Failed(parsing("Could not extract data from mobile API")),
                Some(data) => {
                    if obool_exec(get(data, "is_private")) == Some(true) {
                        return ProfileReply::Failed(ScraperError::PrivateProfile);
                    }
                    match extract_user_data_from_api_response(data, username, now) {
                        None => ProfileReply::Failed(parsing("Failed to extract user data")),
                        Some(m) => found_or_needs_exec(m, ostr_exec(get(data, "id")), cookies),
                    }
                },
            }
        },
    }
}

/// What an answer from the origin amounts to for a tier (see `response_reply`).
pub fn interpret_response(tier: Tier, status: u16, body: &Option<String>, username: &str, cookies: bool, now: i64) -> (r: ProfileReply)
    ensures
        r@ == response_reply(tier, status, sv(*body), username@, cookies, now),
{
    if status == 404 {
        return ProfileReply::Failed(ScraperError::ProfileNotFound);
    }
    if tier == Tier::WebApi && status == 429 {
        return ProfileReply::Failed(ScraperError::RateLimited);
    }
    if tier == Tier::MobileApi && (status == 401 || status == 403) {
        let text = match body {
            Some(b) => b.clone(),
            None => String::from_str("<failed to read body>"),
        };
        return ProfileReply::Failed(ScraperError::UnauthorizedAccess(text));
    }
    if status < 200 || status >= 300 {
        let msg = String::from_str("HTTP error status: ").concat(crate::text::decimal_string(status as u64).as_str());
        return ProfileReply::Failed(ScraperError::ParsingError(msg));
    }
    let b = match body {
        None => {
            return match tier {
                Tier::WebApi => ProfileReply::Failed(parsing("Could not extract data from web API")),
                Tier::MobileApi => ProfileReply::Failed(parsing("Could not extract data from mobile API")),
                Tier::Html => ProfileReply::Failed(ScraperError::NetworkError(String::from_str("Failed to read response body"))),
            };
        },
        Some(b) => b,
    };
    if b.as_str().is_empty() {
        return ProfileReply::Failed(parsing("Empty response body"));
    }
    match tier {
        Tier::WebApi => {
            let j = parse_json(b.as_str());
            web_api_reply(&j, username, cookies, now)
        },
        Tier::MobileApi => {
            let j = parse_json(b.as_str());
            mobile_api_reply(&j, username, cookies, now)
        },
        Tier::Html => {
            let text = b.as_str();
            let nbytes = text.as_bytes().len();
            if nbytes < 1000 {
                return ProfileReply::Failed(parsing("HTML response too short, likely blocked"));
            }
            match extract_from_additional_data_sources(b.as_str(), username, now) {
                Some(m) => ProfileReply::Found(m),
                None => ProfileReply::Failed(parsing("Could not extract data from HTML")),
            }
        },
    }
}

/// Posts of the supplementary page request: `data.user.edge_owner_to_timeline_media.edges`
/// read as feed items.
pub open spec fn page_posts(j: Option<JsonValue>) -> Option<Seq<PostModel>> {
    let edges = oarray(oget(oget(oget(oget(j, "data"@), "user"@), "edge_owner_to_timeline_media"@), "edges"@));
    if edges is Some { items_posts(edges->0) } else { None }
}

/// Posts of the alternate feed request: its `items`.
pub open spec fn feed_posts(j: Option<JsonValue>) -> Option<Seq<PostModel>> {
    let items = oarray(oget(j, "items"@));
    if items is Some { items_posts(items->0) } else { None }
}

/// Posts recovered by a supplementary request, when it answered with a readable document
/// that yields at least one post.
pub open spec fn supplementary_posts(kind: RequestKind, o: FetchOutcome) -> Option<Seq<PostModel>> {
    match o {
        FetchOutcome::Response { status, body: Some(b) } => if is_success(status) {
            if kind == RequestKind::PostsPage { page_posts(parsed_json(b@)) } else { feed_posts(parsed_json(b@)) }
        } else {
            None
        },
        _ => None,
    }
}

/// Posts of a supplementary page document (see `page_posts`).
pub fn posts_from_page(j: &Option<JsonValue>) -> (r: Option<Vec<InstagramPost>>)
    ensures
        opt_posts_seq_view(r) == page_posts(*j),
{
    let o = match j { Some(v) => Some(v), None => None };
    match oarray_exec(oget_exec(oget_exec(oget_exec(oget_exec(o, "data"), "user"), "edge_owner_to_timeline_media"), "edges")) {
        Some(edges) => extract_posts_from_items(edges),
        None => None,
    }
}

/// Posts of an alternate feed document (see `feed_posts`).
pub fn posts_from_feed(j: &Option<JsonValue>) -> (r: Option<Vec<InstagramPost>>)
    ensures
        opt_posts_seq_view(r) == feed_posts(*j),
{
    let o = match j { Some(v) => Some(v), None => None };
    match oarray_exec(oget_exec(o, "items")) {
        Some(items) => extract_posts_from_items(items),
        None => None,
    }
}

/// Posts recovered by a supplementary request (see `supplementary_posts`).
pub fn interpret_posts_outcome(kind: RequestKind, o: &FetchOutcome) -> (r: Option<Vec<InstagramPost>>)
    ensures
        opt_posts_seq_view(r) == supplementary_posts(kind, *o),
{
    match o {
        FetchOutcome::Response { status, body: Some(b) } => {
            if *status < 200 || *status >= 300 {
                return None;
            }
            let j = parse_json(b.as_str());
            if kind == RequestKind::PostsPage { posts_from_page(&j) } else { posts_from_feed(&j) }
        },
        _ => None,
    }
}

// ---------------------------------------------------------------------------
// The tier state machine
// ---------------------------------------------------------------------------

/// Where a session stands: waiting for a profile answer, or for one of the two
/// supplementary post requests.
#[derive(Debug, Clone, Copy, PartialEq, Eq, Structural)]
pub enum Stage {
    Profile,
    PostsPage,
    PostsFeed,
}

/// One scrape of one username.
#[derive(Debug)]
pub struct ScrapeSession {
    pub username: String,
    pub tier: Tier,
    pub stage: Stage,
    /// Proxy attempts left in the current tier.
    pub attempts_left: usize,
    /// Pool address used by the pending request.
    pub proxy: Option<String>,
    /// Profile waiting for its supplementary posts, and its upstream id.
    pub pending: Option<InstagramUser>,
    pub user_id: String,
    /// Why each finished tier failed, in order.
    pub tier_failures: Vec<ScraperError>,
}

/// The next thing to do: perform a request, or hand out the result.
#[derive(Debug)]
pub enum ScrapeStep {
    Fetch(FetchRequest),
    Done(Result<InstagramUser, ScraperError>),
}

/// The orchestrator: configuration and the proxy pool it drives.
#[derive(Debug)]
pub struct InstagramScraper {
    config: AppConfig,
    proxy_manager: Option<ProxyManager>,
}

pub open spec fn tier_url(tier: Tier, username: Seq<char>) -> Seq<char> {
    match tier {
        Tier::WebApi => "https://www.instagram.com/"@ + username + "/?__a=1&__d=dis"@,
        Tier::MobileApi => "https://i.instagram.com/api/v1/users/web_profile_info/?username="@ + username,
        Tier::Html => "https://www.instagram.com/"@ + username + "/"@,
    }
}

pub open spec fn posts_url(kind: RequestKind, user_id: Seq<char>) -> Seq<char> {
    if kind == RequestKind::PostsPage {
        "https://www.instagram.com/graphql/query/?query_hash=8c2a529969ee035a5063f2fc8602a0fd&variables=%7B%22id%22%3A%22"@
            + user_id + "%22%2C%22first%22%3A12%7D"@
    } else {
        "https://i.instagram.com/api/v1/feed/user/"@ + user_id + "/?count=12"@
    }
}

pub open spec fn tier_kind(tier: Tier) -> RequestKind {
    match tier {
        Tier::WebApi => RequestKind::WebApi,
        Tier::MobileApi => RequestKind::MobileApi,
        Tier::Html => RequestKind::Html,
    }
}

pub open spec fn tiers_after(tier: Tier) -> int {
    match tier {
        Tier::WebApi => 2,
        Tier::MobileApi => 1,
        Tier::Html => 0,
    }
}

pub open spec fn exhausted_failure(username: Seq<char>) -> Failure {
    Failure::Parsing("Could not retrieve profile data for "@ + username)
}

/// The endpoint with address `a` is available in `pm`.
pub open spec fn available_in(pm: ProxyManager, a: Seq<char>) -> bool {
    exists|i: int| 0 <= i < pm.endpoints().len() && (#[trigger] pm.endpoints()[i]).address@ == a
        && pm.endpoints()[i].status.available
}

/// What a tier fails with when no endpoint is available: every endpoint cooling down, or
/// none configured.
pub open spec fn empty_pool_failure(pm: ProxyManager) -> Failure {
    if pm.endpoints().len() > 0 { Failure::AllProxiesFailed } else { Failure::ProxyConfigurationMissing }
}

/// The profile with the recovered posts, now marked as limited to a first page.
pub open spec fn with_posts(u: UserModel, posts: Seq<PostModel>) -> UserModel {
    UserModel { posts: Some(posts), posts_limited: true, ..u }
}

fn concat3(a: &str, b: &str, c: &str) -> (r: String)
    ensures
        r@ == a@ + b@ + c@,
{
    String::from_str(a).concat(b).concat(c)
}

fn generic_failure(username: &str) -> (r: ScraperError)
    ensures
        r@ == exhausted_failure(username@),
{
    ScraperError::ParsingError(String::from_str("Could not retrieve profile data for ").concat(username))
}

/// An unavailable endpoint whose cooldown has not elapsed at `clock`.
pub open spec fn still_cooling(st: crate::proxy::ProxyStatus, clock: u64, cooldown: u64) -> bool {
    !st.available && st.last_failure is Some && !(clock >= st.last_failure->0 && clock - st.last_failure->0 >= cooldown)
}

/// Same endpoints and cooldown, and every endpoint still cooling down at `clock` unchanged.
pub open spec fn pool_kept(a: ProxyManager, b: ProxyManager, clock: u64) -> bool {
    &&& b.cooldown() == a.cooldown()
    &&& b.endpoints().len() == a.endpoints().len()
    &&& forall|i: int| 0 <= i < a.endpoints().len() ==> (#[trigger] b.endpoints()[i]).address == a.endpoints()[i].address
    &&& forall|i: int| 0 <= i < a.endpoints().len() && still_cooling(a.endpoints()[i].status, clock, a.cooldown())
        ==> (#[trigger] b.endpoints()[i]).status == a.endpoints()[i].status
    &&& forall|i: int| 0 <= i < a.endpoints().len() && a.endpoints()[i].status.available
        ==> (#[trigger] b.endpoints()[i]).status.available
}

/// Draws from the pool, at most `attempts` times, until an endpoint is available.
/// Returns it (if any) and the attempts left.
pub fn pick_endpoint(pm: &mut ProxyManager, attempts: usize, clock: u64) -> (r: (Option<String>, usize))
    requires
        old(pm).wf(),
    ensures
        final(pm).wf(),
        final(pm).cooldown() == old(pm).cooldown(),
        final(pm).endpoints().len() == old(pm).endpoints().len(),
        r.1 <= attempts,
        r.0 is Some ==> r.1 < attempts && available_in(*final(pm), r.0->0@),
        r.0 is None ==> r.1 == 0,
        attempts > 0 && any_available(old(pm).endpoints()) ==> r.0 is Some,
        forall|i: int| 0 <= i < old(pm).endpoints().len() ==> (#[trigger] final(pm).endpoints()[i]).address == old(pm).endpoints()[i].address,
        forall|i: int| 0 <= i < old(pm).endpoints().len() && still_cooling(old(pm).endpoints()[i].status, clock, old(pm).cooldown())
            ==> (#[trigger] final(pm).endpoints()[i]).status == old(pm).endpoints()[i].status,
        forall|i: int| 0 <= i < old(pm).endpoints().len() && old(pm).endpoints()[i].status.available
            ==> (#[trigger] final(pm).endpoints()[i]).status.available,
{
    let mut left = attempts;
    let mut picked: Option<String> = None;
    while left > 0 && picked.is_none()
        invariant
            pm.wf(),
            pm.cooldown() == old(pm).cooldown(),
            pm.endpoints().len() == old(pm).endpoints().len(),
            left <= attempts,
            picked is Some ==> left < attempts && available_in(*pm, picked->0@),
            left == attempts ==> *pm == *old(pm) && picked is None,
            attempts > 0 && any_available(old(pm).endpoints()) && left < attempts ==> picked is Some,
            forall|i: int| 0 <= i < old(pm).endpoints().len() ==> (#[trigger] pm.endpoints()[i]).address == old(pm).endpoints()[i].address,
            forall|i: int| 0 <= i < old(pm).endpoints().len() && still_cooling(old(pm).endpoints()[i].status, clock, old(pm).cooldown())
                ==> (#[trigger] pm.endpoints()[i]).status == old(pm).endpoints()[i].status,
            forall|i: int| 0 <= i < old(pm).endpoints().len() && old(pm).endpoints()[i].status.available
                ==> (#[trigger] pm.endpoints()[i]).status.available,
        decreases left,
    {
        let ghost first = left == attempts;
        left = left - 1;
        picked = pm.get_random_proxy(clock);
        proof {
            if first && any_available(old(pm).endpoints()) {
                let k = choose|k: int| 0 <= k < old(pm).endpoints().len() && (#[trigger] old(pm).endpoints()[k]).status.available;
                assert(pm.endpoints()[k].status.available);
            }
        }
    }
    (picked, left)
}

impl InstagramScraper {
    pub fn new(config: AppConfig, proxy_manager: ProxyManager) -> (r: Self)
        requires
            proxy_manager.wf(),
        ensures
            r.pool() == Some(proxy_manager),
            r.wf(),
    {
        InstagramScraper { config, proxy_manager: Some(proxy_manager) }
    }

    /// An orchestrator that sends every request directly.
    pub fn without_proxies(config: AppConfig) -> (r: Self)
        ensures
            r.pool() is None,
            r.wf(),
    {
        InstagramScraper { config, proxy_manager: None }
    }

    pub closed spec fn pool(&self) -> Option<ProxyManager> {
        self.proxy_manager
    }

    pub closed spec fn cookies(&self) -> bool {
        self.config.instagram_cookies is Some
    }

    pub open spec fn wf(&self) -> bool {
        self.pool() is Some ==> self.pool()->0.wf()
    }

    /// The proxy pool, when one is configured.
    pub fn proxy_pool(&self) -> (r: &Option<ProxyManager>)
        ensures
            *r == self.pool(),
    {
        &self.proxy_manager
    }

    pub fn config(&self) -> &AppConfig {
        &self.config
    }

    fn request(&self, kind: RequestKind, url: String, proxy: Option<String>) -> (r: FetchRequest)
        requires
            self.wf(),
        ensures
            r.kind == kind,
            r.url == url,
            r.proxy == proxy,
            r.send_cookies == self.cookies(),
            proxy is None ==> r.proxy_url is None,
            proxy is Some ==> r.proxy_url is Some,
    {
        let proxy_url = match &proxy {
            Some(a) => match &self.proxy_manager {
                Some(pm) => Some(pm.normalize_proxy_url(a.as_str())),
                None => Some(a.clone()),
            },
            None => None,
        };
        FetchRequest { kind, url, proxy, proxy_url, send_cookies: self.config.instagram_cookies.is_some() }
    }

    fn tier_request(&self, tier: Tier, username: &str, proxy: Option<String>) -> (r: FetchRequest)
        requires
            self.wf(),
        ensures
            r.kind == tier_kind(tier),
            r.url@ == tier_url(tier, username@),
            r.proxy == proxy,
            r.send_cookies == self.cookies(),
            proxy is None ==> r.proxy_url is None,
            proxy is Some ==> r.proxy_url is Some,
    {
        match tier {
            Tier::WebApi => self.request(RequestKind::WebApi, concat3("https://www.instagram.com/", username, "/?__a=1&__d=dis"), proxy),
            Tier::MobileApi => self.request(RequestKind::MobileApi, String::from_str("https://i.instagram.com/api/v1/users/web_profile_info/?username=").concat(username), proxy),
            Tier::Html => self.request(RequestKind::Html, concat3("https://www.instagram.com/", username, "/"), proxy),
        }
    }

    fn posts_request(&self, kind: RequestKind, user_id: &str, proxy: Option<String>) -> (r: FetchRequest)
        requires
            self.wf(),
        ensures
            r.kind == kind,
            r.url@ == posts_url(kind, user_id@),
            r.proxy == proxy,
    {
        if kind == RequestKind::PostsPage {
            self.request(kind, concat3("https://www.instagram.com/graphql/query/?query_hash=8c2a529969ee035a5063f2fc8602a0fd&variables=%7B%22id%22%3A%22", user_id, "%22%2C%22first%22%3A12%7D"), proxy)
        } else {
            self.request(kind, concat3("https://i.instagram.com/api/v1/feed/user/", user_id, "/?count=12"), proxy)
        }
    }

    /// Moves on within the current tier, or to the next tiers, starting from `failure`
    /// when the current tier has just failed. Ends with a request through an available
    /// endpoint (or a direct one when no pool is configured), or with the generic failure
    /// once every tier has failed.
    fn proceed(&mut self, s: &mut ScrapeSession, clock: u64, failure: Option<ScraperError>) -> (r: ScrapeStep)
        requires
            old(self).wf(),
            old(self).pool() is None ==> failure is Some,
            old(self).pool() is None ==> old(s).proxy is None,
        ensures
            final(self).wf(),
            final(self).pool() is None ==> final(s).proxy is None,
            old(self).pool() is Some ==> pool_kept(old(self).pool()->0, final(self).pool()->0, clock),
            final(self).cookies() == old(self).cookies(),
            final(self).pool() is Some == old(self).pool() is Some,
            final(s).username == old(s).username,
            final(s).stage == Stage::Profile,
            tiers_after(final(s).tier) <= tiers_after(old(s).tier),
            final(s).tier_failures@.len() >= old(s).tier_failures@.len(),
            forall|k: int| 0 <= k < old(s).tier_failures@.len() ==> (#[trigger] final(s).tier_failures@[k]) == old(s).tier_failures@[k],
            failure is None ==> (final(s).tier == old(s).tier && final(s).attempts_left < old(s).attempts_left)
                || final(s).tier_failures@.len() > old(s).tier_failures@.len(),
            failure is None && final(s).tier_failures@.len() > old(s).tier_failures@.len()
                ==> final(s).tier_failures@[old(s).tier_failures@.len() as int]@ == Failure::AllProxiesFailed,
            failure is Some ==> final(s).tier_failures@.len() > old(s).tier_failures@.len()
                && final(s).tier_failures@[old(s).tier_failures@.len() as int] == failure->0,
            r is Fetch ==> final(s).tier_failures@.len() - old(s).tier_failures@.len()
                == tiers_after(old(s).tier) - tiers_after(final(s).tier),
            r is Done ==> final(s).tier_failures@.len() - old(s).tier_failures@.len() == tiers_after(old(s).tier) + 1,
            old(self).pool() is None && old(s).tier != Tier::Html ==> r is Fetch
                && tiers_after(final(s).tier) == tiers_after(old(s).tier) - 1,
            failure is None && old(self).pool() is Some && old(s).attempts_left > 0
                && any_available(old(self).pool()->0.endpoints()) ==> r is Fetch && final(s).tier == old(s).tier,
            failure is Some && old(self).pool() is Some && count_available(old(self).pool()->0.endpoints()) == 0 ==> {
                &&& r is Done
                &&& final(self).pool() == old(self).pool()
                &&& forall|k: int| old(s).tier_failures@.len() < k < final(s).tier_failures@.len()
                    ==> (#[trigger] final(s).tier_failures@[k])@ == empty_pool_failure(old(self).pool()->0)
            },
            match r {
                ScrapeStep::Fetch(req) => {
                    &&& req.kind == tier_kind(final(s).tier)
                    &&& req.url@ == tier_url(final(s).tier, final(s).username@)
                    &&& req.proxy == final(s).proxy
                    &&& req.send_cookies == final(self).cookies()
                    &&& (final(self).pool() is None <==> req.proxy is None)
                    &&& (req.proxy is Some ==> available_in(final(self).pool()->0, req.proxy->0@))
                },
                ScrapeStep::Done(res) => {
                    &&& res is Err
                    &&& res->Err_0@ == exhausted_failure(final(s).username@)
                    &&& final(s).tier == Tier::Html
                },
            },
    {
        let mut pending_failure = failure;
        s.stage = Stage::Profile;
        let ghost start_len = s.tier_failures@.len();
        let ghost first = pending_failure;
        let ghost start_attempts = s.attempts_left;
        let ghost start_tier = s.tier;
        loop
            invariant
                self.wf(),
                self.cookies() == old(self).cookies(),
                self.pool() is Some == old(self).pool() is Some,
                self.pool() is None ==> pending_failure is Some,
                self.pool() is None ==> s.proxy is None,
                old(self).pool() is Some ==> self.pool() is Some && pool_kept(old(self).pool()->0, self.pool()->0, clock),
                s.username == old(s).username,
                s.stage == Stage::Profile,
                start_len == old(s).tier_failures@.len(),
                start_tier == old(s).tier,
                first == failure,
                s.tier_failures@.len() == start_len && first is Some ==> pending_failure == first,
                s.tier_failures@.len() == start_len && first is None && pending_failure is Some ==> pending_failure->0@ == Failure::AllProxiesFailed,
                tiers_after(s.tier) <= tiers_after(old(s).tier),
                s.tier_failures@.len() >= start_len,
                forall|k: int| 0 <= k < start_len ==> (#[trigger] s.tier_failures@[k]) == old(s).tier_failures@[k],
                s.tier_failures@.len() == start_len ==> s.tier == start_tier && s.attempts_left <= start_attempts,
                s.tier_failures@.len() > start_len && first is Some ==> s.tier_failures@[start_len as int] == first->0,
                s.tier_failures@.len() > start_len && first is None ==> s.tier_failures@[start_len as int]@ == Failure::AllProxiesFailed,
                start_attempts == old(s).attempts_left,
                s.tier_failures@.len() - start_len == tiers_after(start_tier) - tiers_after(s.tier),
                self.pool() is None ==> s.tier == start_tier && s.tier_failures@.len() == start_len,
                first is None && old(self).pool() is Some && start_attempts > 0 && any_available(old(self).pool()->0.endpoints())
                    ==> s.tier_failures@.len() == start_len && pending_failure is None,
                pending_failure is None && s.tier_failures@.len() == start_len ==> self.pool() == old(self).pool()
                    && s.attempts_left == start_attempts,
                first is Some && old(self).pool() is Some && count_available(old(self).pool()->0.endpoints()) == 0 ==> {
                    &&& self.pool() == old(self).pool()
                    &&& pending_failure is Some
                    &&& s.tier_failures@.len() > start_len ==> pending_failure->0@ == empty_pool_failure(old(self).pool()->0)
                    &&& forall|k: int| start_len < k < s.tier_failures@.len()
                        ==> (#[trigger] s.tier_failures@[k])@ == empty_pool_failure(old(self).pool()->0)
                },
            decreases 2 * tiers_after(s.tier) + if pending_failure is None { 1int } else { 0int },
        {
            if let Some(e) = pending_failure {
                s.tier_failures.push(e);
                let next = match s.tier {
                    Tier::WebApi => Tier::MobileApi,
                    Tier::MobileApi => Tier::Html,
                    Tier::Html => {
                        return ScrapeStep::Done(Err(generic_failure(s.username.as_str())));
                    },
                };
                s.tier = next;
                pending_failure = None;
                s.proxy = None;
                match &self.proxy_manager {
                    None => {
                        return ScrapeStep::Fetch(self.tier_request(s.tier, s.username.as_str(), None));
                    },
                    Some(pm) => {
                        let (available, total) = pm.get_proxy_count();
                        if available == 0 {
                            pending_failure = Some(if total > 0 { ScraperError::AllProxiesFailed } else { ScraperError::ProxyConfigurationMissing });
                            continue;
                        }
                        s.attempts_left = available;
                    },
                }
            }
            let picked = match &mut self.proxy_manager {
                None => None,
                Some(pm) => {
                    let (picked, left) = pick_endpoint(pm, s.attempts_left, clock);
                    s.attempts_left = left;
                    picked
                },
            };
            match picked {
                Some(a) => {
                    s.proxy = Some(a);
                    let pa = s.proxy.clone();
                    return ScrapeStep::Fetch(self.tier_request(s.tier, s.username.as_str(), pa));
                },
                None => {
                    pending_failure = Some(ScraperError::AllProxiesFailed);
                },
            }
        }
    }
}

pub open spec fn session_ok(s: ScrapeSession) -> bool {
    s.stage != Stage::Profile ==> s.pending is Some
}

pub open spec fn stage_kind(st: Stage) -> RequestKind {
    if st == Stage::PostsPage { RequestKind::PostsPage } else { RequestKind::PostsFeed }
}

impl InstagramScraper {
    /// Starts a scrape of `username` with the first tier.
    pub fn begin(&mut self, username: &str, clock: u64) -> (r: (ScrapeSession, ScrapeStep))
        requires
            old(self).wf(),
        ensures
            final(self).wf(),
            final(self).pool() is Some == old(self).pool() is Some,
            r.0.username@ == username@,
            session_ok(r.0),
            r.0.stage == Stage::Profile,
            old(self).pool() is Some ==> pool_kept(old(self).pool()->0, final(self).pool()->0, clock),
            old(self).pool() is None || count_available(old(self).pool()->0.endpoints()) > 0
                ==> r.1 is Fetch && r.0.tier == Tier::WebApi && r.0.tier_failures@.len() == 0,
            old(self).pool() is Some && count_available(old(self).pool()->0.endpoints()) > 0
                ==> r.0.attempts_left < count_available(old(self).pool()->0.endpoints()),
            old(self).pool() is Some && count_available(old(self).pool()->0.endpoints()) == 0 ==> {
                &&& r.1 is Done
                &&& final(self).pool() == old(self).pool()
                &&& r.0.tier_failures@.len() == 3
                &&& forall|k: int| 0 <= k < 3 ==> (#[trigger] r.0.tier_failures@[k])@ == empty_pool_failure(old(self).pool()->0)
            },
            r.1 is Done ==> r.0.tier_failures@.len() == 3,
            match r.1 {
                ScrapeStep::Fetch(req) => {
                    &&& req.kind == tier_kind(r.0.tier)
                    &&& req.url@ == tier_url(r.0.tier, username@)
                    &&& req.proxy == r.0.proxy
                    &&& (final(self).pool() is None <==> req.proxy is None)
                    &&& (final(self).pool() is None ==> r.0.tier == Tier::WebApi)
                    &&& (req.proxy is Some ==> available_in(final(self).pool()->0, req.proxy->0@))
                },
                ScrapeStep::Done(res) => res is Err && res->Err_0@ == exhausted_failure(username@),
            },
    {
        let mut s = ScrapeSession {
            username: String::from_str(username),
            tier: Tier::WebApi,
            stage: Stage::Profile,
            attempts_left: 0,
            proxy: None,
            pending: None,
            user_id: String::new(),
            tier_failures: Vec::new(),
        };
        let step = match &self.proxy_manager {
            None => ScrapeStep::Fetch(self.tier_request(Tier::WebApi, username, None)),
            Some(pm) => {
                let (available, total) = pm.get_proxy_count();
                if available == 0 {
                    let e = if total > 0 { ScraperError::AllProxiesFailed } else { ScraperError::ProxyConfigurationMissing };
                    self.proceed(&mut s, clock, Some(e))
                } else {
                    proof {
                        lemma_positive_count_has_available(pm.endpoints());
                    }
                    s.attempts_left = available;
                    self.proceed(&mut s, clock, None)
                }
            },
        };
        proof {
            if step is Done {
                assert(s.tier == Tier::Html);
            }
        }
        (s, step)
    }

    /// Takes the outcome of the request that the session is waiting for and returns the
    /// next step.
    ///
    /// Only a transport failure through a proxy marks that endpoint unavailable. A content
    /// answer (not found, private, rate limited, unauthorized, unreadable) leaves the
    /// endpoint as it was, and the tier still moves on to its next endpoint rather than
    /// ending; once the tier's endpoints are used up it fails with `AllProxiesFailed`.
    pub fn advance(&mut self, s: &mut ScrapeSession, outcome: FetchOutcome, clock: u64, now: i64) -> (r: ScrapeStep)
        requires
            old(self).wf(),
            session_ok(*old(s)),
            old(self).pool() is None ==> old(s).proxy is None,
        ensures
            final(self).wf(),
            final(self).pool() is Some == old(self).pool() is Some,
            session_ok(*final(s)),
            final(s).username == old(s).username,
            final(self).pool() is None ==> final(s).proxy is None,
            forall|k: int| 0 <= k < old(s).tier_failures@.len() ==> (#[trigger] final(s).tier_failures@[k]) == old(s).tier_failures@[k],
            r is Fetch && final(s).stage == Stage::Profile ==> (r->Fetch_0.proxy is Some ==> available_in(final(self).pool()->0, r->Fetch_0.proxy->0@)),
            r is Fetch ==> r->Fetch_0.proxy == final(s).proxy,
            r is Done && r->Done_0 is Err ==> r->Done_0->Err_0@ == exhausted_failure(old(s).username@),
            old(s).stage == Stage::Profile && outcome_reply(old(s).tier, outcome, old(s).proxy is Some, old(s).username@, old(self).cookies(), now) is Found
                ==> r is Done && r->Done_0 is Ok && r->Done_0->Ok_0@ == outcome_reply(old(s).tier, outcome, old(s).proxy is Some, old(s).username@, old(self).cookies(), now)->Found_0,
            old(s).stage == Stage::Profile && outcome_reply(old(s).tier, outcome, old(s).proxy is Some, old(s).username@, old(self).cookies(), now) is NeedsPosts
                ==> r is Fetch && r->Fetch_0.kind == RequestKind::PostsPage
                    && r->Fetch_0.url@ == posts_url(RequestKind::PostsPage, outcome_reply(old(s).tier, outcome, old(s).proxy is Some, old(s).username@, old(self).cookies(), now)->NeedsPosts_1)
                    && r->Fetch_0.proxy == old(s).proxy
                    && final(s).pending->0@ == outcome_reply(old(s).tier, outcome, old(s).proxy is Some, old(s).username@, old(self).cookies(), now)->NeedsPosts_0,
            old(s).stage == Stage::Profile && old(s).proxy is None && outcome_reply(old(s).tier, outcome, false, old(s).username@, old(self).cookies(), now) is Failed
                ==> final(s).tier_failures@.len() > old(s).tier_failures@.len()
                    && final(s).tier_failures@[old(s).tier_failures@.len() as int]@ == outcome_reply(old(s).tier, outcome, false, old(s).username@, old(self).cookies(), now)->Failed_0,
            old(s).stage == Stage::Profile && old(s).proxy is Some && outcome_reply(old(s).tier, outcome, true, old(s).username@, old(self).cookies(), now) is Failed
                ==> (final(s).tier == old(s).tier && final(s).attempts_left < old(s).attempts_left)
                    || (final(s).tier_failures@.len() > old(s).tier_failures@.len()
                        && final(s).tier_failures@[old(s).tier_failures@.len() as int]@ == Failure::AllProxiesFailed),
            old(s).stage == Stage::Profile && old(s).proxy is Some && outcome is Transport && old(self).pool() is Some
                && old(self).pool()->0.cooldown() > 0 ==> forall|i: int|
                    0 <= i < final(self).pool()->0.endpoints().len()
                    && (#[trigger] final(self).pool()->0.endpoints()[i]).address@ == old(s).proxy->0@
                    ==> !final(self).pool()->0.endpoints()[i].status.available,
            old(self).pool() is Some ==> {
                let a = old(self).pool()->0;
                let b = final(self).pool()->0;
                &&& b.cooldown() == a.cooldown()
                &&& b.endpoints().len() == a.endpoints().len()
                &&& forall|i: int| 0 <= i < a.endpoints().len() ==> (#[trigger] b.endpoints()[i]).address == a.endpoints()[i].address
                &&& forall|i: int| 0 <= i < a.endpoints().len() && still_cooling(a.endpoints()[i].status, clock, a.cooldown())
                    && !(old(s).stage == Stage::Profile && outcome is Transport && old(s).proxy is Some
                        && a.endpoints()[i].address@ == old(s).proxy->0@)
                    ==> (#[trigger] b.endpoints()[i]).status == a.endpoints()[i].status
                &&& forall|i: int| 0 <= i < a.endpoints().len() && a.endpoints()[i].status.available
                    && !(old(s).stage == Stage::Profile && outcome is Transport && old(s).proxy is Some
                        && a.endpoints()[i].address@ == old(s).proxy->0@)
                    ==> (#[trigger] b.endpoints()[i]).status.available
            },
            old(s).stage == Stage::Profile && old(self).pool() is None
                && outcome_reply(old(s).tier, outcome, false, old(s).username@, old(self).cookies(), now) is Failed ==> {
                &&& old(s).tier != Tier::Html ==> r is Fetch && tiers_after(final(s).tier) == tiers_after(old(s).tier) - 1
                &&& old(s).tier == Tier::Html ==> r is Done && r->Done_0 is Err
            },
            old(s).stage == Stage::Profile
                && outcome_reply(old(s).tier, outcome, old(s).proxy is Some, old(s).username@, old(self).cookies(), now) is Failed ==> {
                &&& r is Fetch ==> final(s).tier_failures@.len() - old(s).tier_failures@.len()
                    == tiers_after(old(s).tier) - tiers_after(final(s).tier)
                &&& r is Done ==> final(s).tier_failures@.len() - old(s).tier_failures@.len() == tiers_after(old(s).tier) + 1
            },
            old(s).stage != Stage::Profile ==> ({
                let found = supplementary_posts(stage_kind(old(s).stage), outcome);
                &&& found is Some ==> r is Done && r->Done_0 is Ok
                    && r->Done_0->Ok_0@ == with_posts(old(s).pending->0@, found->0)
                &&& found is None && old(s).stage == Stage::PostsPage ==> r is Fetch
                    && r->Fetch_0.kind == RequestKind::PostsFeed
                    && r->Fetch_0.url@ == posts_url(RequestKind::PostsFeed, old(s).user_id@)
                &&& found is None && old(s).stage == Stage::PostsFeed ==> r is Done && r->Done_0 is Ok
                    && r->Done_0->Ok_0@ == old(s).pending->0@
            }),
    {
        if s.stage != Stage::Profile {
            let kind = if s.stage == Stage::PostsPage { RequestKind::PostsPage } else { RequestKind::PostsFeed };
            let found = interpret_posts_outcome(kind, &outcome);
            match found {
                Some(p) => {
                    let mut u = match s.pending.take() {
                        Some(u) => u,
                        None => {
                            return ScrapeStep::Done(Err(generic_failure(s.username.as_str())));
                        },
                    };
                    u.posts = Some(p);
                    u.posts_limited = true;
                    s.stage = Stage::Profile;
                    return ScrapeStep::Done(Ok(u));
                },
                None => {
                    if s.stage == Stage::PostsPage {
                        s.stage = Stage::PostsFeed;
                        let pa = s.proxy.clone();
                        return ScrapeStep::Fetch(self.posts_request(RequestKind::PostsFeed, s.user_id.as_str(), pa));
                    }
                    let u = match s.pending.take() {
                        Some(u) => u,
                        None => {
                            return ScrapeStep::Done(Err(generic_failure(s.username.as_str())));
                        },
                    };
                    s.stage = Stage::Profile;
                    return ScrapeStep::Done(Ok(u));
                },
            }
        }
        let proxied = s.proxy.is_some();
        let cookies = self.config.instagram_cookies.is_some();
        let reply = match &outcome {
            FetchOutcome::Transport(m) => ProfileReply::Failed(if proxied {
                ScraperError::ProxyError(m.clone())
            } else {
                ScraperError::NetworkError(m.clone())
            }),
            FetchOutcome::Response { status, body } => interpret_response(s.tier, *status, body, s.username.as_str(), cookies, now),
        };
        match reply {
            ProfileReply::Found(u) => ScrapeStep::Done(Ok(u)),
            ProfileReply::NeedsPosts(u, id) => {
                s.pending = Some(u);
                s.stage = Stage::PostsPage;
                let req = self.posts_request(RequestKind::PostsPage, id.as_str(), s.proxy.clone());
                s.user_id = id;
                ScrapeStep::Fetch(req)
            },
            ProfileReply::Failed(e) => {
                match &s.proxy {
                    Some(a) => {
                        if let ScraperError::ProxyError(_) = &e {
                            if let Some(pm) = &mut self.proxy_manager {
                                pm.mark_proxy_unavailable(a.as_str(), clock);
                            }
                        }
                        if self.proxy_manager.is_some() {
                            self.proceed(s, clock, None)
                        } else {
                            self.proceed(s, clock, Some(e))
                        }
                    },
                    None => self.proceed(s, clock, Some(e)),
                }
            },
        }
    }
}

} // verus!
