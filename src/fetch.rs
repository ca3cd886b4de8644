use vstd::prelude::*;
use crate::post::{AccessTokenResponse, FetchError, Listing, Post};

verus! {

/// Endpoint that exchanges client credentials for a bearer token.
pub const TOKEN_URL: &'static str = "https://www.reddit.com/api/v1/access_token";

/// Endpoint of the listing of hot posts of the community shown.
pub const LISTING_URL: &'static str = "https://oauth.reddit.com/r/wholesomememes/hot.json";

/// The `User-Agent` sent with every outbound request; the site refuses an
/// empty or default one.
pub const USER_AGENT: &'static str = "reqwest";

/// How many posts are asked of the listing. The last of them is shown, so
/// that the single most popular post is not always the one surfaced.
pub const LISTING_LIMIT: &'static str = "2";

/// Method of an outbound request.
#[derive(Debug, Clone, Copy, PartialEq, Eq, Structural)]
pub enum HttpMethod {
    Get,
    Post,
}

/// How an outbound request authenticates.
pub enum Auth {
    /// HTTP Basic authentication with a user name and a password.
    Basic { user: String, password: String },
    /// A bearer token.
    Bearer(String),
}

/// An outbound HTTP request, described as plain values.
pub struct OutboundRequest {
    pub method: HttpMethod,
    pub url: String,
    /// Query parameters, in order.
    pub query: Vec<(String, String)>,
    /// Text fields of a multipart form body, in order; empty for no body.
    pub form: Vec<(String, String)>,
    pub auth: Auth,
    pub user_agent: String,
}

fn owned(s: &str) -> (r: String)
    ensures
        r@ == s@,
{
    s.to_string()
}

/// The client-credentials token request for the given client.
pub fn token_request(client_id: &str, client_secret: &str) -> (r: OutboundRequest)
    ensures
        r.method == HttpMethod::Post,
        r.url@ == TOKEN_URL@,
        r.query@.len() == 0,
        r.form@.len() == 1,
        r.form@[0].0@ == "grant_type"@,
        r.form@[0].1@ == "client_credentials"@,
        r.auth matches Auth::Basic { user, password }
            && user@ == client_id@ && password@ == client_secret@,
        r.user_agent@ == USER_AGENT@,
{
    let mut form: Vec<(String, String)> = Vec::new();
    form.push((owned("grant_type"), owned("client_credentials")));
    OutboundRequest {
        method: HttpMethod::Post,
        url: owned(TOKEN_URL),
        query: Vec::new(),
        form,
        auth: Auth::Basic { user: owned(client_id), password: owned(client_secret) },
        user_agent: owned(USER_AGENT),
    }
}

/// The token that a successful answer of the token endpoint carries.
pub fn access_token(rsp: AccessTokenResponse) -> (r: String)
    ensures
        r@ == rsp.access_token@,
{
    rsp.access_token
}

/// The listing request, authenticated with `token`.
pub fn listing_request(token: &str) -> (r: OutboundRequest)
    ensures
        r.method == HttpMethod::Get,
        r.url@ == LISTING_URL@,
        r.query@.len() == 1,
        r.query@[0].0@ == "limit"@,
        r.query@[0].1@ == LISTING_LIMIT@,
        r.form@.len() == 0,
        r.auth matches Auth::Bearer(t) && t@ == token@,
        r.user_agent@ == USER_AGENT@,
{
    let mut query: Vec<(String, String)> = Vec::new();
    query.push((owned("limit"), owned(LISTING_LIMIT)));
    OutboundRequest {
        method: HttpMethod::Get,
        url: owned(LISTING_URL),
        query,
        form: Vec::new(),
        auth: Auth::Bearer(owned(token)),
        user_agent: owned(USER_AGENT),
    }
}

/// The post a listing yields: the last of its entries, or `EmptyResult`
/// where it has none.
pub fn select_post(listing: Listing) -> (r: Result<Post, FetchError>)
    ensures
        listing.data.children@.len() == 0 <==> r == Err::<Post, FetchError>(FetchError::EmptyResult),
        listing.data.children@.len() > 0 ==> r == Ok::<Post, FetchError>(
            listing.data.children@.last().data),
{
    let mut children = listing.data.children;
    match children.pop() {
        Some(child) => Ok(child.data),
        None => Err(FetchError::EmptyResult),
    }
}

} // verus!
