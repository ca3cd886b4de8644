use vstd::prelude::*;

verus! {

/// The fields of one post of a listing that the page shows.
pub struct ChildData {
    pub title: String,
    pub permalink: String,
    /// Direct link to the post's media, where the site gives one.
    pub url: Option<String>,
}

/// The post that a request shows.
pub type Post = ChildData;

/// One entry of a listing.
pub struct Child {
    pub data: ChildData,
}

/// The body of a listing.
pub struct ListingData {
    /// The entries, in the site's ranking order, most prominent first.
    pub children: Vec<Child>,
}

/// A listing as the content endpoint returns it.
pub struct Listing {
    pub data: ListingData,
}

/// The part of the token endpoint's answer that is used.
pub struct AccessTokenResponse {
    pub access_token: String,
}

/// Why fetching a token or a post failed.
#[derive(Debug, Clone, Copy, PartialEq, Eq, Structural)]
pub enum FetchError {
    /// The transport call itself failed (name resolution, connection, timeout).
    Network,
    /// The answer was not of the expected shape.
    Protocol,
    /// The listing held no post.
    EmptyResult,
}

impl FetchError {
    /// A short description of the error, for the server's log.
    pub fn message(&self) -> (r: &'static str)
        ensures
            *self == FetchError::Network ==> r@ == "network error"@,
            *self == FetchError::Protocol ==> r@ == "unexpected response"@,
            *self == FetchError::EmptyResult ==> r@ == "no posts"@,
    {
        proof {
            reveal_strlit("network error");
            reveal_strlit("unexpected response");
            reveal_strlit("no posts");
        }
        match self {
            FetchError::Network => "network error",
            FetchError::Protocol => "unexpected response",
            FetchError::EmptyResult => "no posts",
        }
    }
}

} // verus!
