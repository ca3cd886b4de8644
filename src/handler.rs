use vstd::prelude::*;
use crate::fetch::{access_token, select_post};
use crate::post::{AccessTokenResponse, FetchError, Listing};
use crate::render::{render_root_template, root_page};

verus! {

/// Body of the reply to a path that is not served.
pub const NOT_FOUND_BODY: &'static str = "not found";

/// Body of the reply when no token could be had.
pub const TOKEN_FAILURE_BODY: &'static str =
    "internal server error: failed to fetch reddit access token";

/// Body of the reply when no post could be had.
pub const CONTENT_FAILURE_BODY: &'static str =
    "internal server error: failed to fetch wholesome meme";

/// Method of an inbound request, as far as the handler tells them apart.
#[derive(Debug, Clone, Copy, PartialEq, Eq, Structural)]
pub enum InboundMethod {
    Get,
    /// Any method but `GET`.
    Other,
}

/// Kind of a reply's body.
#[derive(Debug, Clone, Copy, PartialEq, Eq, Structural)]
pub enum BodyKind {
    Html,
    Text,
}

/// A reply to an inbound request.
pub struct Reply {
    pub status: u16,
    pub kind: BodyKind,
    pub body: String,
    /// The failure behind a reply of status 500, for the server's log; it
    /// never reaches the client.
    pub cause: Option<FetchError>,
}

/// What the handler does next for one inbound request.
pub enum Step {
    /// Ask the token endpoint for a token.
    FetchToken,
    /// Ask the listing endpoint for posts, with this token.
    FetchContent(String),
    /// Send this reply; the request is done.
    Respond(Reply),
}

/// Whether `path` is the root path.
pub open spec fn is_root(path: Seq<char>) -> bool {
    path == seq!['/']
}

/// Whether `r` has the given status, kind and body and no cause.
pub open spec fn plain_reply(r: Reply, status: u16, kind: BodyKind, body: Seq<char>) -> bool {
    r.status == status && r.kind == kind && r.body@ == body && r.cause is None
}

fn text_reply(status: u16, body: &str) -> (r: Reply)
    ensures
        plain_reply(r, status, BodyKind::Text, body@),
{
    Reply { status, kind: BodyKind::Text, body: String::from_str(body), cause: None }
}

fn failure_reply(body: &str, cause: FetchError) -> (r: Reply)
    ensures
        r.status == 500,
        r.kind == BodyKind::Text,
        r.body@ == body@,
        r.cause == Some(cause),
{
    Reply { status: 500, kind: BodyKind::Text, body: String::from_str(body), cause: Some(cause) }
}

/// The first step for an inbound request: fetch a token for `GET /`,
/// refuse another method on `/` with 405, and any other path with 404.
pub fn handle_request(method: InboundMethod, path: &str) -> (r: Step)
    ensures
        is_root(path@) && method == InboundMethod::Get ==> r is FetchToken,
        is_root(path@) && method != InboundMethod::Get ==> (r matches Step::Respond(rep)
            && plain_reply(rep, 405, BodyKind::Text, Seq::empty())),
        !is_root(path@) ==> (r matches Step::Respond(rep)
            && plain_reply(rep, 404, BodyKind::Text, NOT_FOUND_BODY@)),
{
    let root = path.unicode_len() == 1 && (path.get_char(0) as u32) == ('/' as u32);
    assert(root ==> path@ =~= seq!['/']);
    assert(is_root(path@) ==> root);
    if !root {
        Step::Respond(text_reply(404, NOT_FOUND_BODY))
    } else {
        match method {
            InboundMethod::Get => Step::FetchToken,
            InboundMethod::Other => Step::Respond(
                Reply { status: 405, kind: BodyKind::Text, body: String::new(), cause: None },
            ),
        }
    }
}

/// The step after the token endpoint answered: fetch the content with the
/// token, or reply 500 where no token came.
pub fn on_token(answer: Result<AccessTokenResponse, FetchError>) -> (r: Step)
    ensures
        answer is Ok ==> (r matches Step::FetchContent(t)
            && t@ == answer->Ok_0.access_token@),
        answer is Err ==> (r matches Step::Respond(rep) && rep.status == 500
            && rep.kind == BodyKind::Text && rep.body@ == TOKEN_FAILURE_BODY@
            && rep.cause == Some(answer->Err_0)),
{
    match answer {
        Ok(rsp) => Step::FetchContent(access_token(rsp)),
        Err(e) => Step::Respond(failure_reply(TOKEN_FAILURE_BODY, e)),
    }
}

/// The reply after the listing endpoint answered: the page of the post the
/// listing yields, or 500 where the fetch failed or the listing was empty.
pub fn on_listing(answer: Result<Listing, FetchError>) -> (r: Reply)
    ensures
        answer is Ok && answer->Ok_0.data.children@.len() > 0 ==> plain_reply(
            r,
            200,
            BodyKind::Html,
            root_page(answer->Ok_0.data.children@.last().data),
        ),
        answer is Ok && answer->Ok_0.data.children@.len() == 0 ==> r.status == 500
            && r.kind == BodyKind::Text && r.body@ == CONTENT_FAILURE_BODY@
            && r.cause == Some(FetchError::EmptyResult),
        answer is Err ==> r.status == 500 && r.kind == BodyKind::Text
            && r.body@ == CONTENT_FAILURE_BODY@ && r.cause == Some(answer->Err_0),
{
    let post = match answer {
        Ok(listing) => select_post(listing),
        Err(e) => Err(e),
    };
    match post {
        Ok(p) => Reply {
            status: 200,
            kind: BodyKind::Html,
            body: render_root_template(&p),
            cause: None,
        },
        Err(e) => failure_reply(CONTENT_FAILURE_BODY, e),
    }
}

} // verus!
