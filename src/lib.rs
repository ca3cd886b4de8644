//! A small service that fetches one hot post from a community of an
//! external content site and shows it as an HTML page.
//!
//! The library holds the logic: the two outbound requests it makes, the
//! choice of post from a listing, the page, the port configuration and the
//! decisions of the request handler. The program around it performs the
//! network calls.

mod post;
mod fetch;
mod render;
mod port;
mod handler;

pub use post::{AccessTokenResponse, Child, ChildData, FetchError, Listing, ListingData, Post};
pub use fetch::{
    access_token, listing_request, select_post, token_request, Auth, HttpMethod,
    OutboundRequest, LISTING_LIMIT, LISTING_URL, TOKEN_URL, USER_AGENT,
};
pub use port::{
    determine_port, digits_value, is_digit, is_port_text, parse_port, port_digits, ConfigError,
    PortSetting, DEFAULT_PORT,
};
pub use handler::{
    handle_request, is_root, on_listing, on_token, plain_reply, BodyKind, InboundMethod, Reply,
    Step, CONTENT_FAILURE_BODY, NOT_FOUND_BODY, TOKEN_FAILURE_BODY,
};
pub use render::{
    escaped, escaped_char, escaped_plain_text, is_plain_text, media_block,
    page_shows_plain_post, render_is_deterministic, render_root_template, root_page, LINK_MID,
    LINK_TAIL, MEDIA_CLOSE, MEDIA_MID, MEDIA_OPEN, PAGE_HEAD, PAGE_TAIL, SITE_BASE,
};
