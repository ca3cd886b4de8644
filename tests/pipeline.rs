use wholesome::{
    access_token, determine_port, handle_request, listing_request, on_listing, on_token,
    parse_port, render_root_template, select_post, token_request, AccessTokenResponse, Auth,
    BodyKind, Child, ChildData, ConfigError, FetchError, HttpMethod, InboundMethod, Listing,
    ListingData, PortSetting, Step, CONTENT_FAILURE_BODY, TOKEN_FAILURE_BODY,
};

fn post(title: &str, permalink: &str, url: Option<&str>) -> ChildData {
    ChildData {
        title: title.to_string(),
        permalink: permalink.to_string(),
        url: url.map(|u| u.to_string()),
    }
}

fn listing(posts: Vec<ChildData>) -> Listing {
    Listing { data: ListingData { children: posts.into_iter().map(|data| Child { data }).collect() } }
}

#[test]
fn token_request_uses_client_credentials() {
    let r = token_request("id", "secret");
    assert_eq!(r.method, HttpMethod::Post);
    assert_eq!(r.url, "https://www.reddit.com/api/v1/access_token");
    assert!(r.query.is_empty());
    assert_eq!(r.form, vec![("grant_type".to_string(), "client_credentials".to_string())]);
    match r.auth {
        Auth::Basic { user, password } => {
            assert_eq!(user, "id");
            assert_eq!(password, "secret");
        }
        Auth::Bearer(_) => panic!("expected basic authentication"),
    }
    assert_eq!(r.user_agent, "reqwest");
}

#[test]
fn listing_request_asks_for_two_posts() {
    let r = listing_request("tok");
    assert_eq!(r.method, HttpMethod::Get);
    assert_eq!(r.url, "https://oauth.reddit.com/r/wholesomememes/hot.json");
    assert_eq!(r.query, vec![("limit".to_string(), "2".to_string())]);
    assert!(r.form.is_empty());
    match r.auth {
        Auth::Bearer(t) => assert_eq!(t, "tok"),
        Auth::Basic { .. } => panic!("expected bearer authentication"),
    }
    assert_eq!(r.user_agent, "reqwest");
}

#[test]
fn token_answer_yields_its_token() {
    let rsp = AccessTokenResponse { access_token: "T".to_string() };
    assert_eq!(access_token(rsp), "T");
    match on_token(Ok(AccessTokenResponse { access_token: "T".to_string() })) {
        Step::FetchContent(t) => assert_eq!(t, "T"),
        _ => panic!("expected a content fetch"),
    }
}

#[test]
fn second_of_two_posts_is_selected() {
    let l = listing(vec![post("one", "/p/1", None), post("two", "/p/2", None)]);
    let p = select_post(l).unwrap();
    assert_eq!(p.permalink, "/p/2");
    assert_eq!(p.title, "two");
}

#[test]
fn empty_listing_is_an_empty_result() {
    assert!(matches!(select_post(listing(vec![])), Err(FetchError::EmptyResult)));
}

#[test]
fn page_shows_link_title_and_image() {
    let html = render_root_template(&post("Cute dog", "/r/x/comments/1", Some("https://img/1.jpg")));
    assert!(html.starts_with("<!DOCTYPE html>"));
    assert!(html.contains("href=\"https://reddit.com/r/x/comments/1\""));
    assert!(html.contains(">Cute dog</a>"));
    assert!(html.contains("<img class=\"meme\" src=\"https://img/1.jpg\""));
    assert!(html.ends_with("</main></body></html>"));
}

#[test]
fn rendering_twice_gives_the_same_bytes() {
    let p = post("Cute dog", "/r/x/comments/1", Some("https://img/1.jpg"));
    let q = post("Cute dog", "/r/x/comments/1", Some("https://img/1.jpg"));
    assert_eq!(render_root_template(&p).into_bytes(), render_root_template(&q).into_bytes());
}

#[test]
fn markup_in_fields_is_escaped() {
    let html = render_root_template(&post("Tom & \"Jerry\" <3", "/p/a&b", Some("https://i/x?a=1&b=2")));
    assert!(html.contains(">Tom &amp; &quot;Jerry&quot; &lt;3</a>"));
    assert!(html.contains("href=\"https://reddit.com/p/a&amp;b\""));
    assert!(html.contains("src=\"https://i/x?a=1&amp;b=2\""));
    assert!(!html.contains("Tom & "));
}

#[test]
fn post_without_media_has_no_image() {
    let html = render_root_template(&post("Cute dog", "/r/x/comments/1", None));
    assert!(html.contains(">Cute dog</a>"));
    assert!(!html.contains("<img"));
}

#[test]
fn get_root_fetches_a_token() {
    assert!(matches!(handle_request(InboundMethod::Get, "/"), Step::FetchToken));
}

#[test]
fn post_root_is_method_not_allowed() {
    match handle_request(InboundMethod::Other, "/") {
        Step::Respond(r) => {
            assert_eq!(r.status, 405);
            assert_eq!(r.body, "");
        }
        _ => panic!("expected a reply"),
    }
}

#[test]
fn other_path_is_not_found() {
    match handle_request(InboundMethod::Get, "/other") {
        Step::Respond(r) => {
            assert_eq!(r.status, 404);
            assert_eq!(r.body, "not found");
        }
        _ => panic!("expected a reply"),
    }
}

#[test]
fn failed_token_fetch_is_a_server_error() {
    match on_token(Err(FetchError::Protocol)) {
        Step::Respond(r) => {
            assert_eq!(r.status, 500);
            assert_eq!(r.body, TOKEN_FAILURE_BODY);
            assert!(r.body.contains("access token"));
            assert_eq!(r.cause, Some(FetchError::Protocol));
        }
        _ => panic!("expected a reply"),
    }
}

#[test]
fn empty_listing_is_a_server_error() {
    let r = on_listing(Ok(listing(vec![])));
    assert_eq!(r.status, 500);
    assert_eq!(r.body, CONTENT_FAILURE_BODY);
    assert!(r.body.contains("meme"));
    assert_eq!(r.cause, Some(FetchError::EmptyResult));
}

#[test]
fn failed_listing_fetch_is_a_server_error() {
    let r = on_listing(Err(FetchError::Network));
    assert_eq!(r.status, 500);
    assert_eq!(r.body, CONTENT_FAILURE_BODY);
    assert_eq!(r.cause, Some(FetchError::Network));
}

#[test]
fn listing_gives_a_page_of_the_selected_post() {
    let l = listing(vec![
        post("First", "/p/1", Some("https://img/1.jpg")),
        post("Second", "/p/2", Some("https://img/2.jpg")),
    ]);
    let r = on_listing(Ok(l));
    assert_eq!(r.status, 200);
    assert_eq!(r.kind, BodyKind::Html);
    assert!(r.body.contains("Second"));
    assert!(!r.body.contains("First"));
    assert_eq!(r.cause, None);
}

#[test]
fn error_messages() {
    assert_eq!(FetchError::Network.message(), "network error");
    assert_eq!(FetchError::Protocol.message(), "unexpected response");
    assert_eq!(FetchError::EmptyResult.message(), "no posts");
}

#[test]
fn port_texts() {
    assert_eq!(parse_port("3000"), Some(3000));
    assert_eq!(parse_port("+80"), Some(80));
    assert_eq!(parse_port("007"), Some(7));
    assert_eq!(parse_port("0"), Some(0));
    assert_eq!(parse_port("65535"), Some(65535));
    assert_eq!(parse_port("65536"), None);
    assert_eq!(parse_port("99999999999"), None);
    assert_eq!(parse_port(""), None);
    assert_eq!(parse_port("+"), None);
    assert_eq!(parse_port("-1"), None);
    assert_eq!(parse_port("80a"), None);
    assert_eq!(parse_port(" 80"), None);
}

#[test]
fn port_settings() {
    assert_eq!(determine_port(PortSetting::Unset), Ok(3000));
    assert_eq!(determine_port(PortSetting::NotUnicode), Err(ConfigError::NotUnicode));
    assert_eq!(determine_port(PortSetting::Value("8080".to_string())), Ok(8080));
    assert_eq!(determine_port(PortSetting::Value("http".to_string())), Err(ConfigError::InvalidPort));
}
