use vstd::prelude::*;
use crate::post::Post;

verus! {

/// Base address of the content site; a permalink is appended to it.
pub const SITE_BASE: &'static str = "https://reddit.com";

/// The page up to the link to the post.
pub const PAGE_HEAD: &'static str = "<!DOCTYPE html><html><head><meta charset=\"UTF-8\"><meta name=\"viewport\" content=\"width=device-width\"><title>A wholesome meme</title><style>
html, body {
    margin: 0;
    padding: 0;
}
html {
    font-family: sans-serif;
}
body {
    margin: 0 15px;
}
p.title {
    font-size: larger;
    margin-bottom: 3em;
    display: flex;
    justify-content: center;
}
a.meme {
    display: flex;
    justify-content: center;
}
img.meme {
    max-width: 100%;
}
</style></head><body><main><p class=\"title\"><a href=\"";

/// Between the link target and the post's title.
pub const LINK_MID: &'static str = "\">";

/// After the post's title.
pub const LINK_TAIL: &'static str = "</a></p>";

/// Opens the media block, before the media link.
pub const MEDIA_OPEN: &'static str = "<a class=\"meme\" href=\"";

/// Between the media link and the image source.
pub const MEDIA_MID: &'static str = "\"><img class=\"meme\" src=\"";

/// Closes the media block.
pub const MEDIA_CLOSE: &'static str = "\" alt=\"The hottest wholesome meme on Reddit right now\"></a>";

/// The end of the page.
pub const PAGE_TAIL: &'static str = "</main></body></html>";

/// The markup that stands for one character of text.
pub open spec fn escaped_char(c: char) -> Seq<char> {
    if c == '&' {
        "&amp;"@
    } else if c == '"' {
        "&quot;"@
    } else if c == '<' {
        "&lt;"@
    } else if c == '>' {
        "&gt;"@
    } else {
        seq![c]
    }
}

/// Text escaped for use in HTML content and in quoted attribute values.
pub open spec fn escaped(s: Seq<char>) -> Seq<char>
    decreases s.len(),
{
    if s.len() == 0 {
        Seq::empty()
    } else {
        escaped(s.drop_last()) + escaped_char(s.last())
    }
}

/// The media block of the page: a link to the media holding its image, or
/// nothing where the post has no media link.
pub open spec fn media_block(url: Option<String>) -> Seq<char> {
    match url {
        Some(u) => MEDIA_OPEN@ + escaped(u@) + MEDIA_MID@ + escaped(u@) + MEDIA_CLOSE@,
        None => Seq::empty(),
    }
}

/// The page that shows `post`.
pub open spec fn root_page(post: Post) -> Seq<char> {
    PAGE_HEAD@ + escaped(SITE_BASE@ + post.permalink@) + LINK_MID@ + escaped(post.title@)
        + LINK_TAIL@ + media_block(post.url) + PAGE_TAIL@
}

/// Relies on horrorshow's `Template::into_string` on a `&str`: it writes
/// the text with `&`, `"`, `<` and `>` replaced by their entities and every
/// other character as it is, and records no error for a string.
#[verifier::external_body]
fn escape_html(s: &str) -> (r: String)
    ensures
        r@ == escaped(s@),
{
    match horrorshow::Template::into_string(s) {
        Ok(t) => t,
        Err(_) => String::new(),
    }
}

/// Renders the page that shows `post`: a link to the post on the site with
/// its title as text, then its image where it has a media link. A post
/// without a media link gets no image block, rather than a broken image.
pub fn render_root_template(post: &Post) -> (r: String)
    ensures
        r@ == root_page(*post),
{
    let mut out = String::from_str(PAGE_HEAD);
    let mut link = String::from_str(SITE_BASE);
    link.append(post.permalink.as_str());
    let link_text = escape_html(link.as_str());
    out.append(link_text.as_str());
    out.append(LINK_MID);
    let title = escape_html(post.title.as_str());
    out.append(title.as_str());
    out.append(LINK_TAIL);
    let ghost before_media = out@;
    match &post.url {
        Some(u) => {
            let media = escape_html(u.as_str());
            out.append(MEDIA_OPEN);
            out.append(media.as_str());
            out.append(MEDIA_MID);
            out.append(media.as_str());
            out.append(MEDIA_CLOSE);
        },
        None => {},
    }
    assert(out@ == before_media + media_block(post.url));
    out.append(PAGE_TAIL);
    out
}

/// Rendering is a function of the post alone: two posts with the same
/// fields give the same page, character for character.
pub proof fn render_is_deterministic(a: Post, b: Post)
    requires
        a.title@ == b.title@,
        a.permalink@ == b.permalink@,
        a.url is Some <==> b.url is Some,
        a.url is Some ==> a.url->Some_0@ == b.url->Some_0@,
    ensures
        root_page(a) == root_page(b),
{
}

/// Whether `s` holds none of the characters that HTML escaping replaces.
pub open spec fn is_plain_text(s: Seq<char>) -> bool {
    forall|i: int|
        0 <= i < s.len() ==> #[trigger] s[i] != '&' && s[i] != '"' && s[i] != '<' && s[i] != '>'
}

/// Plain text is its own escaped form.
pub proof fn escaped_plain_text(s: Seq<char>)
    requires
        is_plain_text(s),
    ensures
        escaped(s) == s,
    decreases s.len(),
{
    if s.len() > 0 {
        let init = s.drop_last();
        assert(is_plain_text(init)) by {
            assert forall|i: int| 0 <= i < init.len() implies #[trigger] init[i] != '&' && init[i]
                != '"' && init[i] != '<' && init[i] != '>' by {
                assert(init[i] == s[i]);
            }
        }
        escaped_plain_text(init);
        assert(s[s.len() - 1] == s.last());
        assert(init.push(s.last()) =~= s);
    }
}

/// A post whose title, permalink and media link hold no markup characters
/// appears in its page as it is: the link goes to the site's base address
/// followed by the permalink, its text is the title, and the image's source
/// is the media link.
pub proof fn page_shows_plain_post(post: Post)
    requires
        is_plain_text(post.title@),
        is_plain_text(post.permalink@),
        post.url is Some,
        is_plain_text(post.url->Some_0@),
    ensures
        root_page(post) == PAGE_HEAD@ + (SITE_BASE@ + post.permalink@) + LINK_MID@ + post.title@
            + LINK_TAIL@ + MEDIA_OPEN@ + post.url->Some_0@ + MEDIA_MID@ + post.url->Some_0@
            + MEDIA_CLOSE@ + PAGE_TAIL@,
{
    let link = SITE_BASE@ + post.permalink@;
    reveal_strlit("https://reddit.com");
    assert(is_plain_text(link)) by {
        assert forall|i: int| 0 <= i < link.len() implies #[trigger] link[i] != '&' && link[i]
            != '"' && link[i] != '<' && link[i] != '>' by {
            if i >= SITE_BASE@.len() {
                assert(link[i] == post.permalink@[i - SITE_BASE@.len()]);
            }
        }
    }
    escaped_plain_text(link);
    escaped_plain_text(post.title@);
    escaped_plain_text(post.url->Some_0@);
    let u = post.url->Some_0@;
    assert(media_block(post.url) == MEDIA_OPEN@ + u + MEDIA_MID@ + u + MEDIA_CLOSE@);
}

} // verus!
