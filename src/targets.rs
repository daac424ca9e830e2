//! What a run is asked to ingest, how feed links resolve against the page
//! they were found on, and the names under which a run keeps its artifacts.

use crate::feed::{AtomEntry, AtomLink, RssItem};
use crate::models::{copy_text, Source};
use crate::outline::WEBSITE_SOURCE_TYPE;
use crate::text::{
    ends_with, has_prefix, has_suffix, remove_all, slug_of, slugify, starts_with, truncate_bytes,
    byte_truncated, without,
};
use url::Url;
use vstd::prelude::*;

verus! {

/// What a run's single argument asks to ingest.
#[derive(Debug)]
pub enum Target {
    /// A page to fetch, with the feed it links to.
    Page(String),
    /// A feed url, fetched directly.
    Feed(String),
    /// A subscription list of feeds.
    Opml(String),
    /// Nothing that a run can ingest.
    Unknown,
}

/// A bare url names a page; "feed!" and "opml!" prefixes name a feed url and
/// a subscription list.
pub open spec fn is_target_of(arg: Seq<char>, t: Target) -> bool {
    if has_prefix(arg, "http"@) {
        t matches Target::Page(u) && u@ == arg
    } else if has_prefix(arg, "feed!"@) {
        t matches Target::Feed(u) && u@ == arg.subrange(5, arg.len() as int)
    } else if has_prefix(arg, "opml!"@) {
        t matches Target::Opml(u) && u@ == arg.subrange(5, arg.len() as int)
    } else {
        t is Unknown
    }
}

/// Classifies a run's argument by its prefix.
pub fn classify_target(arg: &str) -> (r: Target)
    ensures
        is_target_of(arg@, r),
{
    if starts_with(arg, "http") {
        Target::Page(String::from_str(arg))
    } else if starts_with(arg, "feed!") {
        proof {
            reveal_strlit("feed!");
        }
        Target::Feed(String::from_str(arg.substring_char(5, arg.unicode_len())))
    } else if starts_with(arg, "opml!") {
        proof {
            reveal_strlit("opml!");
        }
        Target::Opml(String::from_str(arg.substring_char(5, arg.unicode_len())))
    } else {
        Target::Unknown
    }
}

/// Whether a character has Unicode's Alphabetic property.
pub uninterp spec fn alphabetic(c: char) -> bool;

/// Relies on std's `char::is_alphabetic`.
#[verifier::external_body]
fn is_alphabetic(c: char) -> (r: bool)
    ensures
        r == alphabetic(c),
{
    c.is_alphabetic()
}

/// A feed link as found on the page at `url`: kept where it is absolute,
/// appended to the page url where it starts with '/', joined to it by '/'
/// where it starts with a letter, and kept as it is otherwise.
pub open spec fn resolved_feed_url(url: Seq<char>, link: Seq<char>) -> Seq<char> {
    if has_prefix(link, "http"@) {
        link
    } else if link.len() > 0 && link[0] == '/' {
        url + link
    } else if link.len() > 0 && alphabetic(link[0]) {
        url + seq!['/'] + link
    } else {
        link
    }
}

/// Resolves a feed link found on the page at `url`.
pub fn get_feed_url(url: &str, orig_feed_url: String) -> (r: String)
    ensures
        r@ == resolved_feed_url(url@, orig_feed_url@),
{
    let link = orig_feed_url.as_str();
    if starts_with(link, "http") {
        return orig_feed_url;
    }
    if link.unicode_len() > 0 && link.get_char(0) == '/' {
        let mut r = String::from_str(url);
        r.append(link);
        r
    } else if link.unicode_len() > 0 && is_alphabetic(link.get_char(0)) {
        let mut r = String::from_str(url);
        r.append("/");
        r.append(link);
        proof {
            reveal_strlit("/");
        }
        assert(r@ =~= url@ + seq!['/'] + link@);
        r
    } else {
        orig_feed_url
    }
}

/// The scheme and host that the url crate reads in a text, or nothing where
/// it does not read a url.
pub uninterp spec fn url_parts(s: Seq<char>) -> Option<(Seq<char>, Option<Seq<char>>)>;

/// Relies on url's `Url::parse`, `Url::scheme` and `Url::host_str`.
#[verifier::external_body]
fn read_url(s: &str) -> (r: Option<(String, Option<String>)>)
    ensures
        match r {
            Some((scheme, host)) => url_parts(s@) == Some(
                (
                    scheme@,
                    match host {
                        Some(h) => Some(h@),
                        None => None,
                    },
                ),
            ),
            None => url_parts(s@) is None,
        },
{
    match Url::parse(s) {
        Ok(u) => Some((u.scheme().to_string(), u.host_str().map(|h| h.to_string()))),
        Err(_) => None,
    }
}

/// A url that parses, with a scheme and a host.
pub open spec fn is_valid_url(s: Seq<char>) -> bool {
    match url_parts(s) {
        Some((scheme, host)) => scheme.len() > 0 && host is Some,
        None => false,
    }
}

/// Whether `url` parses as a url with a scheme and a host.
pub fn validate_url(url: &str) -> (r: bool)
    ensures
        r == is_valid_url(url@),
{
    match read_url(url) {
        Some((scheme, host)) => scheme.as_str().unicode_len() > 0 && host.is_some(),
        None => false,
    }
}

/// A link that points at an HTML page: by its extension or its media type.
pub open spec fn is_html_link(l: AtomLink) -> bool {
    has_suffix(l.href@, ".html"@) || has_suffix(l.href@, ".htm"@) || (l.mime_type matches Some(
        m,
    ) && m@ == "text/html"@)
}

/// The first HTML link at index `i` or later.
pub open spec fn first_html_link(links: Seq<AtomLink>, i: int) -> Option<AtomLink>
    decreases links.len() - i,
{
    if i < 0 || i >= links.len() {
        None
    } else if is_html_link(links[i]) {
        Some(links[i])
    } else {
        first_html_link(links, i + 1)
    }
}

/// The url of an entry's content: its only link, or else its first HTML link.
pub open spec fn content_url(links: Seq<AtomLink>) -> Option<Seq<char>> {
    if links.len() == 1 {
        Some(links[0].href@)
    } else {
        match first_html_link(links, 0) {
            Some(l) => Some(l.href@),
            None => None,
        }
    }
}

fn is_html(l: &AtomLink) -> (r: bool)
    ensures
        r == is_html_link(*l),
{
    if ends_with(l.href.as_str(), ".html") || ends_with(l.href.as_str(), ".htm") {
        return true;
    }
    match &l.mime_type {
        Some(m) => m.eq(&String::from_str("text/html")),
        None => false,
    }
}

/// The url of an Atom entry's content, chosen among its links.
pub fn get_atom_content_url(links: &Vec<AtomLink>) -> (r: Option<String>)
    ensures
        match r {
            Some(u) => content_url(links@) == Some(u@),
            None => content_url(links@) is None,
        },
{
    if links.len() == 1 {
        return Some(links[0].href.clone());
    }
    let mut i: usize = 0;
    while i < links.len()
        invariant
            i <= links@.len(),
            links@.len() != 1,
            first_html_link(links@, 0) == first_html_link(links@, i as int),
        decreases links@.len() - i,
    {
        if is_html(&links[i]) {
            return Some(links[i].href.clone());
        }
        i = i + 1;
    }
    None
}

/// The longest file name that a run writes, in bytes.
pub const MAX_FILE_NAME: usize = 100;

/// A file name cut to its longest prefix that fits in the longest file name
/// that a run writes.
pub fn safe_filename(orig: &str) -> (r: String)
    ensures
        r@ == byte_truncated(orig@, MAX_FILE_NAME as nat),
{
    truncate_bytes(orig, MAX_FILE_NAME)
}

/// A url without its "https://", "http://" and "www." parts.
pub open spec fn simplified_url(url: Seq<char>) -> Seq<char> {
    without(without(without(url, "https://"@), "http://"@), "www."@)
}

fn simplify_url(url: &str) -> (r: String)
    ensures
        r@ == simplified_url(url@),
{
    let a = remove_all(url, "https://");
    let b = remove_all(a.as_str(), "http://");
    remove_all(b.as_str(), "www.")
}

/// The directory name of a feed's artifacts: the slug of its simplified url,
/// cut to the longest file name.
pub fn feed_dir_name(feed_url: &str) -> (r: String)
    ensures
        r@ == byte_truncated(slug_of(simplified_url(feed_url@)), MAX_FILE_NAME as nat),
{
    let simple = simplify_url(feed_url);
    let slug = slugify(simple.as_str());
    safe_filename(slug.as_str())
}

/// The directory of a run's artifacts, from the run's timestamp text and its
/// argument: "downloads/<stamp>_<slug of the simplified argument>".
pub fn run_dir_path(stamp: &str, target: &str) -> (r: String)
    ensures
        r@ == "downloads/"@ + stamp@ + "_"@ + slug_of(simplified_url(target@)),
{
    let simple = simplify_url(target);
    let slug = slugify(simple.as_str());
    let mut r = String::from_str("downloads/");
    r.append(stamp);
    r.append("_");
    r.append(slug.as_str());
    r
}

/// Where the content of an item is stored: the file named by its cut title
/// slug in the content directory.
pub fn content_file_path(content_dir: &str, title_slug: &str) -> (r: String)
    ensures
        r@ == content_dir@ + "/"@ + byte_truncated(title_slug@, MAX_FILE_NAME as nat) + ".html"@,
{
    let name = safe_filename(title_slug);
    let mut r = String::from_str(content_dir);
    r.append("/");
    r.append(name.as_str());
    r.append(".html");
    r
}

/// The title slug and content url of an RSS item; nothing for an untitled
/// item.
pub fn rss_content_target(item: &RssItem) -> (r: Option<(String, Option<String>)>)
    ensures
        match item.title {
            Some(t) => r matches Some((slug, link)) && slug@ == slug_of(t@) && link == item.link,
            None => r is None,
        },
{
    match &item.title {
        Some(t) => Some((slugify(t.as_str()), copy_text(&item.link))),
        None => None,
    }
}

/// The title slug and content url of an Atom entry.
pub fn atom_content_target(entry: &AtomEntry) -> (r: (String, Option<String>))
    ensures
        r.0@ == slug_of(entry.title@),
        match r.1 {
            Some(u) => content_url(entry.links@) == Some(u@),
            None => content_url(entry.links@) is None,
        },
{
    (slugify(entry.title.as_str()), get_atom_content_url(&entry.links))
}

/// The website source of a fetched page, named by its title.
pub fn webpage_to_source(title: String, url: String) -> (r: Source)
    ensures
        r == Source::with_identity_spec(r.id, r.create_timestamp, title, url, WEBSITE_SOURCE_TYPE),
{
    Source::new(title, url, WEBSITE_SOURCE_TYPE)
}

/// The message for a record of kind `thing` and key `id` that could not be
/// saved.
pub fn save_error(thing: &str, id: &str) -> (r: String)
    ensures
        r@ == "Error saving "@ + thing@ + ": "@ + id@,
{
    let mut r = String::from_str("Error saving ");
    r.append(thing);
    r.append(": ");
    r.append(id);
    r
}

} // verus!
