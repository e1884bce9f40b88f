//! Absolute URLs, held as plain text.
//!
//! A [`PageUrl`] keeps the serialization of an absolute URL together with the
//! three components that decide where a page is cached: host, path and query.
//! Parsing and reference resolution are the `url` crate's; everything else is
//! computed here from the stored components.

use crate::text::chars_of;
use crate::text::string_of;
use vstd::prelude::*;

verus! {

/// An absolute URL and the components read from it.
#[derive(Debug)]
pub struct PageUrl {
    /// The URL in serialized form.
    pub href: String,
    /// The host, where the URL has one.
    pub host: Option<String>,
    /// The path; for a hierarchical URL it begins with `/`.
    pub path: String,
    /// The query, without its leading `?`, where the URL has one.
    pub query: Option<String>,
}

/// The mathematical value of a [`PageUrl`].
pub struct UrlView {
    pub href: Seq<char>,
    pub host: Option<Seq<char>>,
    pub path: Seq<char>,
    pub query: Option<Seq<char>>,
}

impl View for PageUrl {
    type V = UrlView;

    open spec fn view(&self) -> UrlView {
        UrlView {
            href: self.href@,
            host: self.host.deep_view(),
            path: self.path@,
            query: self.query.deep_view(),
        }
    }
}

impl DeepView for PageUrl {
    type V = UrlView;

    open spec fn deep_view(&self) -> UrlView {
        self@
    }
}

impl Clone for PageUrl {
    fn clone(&self) -> (r: Self)
        ensures
            r@ == self@,
    {
        PageUrl {
            href: self.href.clone(),
            host: clone_text(&self.host),
            path: self.path.clone(),
            query: clone_text(&self.query),
        }
    }
}

/// A copy of an optional string.
pub fn clone_text(value: &Option<String>) -> (r: Option<String>)
    ensures
        r.deep_view() == value.deep_view(),
{
    match value {
        Some(s) => Some(s.clone()),
        None => None,
    }
}

/// What `url::Url::parse` makes of `input`: the parsed URL, or `None` where
/// the input is not an absolute URL.
pub uninterp spec fn url_parsed(input: Seq<char>) -> Option<UrlView>;

/// What `url::Url::join` makes of `reference` against the URL that `base`
/// parses to: the resolved URL, or `None` where `base` is not an absolute URL
/// or the reference cannot be resolved against it.
pub uninterp spec fn url_joined(base: Seq<char>, reference: Seq<char>) -> Option<UrlView>;

/// Calls `url::Url::parse` and copies out the serialization, host, path and
/// query of the URL it returns. The result is a function of the input alone.
#[verifier::external_body]
fn parse_absolute(input: &str) -> (r: Option<PageUrl>)
    ensures
        r.deep_view() == url_parsed(input@),
{
    match url::Url::parse(input) {
        Ok(u) => Some(
            PageUrl {
                href: u.as_str().to_string(),
                host: u.host_str().map(|h| h.to_string()),
                path: u.path().to_string(),
                query: u.query().map(|q| q.to_string()),
            },
        ),
        Err(_) => None,
    }
}

/// Parses `base` with `url::Url::parse`, calls `url::Url::join` on it with
/// `reference`, and copies out the serialization, host, path and query of the
/// URL it returns. The result is a function of the two inputs alone.
#[verifier::external_body]
fn join_reference(base: &str, reference: &str) -> (r: Option<PageUrl>)
    ensures
        r.deep_view() == url_joined(base@, reference@),
{
    match url::Url::parse(base).and_then(|b| b.join(reference)) {
        Ok(u) => Some(
            PageUrl {
                href: u.as_str().to_string(),
                host: u.host_str().map(|h| h.to_string()),
                path: u.path().to_string(),
                query: u.query().map(|q| q.to_string()),
            },
        ),
        Err(_) => None,
    }
}

/// The position of the last `/` in `path`, or -1 where it holds none.
pub open spec fn last_slash(path: Seq<char>) -> int
    decreases path.len(),
{
    if path.len() == 0 {
        -1
    } else if path.last() == '/' {
        path.len() - 1
    } else {
        last_slash(path.drop_last())
    }
}

/// The last segment of a hierarchical path: the characters behind its last
/// `/`. A path that does not begin with `/` has no segments.
pub open spec fn last_segment(path: Seq<char>) -> Option<Seq<char>> {
    if path.len() > 0 && path[0] == '/' {
        Some(path.skip(last_slash(path) + 1))
    } else {
        None
    }
}

/// Behind the last `/` of a path stands no other: `last_slash` is a position
/// in the path or -1, and no character behind it is a `/`.
pub proof fn lemma_last_slash(path: Seq<char>)
    ensures
        -1 <= last_slash(path) < path.len(),
        last_slash(path) >= 0 ==> path[last_slash(path)] == '/',
        forall|i: int| last_slash(path) < i < path.len() ==> path[i] != '/',
    decreases path.len(),
{
    if path.len() > 0 && path.last() != '/' {
        lemma_last_slash(path.drop_last());
        assert forall|i: int| last_slash(path) < i < path.len() implies path[i] != '/' by {
            if i < path.len() - 1 {
                assert(path.drop_last()[i] == path[i]);
            }
        }
    }
}

/// The last segment of a path holds no `/`.
pub proof fn lemma_last_segment_has_no_slash(path: Seq<char>)
    ensures
        last_segment(path) matches Some(s) ==> forall|i: int| 0 <= i < s.len() ==> s[i] != '/',
{
    lemma_last_slash(path);
}

/// `last_slash` is unchanged by characters behind it that are no `/`.
proof fn lemma_last_slash_prefix(path: Seq<char>, end: int)
    requires
        0 <= end <= path.len(),
        forall|i: int| end <= i < path.len() ==> path[i] != '/',
    ensures
        last_slash(path) == last_slash(path.take(end)),
    decreases path.len() - end,
{
    if end < path.len() {
        assert(path.drop_last().take(end) == path.take(end));
        lemma_last_slash_prefix(path.drop_last(), end);
    } else {
        assert(path.take(end) == path);
    }
}

impl PageUrl {
    /// Parses an absolute URL.
    pub fn parse(input: &str) -> (r: Option<PageUrl>)
        ensures
            r.deep_view() == url_parsed(input@),
    {
        parse_absolute(input)
    }

    /// Resolves `reference` against this URL.
    pub fn join(&self, reference: &str) -> (r: Option<PageUrl>)
        ensures
            r.deep_view() == url_joined(self.href@, reference@),
    {
        join_reference(self.href.as_str(), reference)
    }

    /// The last segment of the path, where the URL is hierarchical.
    pub fn last_path_segment(&self) -> (r: Option<String>)
        ensures
            r.deep_view() == last_segment(self.path@),
    {
        let path = chars_of(self.path.as_str());
        if path.len() == 0 || path[0] != '/' {
            return None;
        }
        let mut start: usize = path.len();
        while start > 0 && path[start - 1] != '/'
            invariant
                start <= path.len(),
                forall|i: int| start <= i < path.len() ==> path@[i] != '/',
            decreases start,
        {
            start -= 1;
        }
        proof {
            lemma_last_slash_prefix(path@, start as int);
            assert(path@.take(start as int).last() == '/');
        }
        Some(string_of(&path, start, path.len()))
    }

    /// Reads `value` as a link found on the page at `self`: as an absolute URL
    /// where it is one, else resolved against this URL.
    pub fn resolve(&self, value: &str) -> (r: Option<PageUrl>)
        ensures
            r.deep_view() == resolved(url_parsed(value@), url_joined(self.href@, value@)),
    {
        match PageUrl::parse(value) {
            Some(u) => Some(u),
            None => self.join(value),
        }
    }
}

/// The absolute reading of a link where there is one, else the relative one.
pub open spec fn resolved(absolute: Option<UrlView>, relative: Option<UrlView>) -> Option<UrlView> {
    if absolute is Some {
        absolute
    } else {
        relative
    }
}

} // verus!
