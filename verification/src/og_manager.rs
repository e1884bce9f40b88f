//! The cache manager: where a page's entry lives, and the steps that fill it.
//!
//! Every location is a list of path segments below the cache root. The
//! segments that come from the URL of a page are sanitized first: whatever
//! the URL holds, they name one directory each. A preview image is stored
//! under the last segment of its own URL, which holds no separator.

use crate::og::og_error_text;
use crate::og::OGData;
use crate::og::OGDataView;
use crate::og::OGError;
use crate::og::OGErrorView;
use crate::text::joined;
use crate::text::owned;
use crate::web_url::last_segment;
use crate::web_url::lemma_last_segment_has_no_slash;
use crate::web_url::PageUrl;
use crate::web_url::UrlView;
use vstd::prelude::*;

verus! {

/// Whether `char::is_alphanumeric` holds of `c`: whether Unicode classes the
/// character as alphabetic or numeric.
pub uninterp spec fn alphanumeric(c: char) -> bool;

/// `char::is_alphanumeric` is a function of the character alone.
pub assume_specification[ char::is_alphanumeric ](c: char) -> (r: bool)
    ensures
        r == alphanumeric(c),
;

/// `s` with every character that is not alphanumeric replaced by `_`.
pub open spec fn sanitized(s: Seq<char>) -> Seq<char> {
    s.map_values(|c: char| if alphanumeric(c) { c } else { '_' })
}

/// Replaces every character of `s` that is not alphanumeric by `_`.
pub fn sanitize(s: &str) -> (r: String)
    ensures
        r@ == sanitized(s@),
{
    let mut out = String::new();
    for c in it: s.chars()
        invariant
            it.seq() == s@,
            out@ == sanitized(s@.take(it.index())),
    {
        if c.is_alphanumeric() {
            out.push(c);
        } else {
            out.push('_');
        }
    }
    out
}

/// A location in the cache: the cache root followed by the names of the
/// directories that lead to it and, for a file, its own name.
#[derive(Debug)]
pub struct CachePath {
    pub segments: Vec<String>,
}

impl View for CachePath {
    type V = Seq<Seq<char>>;

    open spec fn view(&self) -> Seq<Seq<char>> {
        self.segments.deep_view()
    }
}

impl DeepView for CachePath {
    type V = Seq<Seq<char>>;

    open spec fn deep_view(&self) -> Seq<Seq<char>> {
        self@
    }
}

impl Clone for CachePath {
    fn clone(&self) -> (r: Self)
        ensures
            r@ == self@,
    {
        let mut segments: Vec<String> = Vec::new();
        let mut i: usize = 0;
        while i < self.segments.len()
            invariant
                i <= self.segments.len(),
                segments.deep_view() == self@.take(i as int),
            decreases self.segments.len() - i,
        {
            segments.push(self.segments[i].clone());
            assert(segments.deep_view() == self@.take(i as int).push(self.segments[i as int]@));
            i += 1;
        }
        assert(self@.take(self.segments.len() as int) == self@);
        CachePath { segments }
    }
}

impl CachePath {
    /// The location one step below this one.
    pub fn child(&self, segment: String) -> (r: CachePath)
        ensures
            r@ == self@.push(segment@),
    {
        let mut r = self.clone();
        r.segments.push(segment);
        assert(r@ == self@.push(segment@));
        r
    }
}

/// The locations that belong to one page.
pub struct Locations {
    /// The directory of the page's entry.
    pub entry_dir: Seq<Seq<char>>,
    /// The file that holds the page's metadata.
    pub metadata_file: Seq<Seq<char>>,
    /// The directory of the page's host.
    pub host_dir: Seq<Seq<char>>,
    /// The file that holds the host's icon.
    pub favicon_file: Seq<Seq<char>>,
    /// The file that holds the preview image, under its default name.
    pub image_file: Seq<Seq<char>>,
}

/// The locations below `root` for an entry with these three segments.
pub open spec fn layout_of(root: Seq<char>, host: Seq<char>, path: Seq<char>, query: Seq<char>) -> Locations {
    Locations {
        entry_dir: seq![root, host, path, query],
        metadata_file: seq![root, host, path, query, "data.json"@],
        host_dir: seq![root, host],
        favicon_file: seq![root, host, "favicon.ico"@],
        image_file: seq![root, host, path, query, "image.png"@],
    }
}

/// The segment that stands for the host of `url`.
pub open spec fn host_segment(url: UrlView) -> Seq<char> {
    match url.host {
        Some(h) => sanitized(h),
        None => "no_host"@,
    }
}

/// The segment that stands for the query of `url`; it is empty where the URL
/// has no query.
pub open spec fn query_segment(url: UrlView) -> Seq<char> {
    match url.query {
        Some(q) => sanitized(q),
        None => Seq::empty(),
    }
}

/// The locations below `root` that belong to the page at `url`.
pub open spec fn locations_of(root: Seq<char>, url: UrlView) -> Locations {
    layout_of(root, host_segment(url), sanitized(url.path), query_segment(url))
}

/// The name under which a preview image is stored: the last segment of the
/// image URL's path or, where there is none or it is empty, `image.png`.
pub open spec fn image_name(image: UrlView) -> Seq<char> {
    match last_segment(image.path) {
        Some(s) => if s.len() > 0 {
            s
        } else {
            "image.png"@
        },
        None => "image.png"@,
    }
}

/// Owns the cache below one root directory.
pub struct OGManager {
    save_location: String,
}

impl View for OGManager {
    type V = Seq<char>;

    /// A manager is known by the root of its cache.
    closed spec fn view(&self) -> Seq<char> {
        self.save_location@
    }
}

impl OGManager {
    /// A manager for the cache below `save_location`.
    pub fn new(save_location: String) -> (r: OGManager)
        ensures
            r@ == save_location@,
    {
        OGManager { save_location }
    }

    /// The root of the cache.
    pub fn save_location(&self) -> (r: &String)
        ensures
            r@ == self@,
    {
        &self.save_location
    }

    /// The locations of an entry whose segments are already sanitized, as
    /// `(entry_dir, metadata_file, host_dir, favicon_file, image_file)`.
    pub fn layout(&self, host: String, path: String, query: String) -> (r: (
        CachePath,
        CachePath,
        CachePath,
        CachePath,
        CachePath,
    ))
        ensures
            r.0@ == layout_of(self@, host@, path@, query@).entry_dir,
            r.1@ == layout_of(self@, host@, path@, query@).metadata_file,
            r.2@ == layout_of(self@, host@, path@, query@).host_dir,
            r.3@ == layout_of(self@, host@, path@, query@).favicon_file,
            r.4@ == layout_of(self@, host@, path@, query@).image_file,
    {
        let mut root: Vec<String> = Vec::new();
        root.push(self.save_location.clone());
        let root_dir = CachePath { segments: root };
        assert(root_dir@ == seq![self@]);
        let host_dir = root_dir.child(host);
        let favicon_file = host_dir.child(owned("favicon.ico"));
        let entry_dir = host_dir.child(path).child(query);
        let metadata_file = entry_dir.child(owned("data.json"));
        let image_file = entry_dir.child(owned("image.png"));
        (entry_dir, metadata_file, host_dir, favicon_file, image_file)
    }

    /// The locations that belong to the page at `url`, as
    /// `(entry_dir, metadata_file, host_dir, favicon_file, image_file)`.
    ///
    /// They depend on the host, the path and the query of the URL and on
    /// nothing else.
    pub fn get_paths(&self, url: &PageUrl) -> (r: (
        CachePath,
        CachePath,
        CachePath,
        CachePath,
        CachePath,
    ))
        ensures
            r.0@ == locations_of(self@, url@).entry_dir,
            r.1@ == locations_of(self@, url@).metadata_file,
            r.2@ == locations_of(self@, url@).host_dir,
            r.3@ == locations_of(self@, url@).favicon_file,
            r.4@ == locations_of(self@, url@).image_file,
    {
        let host = match &url.host {
            Some(h) => sanitize(h.as_str()),
            None => owned("no_host"),
        };
        let path = sanitize(url.path.as_str());
        let query = match &url.query {
            Some(q) => sanitize(q.as_str()),
            None => String::new(),
        };
        self.layout(host, path, query)
    }

    /// The file in which the preview image of the page at `url` is stored,
    /// given the URL that the image was fetched from.
    pub fn image_path(&self, url: &PageUrl, image: &PageUrl) -> (r: CachePath)
        ensures
            r@ == locations_of(self@, url@).entry_dir.push(image_name(image@)),
    {
        let entry_dir = self.get_paths(url).0;
        let name = match image.last_path_segment() {
            Some(s) => if s.as_str().is_empty() {
                owned("image.png")
            } else {
                s
            },
            None => owned("image.png"),
        };
        entry_dir.child(name)
    }
}

/// Why the cache could not serve a request.
#[derive(Debug)]
pub enum OGManagerError {
    /// The file system refused a read or a write; the text says why.
    IOError(String),
    /// An image or an icon could not be fetched; the text says why.
    RequestError(String),
    /// A cached record could not be read back as metadata; the text says why.
    ParsingError(String),
    /// The page itself could not be fetched or understood.
    OGError(OGError),
    /// The cache holds no entry for the page; the text says what was missing.
    NotFound(String),
}

/// The mathematical value of an [`OGManagerError`].
pub enum ManagerErrorView {
    IOError(Seq<char>),
    RequestError(Seq<char>),
    ParsingError(Seq<char>),
    OGError(OGErrorView),
    NotFound(Seq<char>),
}

impl View for OGManagerError {
    type V = ManagerErrorView;

    open spec fn view(&self) -> ManagerErrorView {
        match self {
            OGManagerError::IOError(m) => ManagerErrorView::IOError(m@),
            OGManagerError::RequestError(m) => ManagerErrorView::RequestError(m@),
            OGManagerError::ParsingError(m) => ManagerErrorView::ParsingError(m@),
            OGManagerError::OGError(e) => ManagerErrorView::OGError(e@),
            OGManagerError::NotFound(m) => ManagerErrorView::NotFound(m@),
        }
    }
}

impl DeepView for OGManagerError {
    type V = ManagerErrorView;

    open spec fn deep_view(&self) -> ManagerErrorView {
        self@
    }
}

/// An [`OGManagerError`] in words.
pub open spec fn manager_error_text(e: ManagerErrorView) -> Seq<char> {
    match e {
        ManagerErrorView::IOError(m) => "Unable to write or read og cache file: "@ + m,
        ManagerErrorView::RequestError(m) => "Unable to reqwest og image: "@ + m,
        ManagerErrorView::ParsingError(m) => "Unable to parse open graph data from cache: "@ + m,
        ManagerErrorView::OGError(e) => "Encounterd an og error while fetching the open graph data from website: "@
            + og_error_text(e),
        ManagerErrorView::NotFound(m) => "Unable to find og cache file: "@ + m,
    }
}

impl OGManagerError {
    /// The error in words.
    pub fn message(&self) -> (r: String)
        ensures
            r@ == manager_error_text(self@),
    {
        match self {
            OGManagerError::IOError(m) => joined(
                "Unable to write or read og cache file: ",
                m.as_str(),
            ),
            OGManagerError::RequestError(m) => joined("Unable to reqwest og image: ", m.as_str()),
            OGManagerError::ParsingError(m) => joined(
                "Unable to parse open graph data from cache: ",
                m.as_str(),
            ),
            OGManagerError::OGError(e) => joined(
                "Encounterd an og error while fetching the open graph data from website: ",
                e.message().as_str(),
            ),
            OGManagerError::NotFound(m) => joined("Unable to find og cache file: ", m.as_str()),
        }
    }
}

/// What a read of a page's metadata file came to.
#[derive(Debug)]
pub enum ReadOutcome {
    /// The file held this record.
    Found(OGData),
    /// There is no such file; the text says what was looked for.
    Missing(String),
    /// The file could not be read; the text says why.
    Unreadable(String),
    /// The file does not hold a metadata record; the text says why.
    Corrupt(String),
}

/// The mathematical value of a [`ReadOutcome`].
pub enum ReadOutcomeView {
    Found(OGDataView),
    Missing(Seq<char>),
    Unreadable(Seq<char>),
    Corrupt(Seq<char>),
}

impl View for ReadOutcome {
    type V = ReadOutcomeView;

    open spec fn view(&self) -> ReadOutcomeView {
        match self {
            ReadOutcome::Found(d) => ReadOutcomeView::Found(d@),
            ReadOutcome::Missing(m) => ReadOutcomeView::Missing(m@),
            ReadOutcome::Unreadable(m) => ReadOutcomeView::Unreadable(m@),
            ReadOutcome::Corrupt(m) => ReadOutcomeView::Corrupt(m@),
        }
    }
}

/// What a caller is told of a read: the record, or the error that stands for
/// the way in which the read failed.
pub open spec fn read_result(outcome: ReadOutcomeView) -> Result<OGDataView, ManagerErrorView> {
    match outcome {
        ReadOutcomeView::Found(d) => Ok(d),
        ReadOutcomeView::Missing(m) => Err(ManagerErrorView::NotFound(m)),
        ReadOutcomeView::Unreadable(m) => Err(ManagerErrorView::IOError(m)),
        ReadOutcomeView::Corrupt(m) => Err(ManagerErrorView::ParsingError(m)),
    }
}

/// The mathematical value of the result of a read.
pub open spec fn record_result_view(r: Result<OGData, OGManagerError>) -> Result<
    OGDataView,
    ManagerErrorView,
> {
    match r {
        Ok(d) => Ok(d@),
        Err(e) => Err(e@),
    }
}

/// The mathematical value of the result of a population.
pub open spec fn unit_result_view(r: Result<(), OGManagerError>) -> Result<(), ManagerErrorView> {
    match r {
        Ok(_) => Ok(()),
        Err(e) => Err(e@),
    }
}

impl OGManager {
    /// The file from which the cached metadata of the page at `url` is read.
    pub fn record_path(&self, url: &PageUrl) -> (r: CachePath)
        ensures
            r@ == locations_of(self@, url@).metadata_file,
    {
        self.get_paths(url).1
    }

    /// Turns the outcome of reading a page's metadata file into the cached
    /// record, or into the error that tells a missing entry from an
    /// unreadable and from a corrupt one.
    pub fn get_og(&self, outcome: ReadOutcome) -> (r: Result<OGData, OGManagerError>)
        ensures
            record_result_view(r) == read_result(outcome@),
    {
        match outcome {
            ReadOutcome::Found(d) => Ok(d),
            ReadOutcome::Missing(m) => Err(OGManagerError::NotFound(m)),
            ReadOutcome::Unreadable(m) => Err(OGManagerError::IOError(m)),
            ReadOutcome::Corrupt(m) => Err(OGManagerError::ParsingError(m)),
        }
    }
}

/// The locations of a page are decided by the host, the path and the query of
/// its URL: two URLs that agree in these three have the same locations.
pub proof fn lemma_locations_depend_on_key(root: Seq<char>, a: UrlView, b: UrlView)
    requires
        a.host == b.host,
        a.path == b.path,
        a.query == b.query,
    ensures
        locations_of(root, a) == locations_of(root, b),
{
}

/// Sanitizing keeps the length, keeps every alphanumeric character in its
/// place and puts `_` in the place of every other: the result holds nothing
/// but alphanumeric characters and `_`.
pub proof fn lemma_sanitized_characters(s: Seq<char>)
    ensures
        sanitized(s).len() == s.len(),
        forall|i: int|
            0 <= i < s.len() ==> #[trigger] sanitized(s)[i] == (if alphanumeric(s[i]) {
                s[i]
            } else {
                '_'
            }),
        forall|i: int|
            0 <= i < s.len() ==> alphanumeric(#[trigger] sanitized(s)[i]) || sanitized(s)[i] == '_',
{
}

/// The name under which a preview image is stored is one segment of a path:
/// it is not empty and holds no `/`.
pub proof fn lemma_image_name_is_one_segment(image: UrlView)
    ensures
        image_name(image).len() > 0,
        forall|i: int| 0 <= i < image_name(image).len() ==> image_name(image)[i] != '/',
{
    reveal_strlit("image.png");
    lemma_last_segment_has_no_slash(image.path);
}

/// Below the root, the directory of an entry is made of three segments. The
/// one for the host is the sanitized host or the placeholder `no_host`; the
/// ones for the path and the query are sanitized, so each of their characters
/// is alphanumeric or `_`.
pub proof fn lemma_entry_segments(root: Seq<char>, url: UrlView)
    ensures
        locations_of(root, url).entry_dir.len() == 4,
        locations_of(root, url).entry_dir[0] == root,
        locations_of(root, url).entry_dir[1] == host_segment(url),
        url.host is Some ==> forall|i: int|
            0 <= i < host_segment(url).len() ==> alphanumeric(#[trigger] host_segment(url)[i])
                || host_segment(url)[i] == '_',
        forall|k: int, i: int|
            2 <= k < 4 && 0 <= i < locations_of(root, url).entry_dir[k].len() ==> alphanumeric(
                #[trigger] locations_of(root, url).entry_dir[k][i],
            ) || locations_of(root, url).entry_dir[k][i] == '_',
{
    lemma_sanitized_characters(url.path);
    if url.host is Some {
        lemma_sanitized_characters(url.host->0);
    }
    if url.query is Some {
        lemma_sanitized_characters(url.query->0);
    }
}

} // verus!
