//! What the cache offers to the layer that takes requests: registering a
//! visit, locating a cached asset, and summarising stored visits.
//!
//! The event store, the clock and the file system belong to the caller. Each
//! function here takes what they answered and decides what follows.

use crate::og::OGData;
use crate::og::OGDataView;
use crate::og_manager::locations_of;
use crate::og_manager::manager_error_text;
use crate::og_manager::record_result_view;
use crate::og_manager::unit_result_view;
use crate::og_manager::CachePath;
use crate::og_manager::ManagerErrorView;
use crate::og_manager::OGManager;
use crate::og_manager::OGManagerError;
use crate::text::joined;
use crate::text::owned;
use crate::web_url::url_parsed;
use crate::web_url::PageUrl;
use crate::web_url::UrlView;
use vstd::prelude::*;

verus! {

/// A visit of a page by a client.
#[derive(Debug)]
pub struct WebsiteVisit {
    pub client: String,
    pub website: PageUrl,
}

/// The mathematical value of a [`WebsiteVisit`].
pub struct VisitView {
    pub client: Seq<char>,
    pub website: UrlView,
}

impl View for WebsiteVisit {
    type V = VisitView;

    open spec fn view(&self) -> VisitView {
        VisitView { client: self.client@, website: self.website@ }
    }
}

impl DeepView for WebsiteVisit {
    type V = VisitView;

    open spec fn deep_view(&self) -> VisitView {
        self@
    }
}

impl Clone for WebsiteVisit {
    fn clone(&self) -> (r: Self)
        ensures
            r@ == self@,
    {
        WebsiteVisit { client: self.client.clone(), website: self.website.clone() }
    }
}

/// A visit as it is handed to the event store.
#[derive(Debug)]
pub struct VisitEvent {
    /// The identifier of the event: the client and the time of the visit.
    pub id: String,
    pub visit: WebsiteVisit,
}

/// The mathematical value of a [`VisitEvent`].
pub struct VisitEventView {
    pub id: Seq<char>,
    pub visit: VisitView,
}

impl View for VisitEvent {
    type V = VisitEventView;

    open spec fn view(&self) -> VisitEventView {
        VisitEventView { id: self.id@, visit: self.visit@ }
    }
}

/// What a caller is told where the cache could not be filled for a visit.
pub open spec fn cache_failure(e: ManagerErrorView) -> Seq<char> {
    "Unable to save the open graph data to cache: "@ + manager_error_text(e)
}

/// What a caller is told where the event store refused a visit.
pub open spec fn store_failure(reason: Seq<char>) -> Seq<char> {
    "Unable to register website visit to database: "@ + reason
}

/// The event that stands for `visit` at the time `now`, once the cache has
/// been filled with `populated`; or the text that tells the caller why it
/// could not be.
pub open spec fn visit_event(
    visit: VisitView,
    now: Seq<char>,
    populated: Result<(), ManagerErrorView>,
) -> Result<VisitEventView, Seq<char>> {
    match populated {
        Ok(_) => Ok(VisitEventView { id: visit.client + "@"@ + now, visit }),
        Err(e) => Err(cache_failure(e)),
    }
}

/// The mathematical value of the result of [`register_visit`].
pub open spec fn visit_result_view(r: Result<VisitEvent, String>) -> Result<
    VisitEventView,
    Seq<char>,
> {
    match r {
        Ok(e) => Ok(e@),
        Err(m) => Err(m@),
    }
}

/// Decides what follows the request that filled the cache for `visit`.
///
/// Where the request succeeded, the visit is to be stored as an event whose
/// identifier is the client, `@` and the time `now`. Where it failed, the
/// visit is not stored, and the caller is told why.
pub fn register_visit(visit: WebsiteVisit, now: &str, populated: Result<(), OGManagerError>) -> (r:
    Result<VisitEvent, String>)
    ensures
        visit_result_view(r) == visit_event(visit@, now@, unit_result_view(populated)),
{
    match populated {
        Ok(_) => {
            let mut id = joined(visit.client.as_str(), "@");
            id.append(now);
            Ok(VisitEvent { id, visit })
        },
        Err(e) => Err(joined("Unable to save the open graph data to cache: ", e.message().as_str())),
    }
}

/// Decides what the caller is told once the event store has answered: success
/// as it is, a refusal with the store's reason.
pub fn visit_stored(stored: Result<(), String>) -> (r: Result<(), String>)
    ensures
        match stored {
            Ok(_) => r is Ok,
            Err(reason) => r matches Err(m) && m@ == store_failure(reason@),
        },
{
    match stored {
        Ok(_) => Ok(()),
        Err(reason) => Err(joined("Unable to register website visit to database: ", reason.as_str())),
    }
}

/// The location of a cached asset of the page at `url`: for the kind
/// `og_image` the file `image.png` of its entry, for the kind `favicon` the
/// icon of its host. There is no other kind. The location is derived from
/// the URL alone: an image that was stored under a name of its own is not
/// found under this one.
pub open spec fn asset_of(root: Seq<char>, kind: Seq<char>, url: UrlView) -> Option<Seq<Seq<char>>> {
    if kind == "og_image"@ {
        Some(locations_of(root, url).image_file)
    } else if kind == "favicon"@ {
        Some(locations_of(root, url).favicon_file)
    } else {
        None
    }
}

/// The location of the asset of kind `image_type` that belongs to the page at
/// `url`.
pub fn asset_path(og_manager: &OGManager, image_type: &str, url: &PageUrl) -> (r: Option<CachePath>)
    ensures
        r.deep_view() == asset_of(og_manager@, image_type@, url@),
{
    if image_type.eq("og_image") {
        Some(og_manager.get_paths(url).4)
    } else if image_type.eq("favicon") {
        Some(og_manager.get_paths(url).3)
    } else {
        None
    }
}

/// The location of the asset of kind `image_type` that belongs to the page
/// whose URL is written in `url`; `None` where `url` is no absolute URL or
/// the kind is unknown. Nothing is fetched.
pub fn app_icon(image_type: &str, url: &str, og_manager: &OGManager) -> (r: Option<CachePath>)
    ensures
        r.deep_view() == match url_parsed(url@) {
            Some(u) => asset_of(og_manager@, image_type@, u),
            None => None,
        },
{
    match PageUrl::parse(url) {
        Some(u) => asset_path(og_manager, image_type, &u),
        None => None,
    }
}

/// A stored visit together with the metadata of the page that was visited.
#[derive(Debug)]
pub struct CompressedVisit {
    /// The line under which the visit is listed.
    pub title: String,
    pub data: OGData,
    pub visit: WebsiteVisit,
}

/// The mathematical value of a [`CompressedVisit`].
pub struct CompressedView {
    pub title: Seq<char>,
    pub data: OGDataView,
    pub visit: VisitView,
}

impl View for CompressedVisit {
    type V = CompressedView;

    open spec fn view(&self) -> CompressedView {
        CompressedView { title: self.title@, data: self.data@, visit: self.visit@ }
    }
}

impl DeepView for CompressedVisit {
    type V = CompressedView;

    open spec fn deep_view(&self) -> CompressedView {
        self@
    }
}

/// The line under which a visit is listed: the title of the page, else the
/// host of the visited URL, else a fixed text.
pub open spec fn event_title(data: OGDataView, website: UrlView) -> Seq<char> {
    match data.title {
        Some(t) => t,
        None => match website.host {
            Some(h) => h,
            None => "Website Visit"@,
        },
    }
}

/// A visit joined with the cached metadata of its page.
pub open spec fn compressed(visit: VisitView, data: OGDataView) -> CompressedView {
    CompressedView { title: event_title(data, visit.website), data, visit }
}

/// What a caller is told where the cached metadata of a visit could not be read.
pub open spec fn read_failure(e: ManagerErrorView) -> Seq<char> {
    "Unable to load open graph cache data: "@ + manager_error_text(e)
}

/// A stored visit and what reading its page's metadata from the cache came to.
#[derive(Debug)]
pub struct VisitRead {
    pub visit: WebsiteVisit,
    pub cached: Result<OGData, OGManagerError>,
}

/// The mathematical value of a [`VisitRead`].
pub struct VisitReadView {
    pub visit: VisitView,
    pub cached: Result<OGDataView, ManagerErrorView>,
}

impl View for VisitRead {
    type V = VisitReadView;

    open spec fn view(&self) -> VisitReadView {
        VisitReadView { visit: self.visit@, cached: record_result_view(self.cached) }
    }
}

impl DeepView for VisitRead {
    type V = VisitReadView;

    open spec fn deep_view(&self) -> VisitReadView {
        self@
    }
}

/// The summaries of a list of visits: all of them, in order, where every read
/// succeeded; the failure of the first read that did not, where one failed.
pub open spec fn summaries(reads: Seq<VisitReadView>) -> Result<Seq<CompressedView>, Seq<char>>
    decreases reads.len(),
{
    if reads.len() == 0 {
        Ok(Seq::empty())
    } else {
        match summaries(reads.drop_last()) {
            Err(m) => Err(m),
            Ok(before) => match reads.last().cached {
                Ok(data) => Ok(before.push(compressed(reads.last().visit, data))),
                Err(e) => Err(read_failure(e)),
            },
        }
    }
}

/// The mathematical value of the result of [`get_compressed_events`].
pub open spec fn summaries_view(r: Result<Vec<CompressedVisit>, String>) -> Result<
    Seq<CompressedView>,
    Seq<char>,
> {
    match r {
        Ok(v) => Ok(v.deep_view()),
        Err(m) => Err(m@),
    }
}

/// Summarises stored visits. Each visit comes with what reading its page's
/// metadata from the cache came to. One read that failed fails the whole
/// batch: no partial list is handed out.
pub fn get_compressed_events(reads: &Vec<VisitRead>) -> (r: Result<Vec<CompressedVisit>, String>)
    ensures
        summaries_view(r) == summaries(reads.deep_view()),
{
    let ghost all = reads.deep_view();
    let mut out: Vec<CompressedVisit> = Vec::new();
    let mut i: usize = 0;
    assert(all.take(0) == Seq::<VisitReadView>::empty());
    assert(out.deep_view() == Seq::<CompressedView>::empty());
    while i < reads.len()
        invariant
            i <= reads.len(),
            all == reads.deep_view(),
            summaries(all.take(i as int)) == Ok::<Seq<CompressedView>, Seq<char>>(out.deep_view()),
        decreases reads.len() - i,
    {
        let ghost shown = out.deep_view();
        let read = &reads[i];
        assert(read@ == all[i as int]);
        assert(all.take(i + 1).drop_last() == all.take(i as int));
        match &read.cached {
            Ok(data) => {
                let title = match &data.title {
                    Some(t) => t.clone(),
                    None => match &read.visit.website.host {
                        Some(h) => h.clone(),
                        None => owned("Website Visit"),
                    },
                };
                let item = CompressedVisit { title, data: data.clone(), visit: read.visit.clone() };
                assert(item@ == compressed(read@.visit, data@));
                out.push(item);
                assert(out.deep_view() == shown.push(item@));
            },
            Err(e) => {
                let message = joined("Unable to load open graph cache data: ", e.message().as_str());
                proof {
                    lemma_failure_stays(all, i + 1);
                }
                return Err(message);
            },
        }
        i += 1;
    }
    assert(all.take(reads.len() as int) == all);
    Ok(out)
}

/// Once the summaries of the first `n` reads are a failure, so are those of
/// all reads, and it is the same failure.
proof fn lemma_failure_stays(reads: Seq<VisitReadView>, n: int)
    requires
        0 <= n <= reads.len(),
        summaries(reads.take(n)) is Err,
    ensures
        summaries(reads) == summaries(reads.take(n)),
    decreases reads.len() - n,
{
    if n < reads.len() {
        assert(reads.take(n + 1).drop_last() == reads.take(n));
        lemma_failure_stays(reads, n + 1);
    } else {
        assert(reads.take(n) == reads);
    }
}

} // verus!
