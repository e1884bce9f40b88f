//! Filling the cache for one page, step by step.
//!
//! The manager does no input or output itself. It names the next thing to do,
//! an [`Action`]; a driver does it and reports what happened, an [`Event`];
//! the manager then names the next action, until it names [`Action::Finish`].
//! One request runs through these stages in this order: look for the
//! metadata file, fetch the page, extract its metadata, write the metadata,
//! fetch and write the preview image if the page has one, look for the host's
//! icon and fetch and write it if it is not there.
//!
//! Every write asks for a new file. A driver that finds the file in place
//! reports [`Event::AlreadyExists`], and the manager goes on as if its own
//! write had succeeded: another request has filled the place, and what it
//! wrote stays.

use crate::og::create_get_request;
use crate::og::extraction_outcome;
use crate::og::get_og;
use crate::og::outcome_view;
use crate::og::request_for;
use crate::og::GetRequest;
use crate::og::OGData;
use crate::og::OGDataView;
use crate::og::OGError;
use crate::og::OGErrorView;
use crate::og::RequestView;
use crate::og_manager::image_name;
use crate::og_manager::locations_of;
use crate::og_manager::unit_result_view;
use crate::og_manager::CachePath;
use crate::og_manager::ManagerErrorView;
use crate::og_manager::OGManager;
use crate::og_manager::OGManagerError;
use crate::text::owned;
use crate::web_url::url_joined;
use crate::web_url::PageUrl;
use crate::web_url::UrlView;
use vstd::prelude::*;

verus! {

/// What the manager wants done next.
#[derive(Debug)]
pub enum Action {
    /// Find out whether a file exists at this location.
    Probe(CachePath),
    /// Send the request and report the body of the answer as text.
    FetchPage(GetRequest),
    /// Send the request and report the body of the answer as bytes.
    FetchBytes(GetRequest),
    /// Create the directory at this location, and those above it.
    CreateDir(CachePath),
    /// Write the record to a new file at this location.
    StoreRecord(CachePath, OGData),
    /// Write the bytes to a new file at this location.
    StoreBytes(CachePath, Vec<u8>),
    /// Nothing is left to do: the request has ended with this result.
    Finish(Result<(), OGManagerError>),
}

/// What came of the action that the manager asked for.
#[derive(Debug)]
pub enum Event {
    /// The answer to `Probe`.
    Exists(bool),
    /// The answer to `FetchPage`: the page as text.
    Page(String),
    /// What extraction made of a fetched page. A driver reports `Page`;
    /// [`OGManager::advance`] extracts and goes on with this.
    Metadata(Result<OGData, OGError>),
    /// The answer to `FetchBytes`.
    Bytes(Vec<u8>),
    /// The directory was created, or the file was written.
    Done,
    /// The file was not written, because there is one at that location.
    AlreadyExists,
    /// The request failed: no connection, no answer in time, or an answer
    /// with a status that is no success. The text says which.
    RequestFailed(String),
    /// The file system refused; the text says why.
    IoFailed(String),
}

/// Where a request stands.
#[derive(Debug)]
pub enum Stage {
    /// Asked whether the metadata file exists.
    CheckingCache,
    /// Asked for the page.
    FetchingPage,
    /// Asked for the entry's directory; holds the extracted record.
    CreatingDir(OGData),
    /// Asked for the record to be written; holds the image URL of the record.
    StoringRecord(Option<PageUrl>),
    /// Asked for the image at this URL.
    FetchingImage(PageUrl),
    /// Asked for the image to be written.
    StoringImage,
    /// Asked whether the host's icon exists.
    CheckingFavicon,
    /// Asked for the host's icon.
    FetchingFavicon,
    /// Asked for the icon to be written.
    StoringFavicon,
    /// The request has ended.
    Finished,
}

/// The mathematical value of an [`Action`].
pub enum ActionView {
    Probe(Seq<Seq<char>>),
    FetchPage(RequestView),
    FetchBytes(RequestView),
    CreateDir(Seq<Seq<char>>),
    StoreRecord(Seq<Seq<char>>, OGDataView),
    StoreBytes(Seq<Seq<char>>, Seq<u8>),
    Finish(Result<(), ManagerErrorView>),
}

/// The mathematical value of an [`Event`].
pub enum EventView {
    Exists(bool),
    Page(Seq<char>),
    Metadata(Result<OGDataView, OGErrorView>),
    Bytes(Seq<u8>),
    Done,
    AlreadyExists,
    RequestFailed(Seq<char>),
    IoFailed(Seq<char>),
}

/// The mathematical value of a [`Stage`].
pub enum StageView {
    CheckingCache,
    FetchingPage,
    CreatingDir(OGDataView),
    StoringRecord(Option<UrlView>),
    FetchingImage(UrlView),
    StoringImage,
    CheckingFavicon,
    FetchingFavicon,
    StoringFavicon,
    Finished,
}

impl View for Action {
    type V = ActionView;

    open spec fn view(&self) -> ActionView {
        match self {
            Action::Probe(p) => ActionView::Probe(p@),
            Action::FetchPage(r) => ActionView::FetchPage(r@),
            Action::FetchBytes(r) => ActionView::FetchBytes(r@),
            Action::CreateDir(p) => ActionView::CreateDir(p@),
            Action::StoreRecord(p, d) => ActionView::StoreRecord(p@, d@),
            Action::StoreBytes(p, b) => ActionView::StoreBytes(p@, b@),
            Action::Finish(r) => ActionView::Finish(unit_result_view(*r)),
        }
    }
}

impl View for Event {
    type V = EventView;

    open spec fn view(&self) -> EventView {
        match self {
            Event::Exists(b) => EventView::Exists(*b),
            Event::Page(t) => EventView::Page(t@),
            Event::Metadata(o) => EventView::Metadata(outcome_view(*o)),
            Event::Bytes(b) => EventView::Bytes(b@),
            Event::Done => EventView::Done,
            Event::AlreadyExists => EventView::AlreadyExists,
            Event::RequestFailed(m) => EventView::RequestFailed(m@),
            Event::IoFailed(m) => EventView::IoFailed(m@),
        }
    }
}

impl View for Stage {
    type V = StageView;

    open spec fn view(&self) -> StageView {
        match self {
            Stage::CheckingCache => StageView::CheckingCache,
            Stage::FetchingPage => StageView::FetchingPage,
            Stage::CreatingDir(d) => StageView::CreatingDir(d@),
            Stage::StoringRecord(i) => StageView::StoringRecord(i.deep_view()),
            Stage::FetchingImage(u) => StageView::FetchingImage(u@),
            Stage::StoringImage => StageView::StoringImage,
            Stage::CheckingFavicon => StageView::CheckingFavicon,
            Stage::FetchingFavicon => StageView::FetchingFavicon,
            Stage::StoringFavicon => StageView::StoringFavicon,
            Stage::Finished => StageView::Finished,
        }
    }
}

/// A stage and the action asked for in it.
pub struct StepView {
    pub stage: StageView,
    pub action: ActionView,
}

/// The mathematical value of a pair of stage and action.
pub open spec fn step_view(step: (Stage, Action)) -> StepView {
    StepView { stage: step.0@, action: step.1@ }
}

/// The end of a request, with its result.
pub open spec fn finish(result: Result<(), ManagerErrorView>) -> StepView {
    StepView { stage: StageView::Finished, action: ActionView::Finish(result) }
}

/// What the manager says of an event that answers no question it asked.
pub open spec fn unexpected() -> ManagerErrorView {
    ManagerErrorView::IOError("The cache driver gave an answer that fits no question"@)
}

/// What the manager says where a page's URL leaves no address for an icon.
pub open spec fn no_favicon_address() -> ManagerErrorView {
    ManagerErrorView::RequestError("The page's address names no place for a favicon"@)
}

/// The path, from the root of a host, at which its icon is requested.
pub open spec fn favicon_reference() -> Seq<char> {
    "/favicon.ico"@
}

/// The first step of a request: the question whether the page is cached.
pub open spec fn first_step(root: Seq<char>, url: UrlView) -> StepView {
    StepView {
        stage: StageView::CheckingCache,
        action: ActionView::Probe(locations_of(root, url).metadata_file),
    }
}

/// The step that looks for the host's icon.
pub open spec fn favicon_step(root: Seq<char>, url: UrlView) -> StepView {
    StepView {
        stage: StageView::CheckingFavicon,
        action: ActionView::Probe(locations_of(root, url).favicon_file),
    }
}

/// The step behind the writing of the record: the image is fetched where the
/// record names one; else the icon is looked for.
pub open spec fn after_record(root: Seq<char>, url: UrlView, image: Option<UrlView>) -> StepView {
    match image {
        Some(i) => StepView {
            stage: StageView::FetchingImage(i),
            action: ActionView::FetchBytes(request_for(i)),
        },
        None => favicon_step(root, url),
    }
}

/// The step behind the extraction of a fetched page.
pub open spec fn after_extraction(
    root: Seq<char>,
    url: UrlView,
    outcome: Result<OGDataView, OGErrorView>,
) -> StepView {
    match outcome {
        Ok(data) => StepView {
            stage: StageView::CreatingDir(data),
            action: ActionView::CreateDir(locations_of(root, url).entry_dir),
        },
        Err(e) => finish(Err(ManagerErrorView::OGError(e))),
    }
}

/// The steps that persist a page's record and its preview image.
pub open spec fn save_step(root: Seq<char>, url: UrlView, stage: StageView, event: EventView) -> StepView {
    match (stage, event) {
        (StageView::CreatingDir(data), EventView::Done) => StepView {
            stage: StageView::StoringRecord(data.image),
            action: ActionView::StoreRecord(locations_of(root, url).metadata_file, data),
        },
        (StageView::StoringRecord(image), EventView::Done) => after_record(root, url, image),
        (StageView::StoringRecord(image), EventView::AlreadyExists) => after_record(
            root,
            url,
            image,
        ),
        (StageView::FetchingImage(image), EventView::Bytes(bytes)) => StepView {
            stage: StageView::StoringImage,
            action: ActionView::StoreBytes(
                locations_of(root, url).entry_dir.push(image_name(image)),
                bytes,
            ),
        },
        (StageView::StoringImage, EventView::Done) => favicon_step(root, url),
        (StageView::StoringImage, EventView::AlreadyExists) => favicon_step(root, url),
        (_, EventView::IoFailed(m)) => finish(Err(ManagerErrorView::IOError(m))),
        (_, EventView::RequestFailed(m)) => finish(Err(ManagerErrorView::RequestError(m))),
        _ => finish(Err(unexpected())),
    }
}

/// The steps that make sure the host's icon is cached.
pub open spec fn favicon_step_after(
    root: Seq<char>,
    url: UrlView,
    stage: StageView,
    event: EventView,
) -> StepView {
    match (stage, event) {
        (StageView::CheckingFavicon, EventView::Exists(true)) => finish(Ok(())),
        (StageView::CheckingFavicon, EventView::Exists(false)) => match url_joined(
            url.href,
            favicon_reference(),
        ) {
            Some(icon) => StepView {
                stage: StageView::FetchingFavicon,
                action: ActionView::FetchBytes(request_for(icon)),
            },
            None => finish(Err(no_favicon_address())),
        },
        (StageView::FetchingFavicon, EventView::Bytes(bytes)) => StepView {
            stage: StageView::StoringFavicon,
            action: ActionView::StoreBytes(locations_of(root, url).favicon_file, bytes),
        },
        (StageView::StoringFavicon, EventView::Done) => finish(Ok(())),
        (StageView::StoringFavicon, EventView::AlreadyExists) => finish(Ok(())),
        (_, EventView::IoFailed(m)) => finish(Err(ManagerErrorView::IOError(m))),
        (_, EventView::RequestFailed(m)) => finish(Err(ManagerErrorView::RequestError(m))),
        _ => finish(Err(unexpected())),
    }
}

/// The step that follows `event` in `stage`, for the page at `url` in the
/// cache below `root`.
pub open spec fn next_step(root: Seq<char>, url: UrlView, stage: StageView, event: EventView) -> StepView {
    match stage {
        StageView::CheckingCache => match event {
            EventView::Exists(true) => finish(Ok(())),
            EventView::Exists(false) => StepView {
                stage: StageView::FetchingPage,
                action: ActionView::FetchPage(request_for(url)),
            },
            EventView::IoFailed(m) => finish(Err(ManagerErrorView::IOError(m))),
            EventView::RequestFailed(m) => finish(Err(ManagerErrorView::RequestError(m))),
            _ => finish(Err(unexpected())),
        },
        StageView::FetchingPage => match event {
            EventView::Metadata(outcome) => after_extraction(root, url, outcome),
            EventView::RequestFailed(m) => finish(
                Err(ManagerErrorView::OGError(OGErrorView::RequestError(m))),
            ),
            EventView::IoFailed(m) => finish(Err(ManagerErrorView::IOError(m))),
            _ => finish(Err(unexpected())),
        },
        StageView::CreatingDir(_) => save_step(root, url, stage, event),
        StageView::StoringRecord(_) => save_step(root, url, stage, event),
        StageView::FetchingImage(_) => save_step(root, url, stage, event),
        StageView::StoringImage => save_step(root, url, stage, event),
        StageView::CheckingFavicon => favicon_step_after(root, url, stage, event),
        StageView::FetchingFavicon => favicon_step_after(root, url, stage, event),
        StageView::StoringFavicon => favicon_step_after(root, url, stage, event),
        StageView::Finished => finish(Err(unexpected())),
    }
}

/// Whether `step` may follow `event` in `stage`. A page that arrives while
/// the page is awaited is followed by what some extraction of it leads to;
/// every other event has one successor, that of [`next_step`].
pub open spec fn advances(
    root: Seq<char>,
    url: UrlView,
    stage: StageView,
    event: EventView,
    step: StepView,
) -> bool {
    if stage is FetchingPage && event is Page {
        exists|outcome: Result<OGDataView, OGErrorView>|
            extraction_outcome(outcome, event->Page_0, url) && step == #[trigger] after_extraction(
                root,
                url,
                outcome,
            )
    } else {
        step == next_step(root, url, stage, event)
    }
}

/// The end of a request, with its result.
fn finished(result: Result<(), OGManagerError>) -> (r: (Stage, Action))
    ensures
        step_view(r) == finish(unit_result_view(result)),
{
    (Stage::Finished, Action::Finish(result))
}

/// The end of a request on an event that answers no question.
fn refuse() -> (r: (Stage, Action))
    ensures
        step_view(r) == finish(Err(unexpected())),
{
    finished(
        Err(OGManagerError::IOError(owned("The cache driver gave an answer that fits no question"))),
    )
}

impl OGManager {
    /// Begins a request for the page at `url`: asks whether its metadata file
    /// exists.
    pub fn request_og(&self, url: &PageUrl) -> (r: (Stage, Action))
        ensures
            step_view(r) == first_step(self@, url@),
    {
        (Stage::CheckingCache, Action::Probe(self.get_paths(url).1))
    }

    /// The question whether the host's icon is cached.
    fn probe_favicon(&self, url: &PageUrl) -> (r: (Stage, Action))
        ensures
            step_view(r) == favicon_step(self@, url@),
    {
        (Stage::CheckingFavicon, Action::Probe(self.get_paths(url).3))
    }

    /// Goes on behind the extraction of the fetched page: a record is to be
    /// stored, starting with its directory; a failure ends the request.
    pub fn page_extracted(&self, url: &PageUrl, outcome: Result<OGData, OGError>) -> (r: (
        Stage,
        Action,
    ))
        ensures
            step_view(r) == after_extraction(self@, url@, outcome_view(outcome)),
    {
        match outcome {
            Ok(data) => (Stage::CreatingDir(data), Action::CreateDir(self.get_paths(url).0)),
            Err(e) => finished(Err(OGManagerError::OGError(e))),
        }
    }

    /// Persists a page's record and then its preview image: takes the event
    /// that answers a stage of this part and names the next step.
    ///
    /// A record or an image that is found in place counts as written.
    pub fn save_og(&self, url: &PageUrl, stage: Stage, event: Event) -> (r: (Stage, Action))
        ensures
            step_view(r) == save_step(self@, url@, stage@, event@),
    {
        match (stage, event) {
            (Stage::CreatingDir(data), Event::Done) => {
                let image = match &data.image {
                    Some(i) => Some(i.clone()),
                    None => None,
                };
                (Stage::StoringRecord(image), Action::StoreRecord(self.get_paths(url).1, data))
            },
            (Stage::StoringRecord(image), Event::Done) => self.fetch_image(url, image),
            (Stage::StoringRecord(image), Event::AlreadyExists) => self.fetch_image(url, image),
            (Stage::FetchingImage(image), Event::Bytes(bytes)) => (
                Stage::StoringImage,
                Action::StoreBytes(self.image_path(url, &image), bytes),
            ),
            (Stage::StoringImage, Event::Done) => self.probe_favicon(url),
            (Stage::StoringImage, Event::AlreadyExists) => self.probe_favicon(url),
            (_, Event::IoFailed(m)) => finished(Err(OGManagerError::IOError(m))),
            (_, Event::RequestFailed(m)) => finished(Err(OGManagerError::RequestError(m))),
            _ => refuse(),
        }
    }

    /// The step behind the writing of the record.
    fn fetch_image(&self, url: &PageUrl, image: Option<PageUrl>) -> (r: (Stage, Action))
        ensures
            step_view(r) == after_record(self@, url@, image.deep_view()),
    {
        match image {
            Some(i) => {
                let request = create_get_request(&i);
                (Stage::FetchingImage(i), Action::FetchBytes(request))
            },
            None => self.probe_favicon(url),
        }
    }

    /// Makes sure that the icon of the page's host is cached: takes the event
    /// that answers a stage of this part and names the next step.
    ///
    /// The icon is asked for at `/favicon.ico` of the page's host, whatever
    /// the page's own path and query. An icon that is found in place counts as
    /// written.
    pub fn save_favicon(&self, url: &PageUrl, stage: Stage, event: Event) -> (r: (Stage, Action))
        ensures
            step_view(r) == favicon_step_after(self@, url@, stage@, event@),
    {
        match (stage, event) {
            (Stage::CheckingFavicon, Event::Exists(true)) => finished(Ok(())),
            (Stage::CheckingFavicon, Event::Exists(false)) => match url.join("/favicon.ico") {
                Some(icon) => (
                    Stage::FetchingFavicon,
                    Action::FetchBytes(create_get_request(&icon)),
                ),
                None => finished(
                    Err(
                        OGManagerError::RequestError(
                            owned("The page's address names no place for a favicon"),
                        ),
                    ),
                ),
            },
            (Stage::FetchingFavicon, Event::Bytes(bytes)) => (
                Stage::StoringFavicon,
                Action::StoreBytes(self.get_paths(url).3, bytes),
            ),
            (Stage::StoringFavicon, Event::Done) => finished(Ok(())),
            (Stage::StoringFavicon, Event::AlreadyExists) => finished(Ok(())),
            (_, Event::IoFailed(m)) => finished(Err(OGManagerError::IOError(m))),
            (_, Event::RequestFailed(m)) => finished(Err(OGManagerError::RequestError(m))),
            _ => refuse(),
        }
    }

    /// Names the step that follows `event` in `stage`.
    ///
    /// No event asks for a fetched page to be extracted here: see
    /// [`OGManager::advance`].
    pub fn proceed(&self, url: &PageUrl, stage: Stage, event: Event) -> (r: (Stage, Action))
        ensures
            step_view(r) == next_step(self@, url@, stage@, event@),
    {
        match stage {
            Stage::CheckingCache => match event {
                Event::Exists(true) => finished(Ok(())),
                Event::Exists(false) => (
                    Stage::FetchingPage,
                    Action::FetchPage(create_get_request(url)),
                ),
                Event::IoFailed(m) => finished(Err(OGManagerError::IOError(m))),
                Event::RequestFailed(m) => finished(Err(OGManagerError::RequestError(m))),
                _ => refuse(),
            },
            Stage::FetchingPage => match event {
                Event::Metadata(outcome) => self.page_extracted(url, outcome),
                Event::RequestFailed(m) => finished(
                    Err(OGManagerError::OGError(OGError::RequestError(m))),
                ),
                Event::IoFailed(m) => finished(Err(OGManagerError::IOError(m))),
                _ => refuse(),
            },
            Stage::CreatingDir(_) => self.save_og(url, stage, event),
            Stage::StoringRecord(_) => self.save_og(url, stage, event),
            Stage::FetchingImage(_) => self.save_og(url, stage, event),
            Stage::StoringImage => self.save_og(url, stage, event),
            Stage::CheckingFavicon => self.save_favicon(url, stage, event),
            Stage::FetchingFavicon => self.save_favicon(url, stage, event),
            Stage::StoringFavicon => self.save_favicon(url, stage, event),
            Stage::Finished => refuse(),
        }
    }

    /// Takes what the driver reports and names the next step.
    ///
    /// A page that arrives while the page is awaited is extracted first, and
    /// the request goes on with what extraction made of it; whether markup
    /// parses is the parser's decision. Every other event is followed by the
    /// step that [`next_step`] gives: see [`advances`].
    pub fn advance(&self, url: &PageUrl, stage: Stage, event: Event) -> (r: (Stage, Action))
        ensures
            advances(self@, url@, stage@, event@, step_view(r)),
    {
        match (stage, event) {
            (Stage::FetchingPage, Event::Page(html)) => {
                let ghost text = html@;
                let outcome = get_og(url.clone(), Ok(html));
                assert(extraction_outcome(outcome_view(outcome), text, url@));
                self.page_extracted(url, outcome)
            },
            (stage, event) => self.proceed(url, stage, event),
        }
    }
}

} // verus!
