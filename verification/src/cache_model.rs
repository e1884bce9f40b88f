//! What the manager's steps do to a cache that several requests share.
//!
//! The cache is modelled as a map from locations to files. A run of a request
//! is the list of its turns: in each the driver carries out the action that
//! the manager named, in the cache as other requests have left it by then, and
//! the manager names the next step. The driver is taken to answer truthfully
//! and to write a file whole or not at all; other requests are taken to add
//! files and never to remove or rewrite one.
//!
//! The laws at the end of this module hold of every such run.

use crate::og::extraction_outcome;
use crate::og::og_of;
use crate::og::request_for;
use crate::markup::html_tree;
use crate::og::OGDataView;
use crate::og::OGErrorView;
use crate::og_manager::locations_of;
use crate::og_manager::read_result;
use crate::og_manager::ManagerErrorView;
use crate::og_manager::ReadOutcomeView;
use crate::populate::advances;
use crate::populate::after_extraction;
use crate::populate::no_favicon_address;
use crate::populate::favicon_reference;
use crate::populate::first_step;
use crate::populate::ActionView;
use crate::populate::EventView;
use crate::populate::StageView;
use crate::populate::StepView;
use crate::web_url::url_joined;
use crate::web_url::UrlView;
use vstd::prelude::*;

verus! {

/// What a file of the cache holds.
pub enum FileView {
    /// A metadata record.
    Record(OGDataView),
    /// The bytes of an image or an icon.
    Bytes(Seq<u8>),
}

/// The files of the cache, each at its location.
pub struct World {
    pub files: Map<Seq<Seq<char>>, FileView>,
}

/// `later` holds every file of `earlier`, with the same content.
pub open spec fn grown(earlier: World, later: World) -> bool {
    forall|p: Seq<Seq<char>>| #[trigger]
        earlier.files.contains_key(p) ==> later.files.contains_key(p) && later.files[p]
            == earlier.files[p]
}

/// The driver's answer to a write of `file` to a new file at `path`. Where a
/// file is in place, nothing is written. Where none is, the file is written
/// whole, or the write fails and leaves nothing.
pub open spec fn written(
    seen: World,
    path: Seq<Seq<char>>,
    file: FileView,
    event: EventView,
    left: World,
) -> bool {
    if seen.files.contains_key(path) {
        left == seen && (event is AlreadyExists || event is IoFailed)
    } else {
        (event is Done && left == World { files: seen.files.insert(path, file) }) || (event
            is IoFailed && left == seen)
    }
}

/// Whether `event` is a truthful answer to `action` in the cache `seen`, and
/// `left` the cache behind it.
pub open spec fn answers(seen: World, action: ActionView, event: EventView, left: World) -> bool {
    match action {
        ActionView::Probe(p) => left == seen && (event == EventView::Exists(
            seen.files.contains_key(p),
        ) || event is IoFailed),
        ActionView::FetchPage(_) => left == seen && (event is Page || event is RequestFailed),
        ActionView::FetchBytes(_) => left == seen && (event is Bytes || event is RequestFailed),
        ActionView::CreateDir(_) => left == seen && (event is Done || event is IoFailed),
        ActionView::StoreRecord(p, d) => written(seen, p, FileView::Record(d), event, left),
        ActionView::StoreBytes(p, b) => written(seen, p, FileView::Bytes(b), event, left),
        ActionView::Finish(_) => false,
    }
}

/// One turn of a run.
pub struct Turn {
    /// The cache in which the driver acted: the cache as the turn before left
    /// it, and what other requests added since.
    pub seen: World,
    /// What the driver reported.
    pub event: EventView,
    /// The cache as the driver left it.
    pub left: World,
    /// The step that the manager named on the report.
    pub next: StepView,
}

/// Whether `turns` is a run of the request for `url` that stands at `step`
/// in the cache `cache`, ends with `result` and leaves the cache `end`.
pub open spec fn runs(
    root: Seq<char>,
    url: UrlView,
    step: StepView,
    cache: World,
    turns: Seq<Turn>,
    result: Result<(), ManagerErrorView>,
    end: World,
) -> bool
    decreases turns.len(),
{
    if turns.len() == 0 {
        step.action == ActionView::Finish(result) && end == cache
    } else {
        let turn = turns[0];
        &&& grown(cache, turn.seen)
        &&& answers(turn.seen, step.action, turn.event, turn.left)
        &&& advances(root, url, step.stage, turn.event, turn.next)
        &&& runs(root, url, turn.next, turn.left, turns.skip(1), result, end)
    }
}

/// Whether `holds` is true of the step at which a run stands and of every
/// step that the manager names in its turns.
pub open spec fn every_step(step: StepView, turns: Seq<Turn>, holds: spec_fn(StepView) -> bool) -> bool
    decreases turns.len(),
{
    holds(step) && (turns.len() > 0 ==> every_step(turns[0].next, turns.skip(1), holds))
}

/// Whether an event reports a failure of the network or of the file system.
pub open spec fn is_fault(event: EventView) -> bool {
    event is RequestFailed || event is IoFailed
}

/// Whether an action neither sends a request nor writes: it asks whether a
/// file exists, or ends the request.
pub open spec fn is_idle(action: ActionView) -> bool {
    action is Probe || action is Finish
}

/// Whether a step is one that the manager names for the page at `url`: its
/// action is the one that belongs to its stage.
pub open spec fn coherent(root: Seq<char>, url: UrlView, step: StepView) -> bool {
    let at = locations_of(root, url);
    match step.stage {
        StageView::CheckingCache => step.action == ActionView::Probe(at.metadata_file),
        StageView::FetchingPage => step.action == ActionView::FetchPage(request_for(url)),
        StageView::CreatingDir(_) => step.action == ActionView::CreateDir(at.entry_dir),
        StageView::StoringRecord(_) => step.action matches ActionView::StoreRecord(p, _) && p
            == at.metadata_file,
        StageView::FetchingImage(i) => step.action == ActionView::FetchBytes(request_for(i)),
        StageView::StoringImage => step.action is StoreBytes,
        StageView::CheckingFavicon => step.action == ActionView::Probe(at.favicon_file),
        StageView::FetchingFavicon => step.action is FetchBytes,
        StageView::StoringFavicon => step.action matches ActionView::StoreBytes(p, _) && p
            == at.favicon_file,
        StageView::Finished => step.action is Finish,
    }
}

/// Whether a stage lies behind the writing of the record.
pub open spec fn past_record(stage: StageView) -> bool {
    stage is FetchingImage || stage is StoringImage || stage is CheckingFavicon || stage
        is FetchingFavicon || stage is StoringFavicon
}

/// A truthful turn leaves every file in place.
pub proof fn lemma_turn_keeps_files(seen: World, action: ActionView, event: EventView, left: World)
    requires
        answers(seen, action, event, left),
    ensures
        grown(seen, left),
{
}

/// A truthful turn of a coherent step is followed by a coherent step.
pub proof fn lemma_turn_coherent(
    root: Seq<char>,
    url: UrlView,
    step: StepView,
    seen: World,
    event: EventView,
    left: World,
    next: StepView,
)
    requires
        coherent(root, url, step),
        answers(seen, step.action, event, left),
        advances(root, url, step.stage, event, next),
    ensures
        coherent(root, url, next),
{
}

/// A run leaves every file in place: what was in the cache when it began is
/// there when it ends, with the same content.
pub proof fn lemma_run_keeps_files(
    root: Seq<char>,
    url: UrlView,
    step: StepView,
    cache: World,
    turns: Seq<Turn>,
    result: Result<(), ManagerErrorView>,
    end: World,
)
    requires
        runs(root, url, step, cache, turns, result, end),
    ensures
        grown(cache, end),
    decreases turns.len(),
{
    if turns.len() > 0 {
        let turn = turns[0];
        lemma_turn_keeps_files(turn.seen, step.action, turn.event, turn.left);
        lemma_run_keeps_files(root, url, turn.next, turn.left, turns.skip(1), result, end);
    }
}

/// Whether the record is known to be in place at a step: it is behind every
/// stage that follows its writing, and behind a success.
pub open spec fn record_settled(root: Seq<char>, url: UrlView, step: StepView, cache: World) -> bool {
    (past_record(step.stage) || step.action == ActionView::Finish(Ok(())))
        ==> cache.files.contains_key(locations_of(root, url).metadata_file)
}

/// A run that ends in success leaves the record in place, from whatever
/// coherent step it is taken up.
proof fn lemma_success_settles_record(
    root: Seq<char>,
    url: UrlView,
    step: StepView,
    cache: World,
    turns: Seq<Turn>,
    end: World,
)
    requires
        runs(root, url, step, cache, turns, Ok(()), end),
        coherent(root, url, step),
        record_settled(root, url, step, cache),
    ensures
        end.files.contains_key(locations_of(root, url).metadata_file),
    decreases turns.len(),
{
    if turns.len() > 0 {
        let turn = turns[0];
        lemma_turn_coherent(root, url, step, turn.seen, turn.event, turn.left, turn.next);
        lemma_turn_keeps_files(turn.seen, step.action, turn.event, turn.left);
        assert(record_settled(root, url, turn.next, turn.left));
        lemma_success_settles_record(root, url, turn.next, turn.left, turns.skip(1), end);
    }
}

/// A request that succeeds leaves the page's record in the cache.
pub proof fn lemma_success_leaves_record(
    root: Seq<char>,
    url: UrlView,
    cache: World,
    turns: Seq<Turn>,
    end: World,
)
    requires
        runs(root, url, first_step(root, url), cache, turns, Ok(()), end),
    ensures
        end.files.contains_key(locations_of(root, url).metadata_file),
{
    lemma_success_settles_record(root, url, first_step(root, url), cache, turns, end);
}

/// A request for a page whose record is in the cache asks one question,
/// whether the record exists, and then ends. It sends no request and writes
/// nothing; it succeeds unless the question itself fails.
pub proof fn lemma_cached_page_is_served(
    root: Seq<char>,
    url: UrlView,
    cache: World,
    turns: Seq<Turn>,
    result: Result<(), ManagerErrorView>,
    end: World,
)
    requires
        runs(root, url, first_step(root, url), cache, turns, result, end),
        cache.files.contains_key(locations_of(root, url).metadata_file),
    ensures
        turns.len() == 1,
        every_step(first_step(root, url), turns, |s: StepView| is_idle(s.action)),
        turns[0].left == turns[0].seen,
        end == turns[0].left,
        turns[0].event is IoFailed || result == Ok::<(), ManagerErrorView>(()),
        end.files[locations_of(root, url).metadata_file] == cache.files[locations_of(
            root,
            url,
        ).metadata_file],
{
    let first = first_step(root, url);
    let idle = |s: StepView| is_idle(s.action);
    assert(turns.len() > 0);
    let turn = turns[0];
    let rest = turns.skip(1);
    assert(turn.next.action is Finish);
    assert(runs(root, url, turn.next, turn.left, rest, result, end));
    if rest.len() > 0 {
        assert(answers(rest[0].seen, turn.next.action, rest[0].event, rest[0].left));
    }
    assert(every_step(turn.next, rest, idle));
    assert(every_step(first, turns, idle));
}

/// Write once: after a request for a page has succeeded, a later request for
/// the same page, in the cache that the first left or in any that has grown
/// from it, sends no request, writes nothing, and leaves the record as the
/// first request left it.
pub proof fn lemma_write_once(
    root: Seq<char>,
    url: UrlView,
    cache: World,
    turns: Seq<Turn>,
    end: World,
    later: World,
    again: Seq<Turn>,
    result: Result<(), ManagerErrorView>,
    last: World,
)
    requires
        runs(root, url, first_step(root, url), cache, turns, Ok(()), end),
        grown(end, later),
        runs(root, url, first_step(root, url), later, again, result, last),
    ensures
        again.len() == 1,
        every_step(first_step(root, url), again, |s: StepView| is_idle(s.action)),
        again[0].left == again[0].seen,
        last == again[0].left,
        last.files.contains_key(locations_of(root, url).metadata_file),
        last.files[locations_of(root, url).metadata_file] == end.files[locations_of(
            root,
            url,
        ).metadata_file],
        again[0].event is IoFailed || result == Ok::<(), ManagerErrorView>(()),
{
    lemma_success_leaves_record(root, url, cache, turns, end);
    lemma_cached_page_is_served(root, url, later, again, result, last);
    lemma_run_keeps_files(root, url, first_step(root, url), later, again, result, last);
}

/// Whether a result is one for which the cache is not to blame: success, a
/// page that the parser refused, or a page whose URL names no place for an
/// icon.
pub open spec fn blameless(url: UrlView, result: Result<(), ManagerErrorView>) -> bool {
    match result {
        Ok(_) => true,
        Err(ManagerErrorView::OGError(OGErrorView::HTMLError(_))) => true,
        Err(e) => e == no_favicon_address() && url_joined(url.href, favicon_reference()) is None,
    }
}

/// A run without a fault ends blamelessly, from whatever coherent step it is
/// taken up.
proof fn lemma_faultless_from(
    root: Seq<char>,
    url: UrlView,
    step: StepView,
    cache: World,
    turns: Seq<Turn>,
    result: Result<(), ManagerErrorView>,
    end: World,
)
    requires
        runs(root, url, step, cache, turns, result, end),
        coherent(root, url, step),
        step.action matches ActionView::Finish(r) ==> blameless(url, r),
        forall|i: int| 0 <= i < turns.len() ==> !is_fault(#[trigger] turns[i].event),
    ensures
        blameless(url, result),
    decreases turns.len(),
{
    if turns.len() > 0 {
        let turn = turns[0];
        let rest = turns.skip(1);
        lemma_turn_coherent(root, url, step, turn.seen, turn.event, turn.left, turn.next);
        assert(!is_fault(turn.event));
        assert(turn.next.action matches ActionView::Finish(r) ==> blameless(url, r));
        assert forall|i: int| 0 <= i < rest.len() implies !is_fault(#[trigger] rest[i].event) by {
            assert(rest[i] == turns[i + 1]);
        }
        lemma_faultless_from(root, url, turn.next, turn.left, rest, result, end);
    }
}

/// No request fails because another got there first. A request whose driver
/// reports no failure of the network or of the file system succeeds, whatever
/// other requests write to the cache while it runs, the same page's among
/// them: a file that it finds in place counts as written. The exceptions lie
/// outside the cache: a page that the parser refuses, and a page whose URL
/// names no place for an icon.
pub proof fn lemma_races_are_benign(
    root: Seq<char>,
    url: UrlView,
    cache: World,
    turns: Seq<Turn>,
    result: Result<(), ManagerErrorView>,
    end: World,
)
    requires
        runs(root, url, first_step(root, url), cache, turns, result, end),
        forall|i: int| 0 <= i < turns.len() ==> !is_fault(#[trigger] turns[i].event),
    ensures
        blameless(url, result),
        result == Ok::<(), ManagerErrorView>(()) ==> end.files.contains_key(
            locations_of(root, url).metadata_file,
        ),
        grown(cache, end),
{
    lemma_faultless_from(root, url, first_step(root, url), cache, turns, result, end);
    lemma_run_keeps_files(root, url, first_step(root, url), cache, turns, result, end);
    if result == Ok::<(), ManagerErrorView>(()) {
        lemma_success_leaves_record(root, url, cache, turns, end);
    }
}

/// One move of two requests that run side by side: one of the two takes a
/// turn, in the cache as the moves before have left it.
pub struct Move {
    /// Whether the first of the two requests moves, or the second.
    pub by_first: bool,
    /// What the driver reported.
    pub event: EventView,
    /// The cache as the driver left it.
    pub left: World,
    /// The step that the manager named on the report.
    pub next: StepView,
}

/// Whether `moves` is a joint run of two requests for `url` that stand at
/// `first` and `second` in the cache `cache`, end with their two results and
/// leave the cache `end`. The moves of the two may alternate in any way.
pub open spec fn races(
    root: Seq<char>,
    url: UrlView,
    first: StepView,
    second: StepView,
    cache: World,
    moves: Seq<Move>,
    first_result: Result<(), ManagerErrorView>,
    second_result: Result<(), ManagerErrorView>,
    end: World,
) -> bool
    decreases moves.len(),
{
    if moves.len() == 0 {
        &&& first.action == ActionView::Finish(first_result)
        &&& second.action == ActionView::Finish(second_result)
        &&& end == cache
    } else {
        let m = moves[0];
        if m.by_first {
            &&& answers(cache, first.action, m.event, m.left)
            &&& advances(root, url, first.stage, m.event, m.next)
            &&& races(
                root,
                url,
                m.next,
                second,
                m.left,
                moves.skip(1),
                first_result,
                second_result,
                end,
            )
        } else {
            &&& answers(cache, second.action, m.event, m.left)
            &&& advances(root, url, second.stage, m.event, m.next)
            &&& races(
                root,
                url,
                first,
                m.next,
                m.left,
                moves.skip(1),
                first_result,
                second_result,
                end,
            )
        }
    }
}

/// Whether the file at the place of the page's record, if there is one, holds
/// a record.
pub open spec fn record_is_valid(root: Seq<char>, url: UrlView, cache: World) -> bool {
    cache.files.contains_key(locations_of(root, url).metadata_file) ==> cache.files[locations_of(
        root,
        url,
    ).metadata_file] is Record
}

/// A truthful turn of a coherent step keeps the record settled and valid.
proof fn lemma_turn_keeps_record(
    root: Seq<char>,
    url: UrlView,
    step: StepView,
    seen: World,
    event: EventView,
    left: World,
    next: StepView,
)
    requires
        coherent(root, url, step),
        record_settled(root, url, step, seen),
        record_is_valid(root, url, seen),
        answers(seen, step.action, event, left),
        advances(root, url, step.stage, event, next),
    ensures
        coherent(root, url, next),
        record_settled(root, url, next, left),
        record_is_valid(root, url, left),
        grown(seen, left),
        !is_fault(event) ==> (next.action matches ActionView::Finish(r) ==> blameless(url, r)),
{
}

/// Two requests that run side by side without a fault both end blamelessly,
/// from whatever coherent steps the joint run is taken up.
proof fn lemma_race_from(
    root: Seq<char>,
    url: UrlView,
    first: StepView,
    second: StepView,
    cache: World,
    moves: Seq<Move>,
    first_result: Result<(), ManagerErrorView>,
    second_result: Result<(), ManagerErrorView>,
    end: World,
)
    requires
        races(root, url, first, second, cache, moves, first_result, second_result, end),
        coherent(root, url, first),
        coherent(root, url, second),
        record_settled(root, url, first, cache),
        record_settled(root, url, second, cache),
        record_is_valid(root, url, cache),
        first.action matches ActionView::Finish(r) ==> blameless(url, r),
        second.action matches ActionView::Finish(r) ==> blameless(url, r),
        forall|i: int| 0 <= i < moves.len() ==> !is_fault(#[trigger] moves[i].event),
    ensures
        blameless(url, first_result),
        blameless(url, second_result),
        first_result == Ok::<(), ManagerErrorView>(()) || second_result == Ok::<
            (),
            ManagerErrorView,
        >(()) ==> end.files.contains_key(locations_of(root, url).metadata_file),
        record_is_valid(root, url, end),
        grown(cache, end),
    decreases moves.len(),
{
    if moves.len() > 0 {
        let m = moves[0];
        let rest = moves.skip(1);
        assert(!is_fault(m.event));
        assert forall|i: int| 0 <= i < rest.len() implies !is_fault(#[trigger] rest[i].event) by {
            assert(rest[i] == moves[i + 1]);
        }
        if m.by_first {
            lemma_turn_keeps_record(root, url, first, cache, m.event, m.left, m.next);
            assert(record_settled(root, url, second, m.left));
            lemma_race_from(root, url, m.next, second, m.left, rest, first_result, second_result, end);
        } else {
            lemma_turn_keeps_record(root, url, second, cache, m.event, m.left, m.next);
            assert(record_settled(root, url, first, m.left));
            lemma_race_from(root, url, first, m.next, m.left, rest, first_result, second_result, end);
        }
    }
}

/// Two requests for one page that is not cached, started together and run
/// side by side in any order of their turns, both succeed where the driver
/// reports no failure of the network or of the file system, the page parses
/// and its URL names a place for an icon. Whichever of the two writes the
/// record first, the other finds it in place and goes on. Afterwards one file
/// stands at the place of the record, and it holds a record; what was in the
/// cache before is still there.
pub proof fn lemma_racing_requests_succeed(
    root: Seq<char>,
    url: UrlView,
    cache: World,
    moves: Seq<Move>,
    first_result: Result<(), ManagerErrorView>,
    second_result: Result<(), ManagerErrorView>,
    end: World,
)
    requires
        !cache.files.contains_key(locations_of(root, url).metadata_file),
        races(
            root,
            url,
            first_step(root, url),
            first_step(root, url),
            cache,
            moves,
            first_result,
            second_result,
            end,
        ),
        forall|i: int| 0 <= i < moves.len() ==> !is_fault(#[trigger] moves[i].event),
    ensures
        blameless(url, first_result),
        blameless(url, second_result),
        first_result == Ok::<(), ManagerErrorView>(()) || second_result == Ok::<
            (),
            ManagerErrorView,
        >(()) ==> end.files.contains_key(locations_of(root, url).metadata_file)
            && end.files[locations_of(root, url).metadata_file] is Record,
        grown(cache, end),
{
    lemma_race_from(
        root,
        url,
        first_step(root, url),
        first_step(root, url),
        cache,
        moves,
        first_result,
        second_result,
        end,
    );
}

/// Whether a step asks for the host's icon to be fetched or written.
pub open spec fn touches_favicon(step: StepView) -> bool {
    step.stage is FetchingFavicon || step.stage is StoringFavicon
}

/// In a cache that holds the host's icon, a run never asks for the icon, from
/// whatever coherent step it is taken up.
proof fn lemma_cached_favicon_from(
    root: Seq<char>,
    url: UrlView,
    step: StepView,
    cache: World,
    turns: Seq<Turn>,
    result: Result<(), ManagerErrorView>,
    end: World,
)
    requires
        runs(root, url, step, cache, turns, result, end),
        coherent(root, url, step),
        !touches_favicon(step),
        cache.files.contains_key(locations_of(root, url).favicon_file),
    ensures
        every_step(step, turns, |s: StepView| !touches_favicon(s)),
    decreases turns.len(),
{
    if turns.len() > 0 {
        let turn = turns[0];
        lemma_turn_coherent(root, url, step, turn.seen, turn.event, turn.left, turn.next);
        lemma_turn_keeps_files(turn.seen, step.action, turn.event, turn.left);
        lemma_cached_favicon_from(root, url, turn.next, turn.left, turns.skip(1), result, end);
    }
}

/// A host's icon that is in the cache is never fetched again: a request for
/// any page of that host neither asks for the icon nor writes it.
pub proof fn lemma_cached_favicon_is_kept(
    root: Seq<char>,
    url: UrlView,
    cache: World,
    turns: Seq<Turn>,
    result: Result<(), ManagerErrorView>,
    end: World,
)
    requires
        runs(root, url, first_step(root, url), cache, turns, result, end),
        cache.files.contains_key(locations_of(root, url).favicon_file),
    ensures
        every_step(first_step(root, url), turns, |s: StepView| !touches_favicon(s)),
{
    lemma_cached_favicon_from(root, url, first_step(root, url), cache, turns, result, end);
}

/// A run that ends in success leaves the host's icon in place, from whatever
/// coherent step behind the first question it is taken up.
proof fn lemma_success_settles_favicon(
    root: Seq<char>,
    url: UrlView,
    step: StepView,
    cache: World,
    turns: Seq<Turn>,
    end: World,
)
    requires
        runs(root, url, step, cache, turns, Ok(()), end),
        coherent(root, url, step),
        !(step.stage is CheckingCache),
        step.action == ActionView::Finish(Ok(())) ==> cache.files.contains_key(
            locations_of(root, url).favicon_file,
        ),
    ensures
        end.files.contains_key(locations_of(root, url).favicon_file),
    decreases turns.len(),
{
    if turns.len() > 0 {
        let turn = turns[0];
        lemma_turn_coherent(root, url, step, turn.seen, turn.event, turn.left, turn.next);
        lemma_success_settles_favicon(root, url, turn.next, turn.left, turns.skip(1), end);
    }
}

/// A request that finds no record and succeeds leaves the host's icon in the
/// cache.
pub proof fn lemma_success_leaves_favicon(
    root: Seq<char>,
    url: UrlView,
    cache: World,
    turns: Seq<Turn>,
    end: World,
)
    requires
        runs(root, url, first_step(root, url), cache, turns, Ok(()), end),
        turns.len() > 0,
        turns[0].event == EventView::Exists(false),
    ensures
        end.files.contains_key(locations_of(root, url).favicon_file),
{
    let turn = turns[0];
    lemma_turn_coherent(
        root,
        url,
        first_step(root, url),
        turn.seen,
        turn.event,
        turn.left,
        turn.next,
    );
    lemma_success_settles_favicon(root, url, turn.next, turn.left, turns.skip(1), end);
}

/// The icon belongs to the host: two pages of one host share the icon's
/// location, whatever their paths and queries.
pub proof fn lemma_favicon_belongs_to_host(root: Seq<char>, a: UrlView, b: UrlView)
    requires
        a.host == b.host,
    ensures
        locations_of(root, a).favicon_file == locations_of(root, b).favicon_file,
        locations_of(root, a).host_dir == locations_of(root, b).host_dir,
{
}

/// One icon for one host: after a request that found no record for page `a`
/// has succeeded, a request for a page `b` of the same host, in the cache
/// that the first left or in any that has grown from it, neither fetches the
/// icon nor writes it.
pub proof fn lemma_favicon_fetched_once(
    root: Seq<char>,
    a: UrlView,
    b: UrlView,
    cache: World,
    turns: Seq<Turn>,
    end: World,
    later: World,
    again: Seq<Turn>,
    result: Result<(), ManagerErrorView>,
    last: World,
)
    requires
        a.host == b.host,
        runs(root, a, first_step(root, a), cache, turns, Ok(()), end),
        turns.len() > 0,
        turns[0].event == EventView::Exists(false),
        grown(end, later),
        runs(root, b, first_step(root, b), later, again, result, last),
    ensures
        every_step(first_step(root, b), again, |s: StepView| !touches_favicon(s)),
{
    lemma_success_leaves_favicon(root, a, cache, turns, end);
    lemma_favicon_belongs_to_host(root, a, b);
    lemma_cached_favicon_is_kept(root, b, later, again, result, last);
}

/// Whether `outcome` is a truthful report of a read of the file at `path`.
/// A read may fail for reasons of its own; where it does not, it finds the
/// record that the file holds, or tells a missing file from one that holds
/// no record.
pub open spec fn reads(cache: World, path: Seq<Seq<char>>, outcome: ReadOutcomeView) -> bool {
    match outcome {
        ReadOutcomeView::Found(d) => cache.files.contains_key(path) && cache.files[path]
            == FileView::Record(d),
        ReadOutcomeView::Missing(_) => !cache.files.contains_key(path),
        ReadOutcomeView::Corrupt(_) => cache.files.contains_key(path) && cache.files[path]
            is Bytes,
        ReadOutcomeView::Unreadable(_) => true,
    }
}

/// Whether no other request wrote to the cache while the run went on: each
/// turn sees the cache as the turn before left it.
pub open spec fn undisturbed(cache: World, turns: Seq<Turn>) -> bool
    decreases turns.len(),
{
    turns.len() > 0 ==> turns[0].seen == cache && undisturbed(turns[0].left, turns.skip(1))
}

/// The record that a run extracted from the page it fetched: the one that its
/// second turn, the fetching of the page, ends with.
pub open spec fn extracted_in(turns: Seq<Turn>) -> OGDataView {
    turns[1].next.stage->CreatingDir_0
}

/// Round trip: a request that finds no record, is not disturbed and succeeds
/// has fetched the page in its second turn, has extracted from it the record
/// of the document that the page parses to, and leaves that record in the
/// page's metadata file. Whoever reads the file
/// afterwards, in that cache or in any that has grown from it, is given the
/// same record, unless the read itself fails.
pub proof fn lemma_round_trip(
    root: Seq<char>,
    url: UrlView,
    cache: World,
    turns: Seq<Turn>,
    end: World,
    later: World,
    outcome: ReadOutcomeView,
)
    requires
        runs(root, url, first_step(root, url), cache, turns, Ok(()), end),
        turns.len() > 0,
        turns[0].event == EventView::Exists(false),
        undisturbed(cache, turns),
        grown(end, later),
        reads(later, locations_of(root, url).metadata_file, outcome),
    ensures
        turns.len() >= 4,
        turns[1].event is Page,
        turns[1].next.stage is CreatingDir,
        html_tree(turns[1].event->Page_0) matches Some(nodes) && extracted_in(turns) == og_of(
            nodes,
            url,
        ),
        end.files[locations_of(root, url).metadata_file] == FileView::Record(extracted_in(turns)),
        outcome is Unreadable || read_result(outcome) == Ok::<OGDataView, ManagerErrorView>(
            extracted_in(turns),
        ),
{
    let file = locations_of(root, url).metadata_file;
    let t0 = turns[0];
    let rest1 = turns.skip(1);
    assert(t0.next.stage is FetchingPage);
    assert(runs(root, url, t0.next, t0.left, rest1, Ok(()), end));
    assert(undisturbed(t0.left, rest1));
    assert(rest1.len() > 0);
    let t1 = rest1[0];
    assert(t1 == turns[1]);
    let rest2 = rest1.skip(1);
    assert(runs(root, url, t1.next, t1.left, rest2, Ok(()), end));
    assert(undisturbed(t1.left, rest2));
    assert(t1.event is Page);
    let outcome1 = choose|o: Result<OGDataView, OGErrorView>|
        extraction_outcome(o, t1.event->Page_0, url) && t1.next == #[trigger] after_extraction(
            root,
            url,
            o,
        );
    if outcome1 is Err {
        assert(t1.next.action is Finish);
        if rest2.len() > 0 {
            assert(answers(rest2[0].seen, t1.next.action, rest2[0].event, rest2[0].left));
        }
        assert(false);
    }
    assert(t1.next.stage is CreatingDir);
    let data = extracted_in(turns);
    assert(outcome1 == Ok::<OGDataView, OGErrorView>(data));
    assert(rest2.len() > 0);
    let t2 = rest2[0];
    let rest3 = rest2.skip(1);
    assert(runs(root, url, t2.next, t2.left, rest3, Ok(()), end));
    assert(undisturbed(t2.left, rest3));
    if !(t2.event is Done) {
        assert(t2.next.action is Finish);
        if rest3.len() > 0 {
            assert(answers(rest3[0].seen, t2.next.action, rest3[0].event, rest3[0].left));
        }
        assert(false);
    }
    assert(rest3.len() > 0);
    let t3 = rest3[0];
    let rest4 = rest3.skip(1);
    assert(runs(root, url, t3.next, t3.left, rest4, Ok(()), end));
    assert(t3.seen == cache);
    if !(t3.event is Done) {
        assert(t3.next.action is Finish);
        if rest4.len() > 0 {
            assert(answers(rest4[0].seen, t3.next.action, rest4[0].event, rest4[0].left));
        }
        assert(false);
    }
    assert(t3.left.files[file] == FileView::Record(data));
    lemma_run_keeps_files(root, url, t3.next, t3.left, rest4, Ok(()), end);
    assert(t3.left.files.contains_key(file));
    assert(end.files.contains_key(file));
    assert(later.files[file] == FileView::Record(data));
}

} // verus!
