//! What holds of every run, whatever the outside world answers.
//!
//! A run is the machine of [`crate::model`] fed a sequence of events. The
//! laws speak of the state after each prefix of that sequence, and of the
//! request made in it.

use crate::assets::{first_match, lemma_no_match};
use crate::error::ErrorView;
use crate::layout::{PAGE_PATTERN, SCRIPT_PATTERN};
use crate::model::{advance, initial, request, EventView, Outcome, StateView};
use crate::patch::{lemma_edit_is_detected, localized};
use crate::version::ManifestView;
use vstd::prelude::*;

verus! {

/// The state reached from `state` after taking in `events` in order.
pub open spec fn run(state: StateView, events: Seq<EventView>) -> StateView
    decreases events.len(),
{
    if events.len() == 0 {
        state
    } else {
        advance(run(state, events.drop_last()), events.last())
    }
}

/// The state of a run from the start after the first `n` of `events`.
pub open spec fn state_after(events: Seq<EventView>, n: int) -> StateView {
    run(initial(), events.take(n))
}

/// How far a run has come. The fallback of listing the cache stands before
/// the reading of the manifest, so that a run which reads the manifest is
/// past it.
pub open spec fn stage(state: StateView) -> nat {
    match state {
        StateView::LocatingRoot => 0,
        StateView::ProbingCache => 1,
        StateView::ProbingManifest => 2,
        StateView::ListingVersions => 3,
        StateView::ReadingManifest => 4,
        StateView::FindingScript { .. } => 5,
        StateView::FindingPage { .. } => 6,
        StateView::ReadingPage { .. } => 7,
        StateView::WritingPage { .. } => 8,
        StateView::Finished(_) => 9,
    }
}

/// `event` is an answer to the request made in `state`.
pub open spec fn answers(state: StateView, event: EventView) -> bool {
    match (state, event) {
        (StateView::LocatingRoot, EventView::DataRoot(_)) => true,
        (StateView::ProbingCache, EventView::Exists(_)) => true,
        (StateView::ProbingManifest, EventView::Exists(_)) => true,
        (StateView::ReadingManifest, EventView::Manifest(_)) => true,
        (StateView::ListingVersions, EventView::Listing(_)) => true,
        (StateView::FindingScript { .. }, EventView::Matches(_)) => true,
        (StateView::FindingPage { .. }, EventView::Matches(_)) => true,
        (StateView::ReadingPage { .. }, EventView::Text(_)) => true,
        (StateView::WritingPage { .. }, EventView::Written(_)) => true,
        _ => false,
    }
}

/// No write is requested in any state that `events` lead through.
pub open spec fn never_writes(events: Seq<EventView>) -> bool {
    forall|n: int|
        0 <= n <= events.len() ==> !(#[trigger] request(state_after(events, n))
            is WriteText)
}

/// No listing of a directory is requested in any state that `events` lead
/// through.
pub open spec fn never_lists(events: Seq<EventView>) -> bool {
    forall|n: int|
        0 <= n <= events.len() ==> !(#[trigger] request(state_after(events, n)) is ListDir)
}

/// An event never takes a run back, and a finished run stays as it is.
pub proof fn lemma_advance_goes_forward(state: StateView, event: EventView)
    ensures
        stage(state) <= stage(advance(state, event)),
        state is Finished ==> advance(state, event) == state,
{
}

/// Every answer takes the run further, so that a run whose requests are
/// answered finishes after nine answers at most; any other event is ignored.
pub proof fn law_answers_advance(state: StateView, event: EventView)
    ensures
        answers(state, event) ==> stage(state) < stage(advance(state, event)),
        !answers(state, event) ==> advance(state, event) == state,
{
}

/// The state after one more event is the successor of the state before it.
pub proof fn lemma_state_after_next(events: Seq<EventView>, n: int)
    requires
        0 <= n < events.len(),
    ensures
        state_after(events, n + 1) == advance(state_after(events, n), events[n]),
{
    assert(events.take(n + 1).drop_last() =~= events.take(n));
}

/// The state after all events is where the run ends.
pub proof fn lemma_state_after_all(events: Seq<EventView>)
    ensures
        state_after(events, events.len() as int) == run(initial(), events),
{
    assert(events.take(events.len() as int) =~= events);
}

/// A run is never further along after fewer events.
pub proof fn lemma_stage_monotone(events: Seq<EventView>, early: int, late: int)
    requires
        0 <= early <= late <= events.len(),
    ensures
        stage(state_after(events, early)) <= stage(state_after(events, late)),
    decreases late - early,
{
    if early < late {
        lemma_stage_monotone(events, early, late - 1);
        lemma_state_after_next(events, late - 1);
        lemma_advance_goes_forward(state_after(events, late - 1), events[late - 1]);
    }
}

/// Once a run has finished, later events change nothing.
pub proof fn lemma_finished_stays(events: Seq<EventView>, early: int, late: int)
    requires
        0 <= early <= late <= events.len(),
        state_after(events, early) is Finished,
    ensures
        state_after(events, late) == state_after(events, early),
    decreases late - early,
{
    if early < late {
        lemma_finished_stays(events, early, late - 1);
        lemma_state_after_next(events, late - 1);
        lemma_advance_goes_forward(state_after(events, late - 1), events[late - 1]);
    }
}

/// A run that finishes on event `at`, before it has come to writing, never
/// asks for a write and ends in the state that event `at` led to.
pub proof fn lemma_early_finish_never_writes(events: Seq<EventView>, at: int)
    requires
        0 <= at < events.len(),
        stage(state_after(events, at)) < 8,
        state_after(events, at + 1) is Finished,
    ensures
        never_writes(events),
        run(initial(), events) == state_after(events, at + 1),
{
    assert forall|n: int| 0 <= n <= events.len() implies !(#[trigger] request(
        state_after(events, n),
    ) is WriteText) by {
        if n <= at {
            lemma_stage_monotone(events, n, at);
        } else {
            lemma_finished_stays(events, at + 1, n);
        }
    }
    lemma_finished_stays(events, at + 1, events.len() as int);
    lemma_state_after_all(events);
}

/// Nothing is written where a search comes back without a usable match: if
/// the answer to the search for the locale script or for the entry page
/// holds no match that could be read, the run ends with the pattern reported
/// as not found and has at no time asked for a write.
pub proof fn law_glob_miss_never_writes(events: Seq<EventView>, at: int)
    requires
        0 <= at < events.len(),
        state_after(events, at) is FindingScript || state_after(events, at) is FindingPage,
        events[at] matches EventView::Matches(matches) && first_match(matches) is None,
    ensures
        never_writes(events),
        state_after(events, at) is FindingScript ==> run(initial(), events)
            == StateView::Finished(Err(ErrorView::AssetNotFound(SCRIPT_PATTERN@))),
        state_after(events, at) is FindingPage ==> run(initial(), events) == StateView::Finished(
            Err(ErrorView::AssetNotFound(PAGE_PATTERN@)),
        ),
{
    lemma_state_after_next(events, at);
    lemma_early_finish_never_writes(events, at);
}

/// Nothing is written where a pattern matches no file: if the search for
/// the locale script or for the entry page comes back empty, the run ends
/// with the pattern reported as not found and has at no time asked for a
/// write, so that the entry page is as it was.
pub proof fn law_zero_matches_never_write(events: Seq<EventView>, at: int)
    requires
        0 <= at < events.len(),
        state_after(events, at) is FindingScript || state_after(events, at) is FindingPage,
        events[at] matches EventView::Matches(matches) && matches.len() == 0,
    ensures
        never_writes(events),
        state_after(events, at) is FindingScript ==> run(initial(), events)
            == StateView::Finished(Err(ErrorView::AssetNotFound(SCRIPT_PATTERN@))),
        state_after(events, at) is FindingPage ==> run(initial(), events) == StateView::Finished(
            Err(ErrorView::AssetNotFound(PAGE_PATTERN@)),
        ),
{
    lemma_no_match(events[at]->Matches_0);
    law_glob_miss_never_writes(events, at);
}

/// Nothing is written where the application is not installed: if the asset
/// cache directory is reported missing, the run ends with
/// [`ErrorView::NotInstalled`] and has at no time asked for a write.
pub proof fn law_missing_cache_never_writes(events: Seq<EventView>, at: int)
    requires
        0 <= at < events.len(),
        state_after(events, at) is ProbingCache,
        events[at] == EventView::Exists(false),
    ensures
        never_writes(events),
        run(initial(), events) == StateView::Finished(Err(ErrorView::NotInstalled)),
{
    lemma_state_after_next(events, at);
    lemma_early_finish_never_writes(events, at);
}

/// The manifest takes precedence: once the manifest is reported present and
/// read, the version is the one it names, and at no time in the run is the
/// cache listed for version directories, whatever it holds.
pub proof fn law_manifest_precedence(events: Seq<EventView>, at: int, manifest: ManifestView)
    requires
        0 <= at,
        at + 1 < events.len(),
        state_after(events, at) is ProbingManifest,
        events[at] == EventView::Exists(true),
        events[at + 1] == EventView::Manifest(Ok(manifest)),
    ensures
        state_after(events, at + 2) == (StateView::FindingScript { version: manifest.version }),
        never_lists(events),
{
    lemma_state_after_next(events, at);
    lemma_state_after_next(events, at + 1);
    assert forall|n: int| 0 <= n <= events.len() implies !(#[trigger] request(
        state_after(events, n),
    ) is ListDir) by {
        if n <= at {
            lemma_stage_monotone(events, n, at);
        } else {
            lemma_stage_monotone(events, at + 1, n);
        }
    }
}

/// A second run changes nothing: a run that reads the entry page as an
/// earlier run with the same locale script left it either finishes with
/// [`Outcome::AlreadyLocalized`] or asks to write the content that the page
/// has already.
pub proof fn law_rerun_keeps_content(
    version: Seq<char>,
    script: Seq<char>,
    page: Seq<char>,
    html: Seq<char>,
)
    ensures
        match advance(
            StateView::ReadingPage { version, script, page },
            EventView::Text(Ok(localized(html, script))),
        ) {
            StateView::Finished(result) => result == Ok::<Outcome, ErrorView>(
                Outcome::AlreadyLocalized,
            ),
            StateView::WritingPage { content, .. } => content == localized(html, script),
            _ => false,
        },
{
    lemma_edit_is_detected(html, script);
}

} // verus!
