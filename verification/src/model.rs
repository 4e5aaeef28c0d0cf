//! The run as a state machine over mathematical values.
//!
//! A run is a dialogue. In every state the machine has one request to the
//! outside world, [`request`]; the answer is an event, and [`advance`] gives
//! the state that follows. The first failure ends the run, and a finished
//! run stays finished.

use crate::assets::{first_match, MatchesView};
use crate::error::ErrorView;
use crate::layout::{
    asset_cache_dir, asset_path, manifest_path, versioned_asset_dir, PAGE_PATTERN, SCRIPT_PATTERN,
};
use crate::patch::{already_localized, localized};
use crate::version::{subdirectory, ListingView, ManifestView};
use vstd::prelude::*;

verus! {

/// How a run ended where it did not fail.
#[derive(Debug, Clone, Copy, PartialEq, Eq, Structural)]
pub enum Outcome {
    /// The entry page was rewritten and now loads the locale script.
    Localized,
    /// The entry page loaded the locale script already; nothing was written.
    AlreadyLocalized,
}

/// Why a file gave no content.
#[derive(Debug, Clone, Copy, PartialEq, Eq, Structural)]
pub enum ReadFault {
    /// The file could not be read.
    Unreadable,
    /// The file was read, and its bytes are not what the reader expects.
    Malformed,
}

/// The model of a state of the run.
pub enum StateView {
    /// Asking for the platform's application data directory.
    LocatingRoot,
    /// Asking whether the asset cache directory exists.
    ProbingCache,
    /// Asking whether the version manifest exists.
    ProbingManifest,
    /// Asking for the content of the version manifest.
    ReadingManifest,
    /// Asking for a listing of the asset cache directory.
    ListingVersions,
    /// Asking which files match the pattern of the locale script.
    FindingScript { version: Seq<char> },
    /// Asking which files match the pattern of the entry page.
    FindingPage { version: Seq<char>, script: Seq<char> },
    /// Asking for the content of the entry page.
    ReadingPage { version: Seq<char>, script: Seq<char>, page: Seq<char> },
    /// Asking for the entry page to be overwritten.
    WritingPage { version: Seq<char>, page: Seq<char>, content: Seq<char> },
    /// The run is over.
    Finished(Result<Outcome, ErrorView>),
}

/// The model of an answer from the outside world.
pub enum EventView {
    /// Whether the platform's application data directory is known.
    DataRoot(bool),
    /// Whether the file or directory asked about exists.
    Exists(bool),
    /// The version manifest as read and parsed.
    Manifest(Result<ManifestView, ReadFault>),
    /// The listing of a directory; `None` where it could not be opened.
    Listing(Option<ListingView>),
    /// What a pattern matched.
    Matches(MatchesView),
    /// The content of a text file.
    Text(Result<Seq<char>, ReadFault>),
    /// Whether the write succeeded.
    Written(bool),
}

/// The model of a request to the outside world. Locations are lists of
/// names below the platform's application data directory.
pub enum ActionView {
    LocateDataRoot,
    Probe(Seq<Seq<char>>),
    ReadManifest(Seq<Seq<char>>),
    ListDir(Seq<Seq<char>>),
    Glob { dir: Seq<Seq<char>>, pattern: Seq<char> },
    ReadText(Seq<Seq<char>>),
    WriteText { path: Seq<Seq<char>>, content: Seq<char> },
    Finish(Result<Outcome, ErrorView>),
}

/// The state in which every run starts.
pub open spec fn initial() -> StateView {
    StateView::LocatingRoot
}

/// What the machine asks for in `state`.
pub open spec fn request(state: StateView) -> ActionView {
    match state {
        StateView::LocatingRoot => ActionView::LocateDataRoot,
        StateView::ProbingCache => ActionView::Probe(asset_cache_dir()),
        StateView::ProbingManifest => ActionView::Probe(manifest_path()),
        StateView::ReadingManifest => ActionView::ReadManifest(manifest_path()),
        StateView::ListingVersions => ActionView::ListDir(asset_cache_dir()),
        StateView::FindingScript { version } => ActionView::Glob {
            dir: versioned_asset_dir(version),
            pattern: SCRIPT_PATTERN@,
        },
        StateView::FindingPage { version, script } => ActionView::Glob {
            dir: versioned_asset_dir(version),
            pattern: PAGE_PATTERN@,
        },
        StateView::ReadingPage { version, script, page } => ActionView::ReadText(
            asset_path(version, page),
        ),
        StateView::WritingPage { version, page, content } => ActionView::WriteText {
            path: asset_path(version, page),
            content,
        },
        StateView::Finished(result) => ActionView::Finish(result),
    }
}

/// The state that follows `state` on `event`. An event that does not answer
/// the request of `state` changes nothing.
pub open spec fn advance(state: StateView, event: EventView) -> StateView {
    match (state, event) {
        (StateView::LocatingRoot, EventView::DataRoot(known)) => if known {
            StateView::ProbingCache
        } else {
            StateView::Finished(Err(ErrorView::Environment))
        },
        (StateView::ProbingCache, EventView::Exists(exists)) => if exists {
            StateView::ProbingManifest
        } else {
            StateView::Finished(Err(ErrorView::NotInstalled))
        },
        (StateView::ProbingManifest, EventView::Exists(exists)) => if exists {
            StateView::ReadingManifest
        } else {
            StateView::ListingVersions
        },
        (StateView::ReadingManifest, EventView::Manifest(read)) => match read {
            Ok(manifest) => StateView::FindingScript { version: manifest.version },
            Err(ReadFault::Malformed) => StateView::Finished(Err(ErrorView::ManifestParse)),
            Err(ReadFault::Unreadable) => StateView::Finished(Err(ErrorView::Io)),
        },
        (StateView::ListingVersions, EventView::Listing(listing)) => match listing {
            Some(entries) => match subdirectory(entries) {
                Ok(Some(version)) => StateView::FindingScript { version },
                Ok(None) => StateView::Finished(Err(ErrorView::VersionNotFound)),
                Err(error) => StateView::Finished(Err(error)),
            },
            None => StateView::Finished(Err(ErrorView::Io)),
        },
        (StateView::FindingScript { version }, EventView::Matches(matches)) => match first_match(
            matches,
        ) {
            Some(script) => StateView::FindingPage { version, script },
            None => StateView::Finished(Err(ErrorView::AssetNotFound(SCRIPT_PATTERN@))),
        },
        (StateView::FindingPage { version, script }, EventView::Matches(matches)) => match first_match(
            matches,
        ) {
            Some(page) => StateView::ReadingPage { version, script, page },
            None => StateView::Finished(Err(ErrorView::AssetNotFound(PAGE_PATTERN@))),
        },
        (StateView::ReadingPage { version, script, page }, EventView::Text(read)) => match read {
            Ok(html) => if already_localized(html, script) {
                StateView::Finished(Ok(Outcome::AlreadyLocalized))
            } else {
                StateView::WritingPage { version, page, content: localized(html, script) }
            },
            Err(ReadFault::Malformed) => StateView::Finished(Err(ErrorView::Encoding)),
            Err(ReadFault::Unreadable) => StateView::Finished(Err(ErrorView::Io)),
        },
        (StateView::WritingPage { version, page, content }, EventView::Written(done)) => if done {
            StateView::Finished(Ok(Outcome::Localized))
        } else {
            StateView::Finished(Err(ErrorView::Io))
        },
        _ => state,
    }
}

} // verus!
