//! The run as executable code.
//!
//! The caller owns every side effect. It asks the [`State`] for its
//! [`Action`], performs it, and hands the answer back as an [`Event`]:
//!
//! ```text
//! let mut state = State::new();
//! loop {
//!     let event = match state.request() {
//!         Action::Finish(result) => return result,
//!         action => perform(action),
//!     };
//!     state = state.advance(event);
//! }
//! ```
//!
//! Each function here does what the model in [`crate::model`] says.

use crate::assets::find_by_glob;
use crate::error::{ErrorView, LocalizeError};
use crate::layout::{
    resolve_asset_cache_dir, resolve_asset_path, resolve_manifest_path,
    resolve_versioned_asset_dir, PAGE_PATTERN, SCRIPT_PATTERN,
};
use crate::model::{self, ActionView, EventView, Outcome, ReadFault, StateView};
use crate::patch::{apply_localization, Patch};
use crate::version::{find_subdirectory, DirEntry, VersionManifest};
use vstd::prelude::*;

verus! {

/// A state of the run. Each variant waits for the answer to one request.
#[derive(Debug, PartialEq, Eq)]
pub enum State {
    /// Waiting to learn whether the application data directory is known.
    LocatingRoot,
    /// Waiting to learn whether the asset cache directory exists.
    ProbingCache,
    /// Waiting to learn whether the version manifest exists.
    ProbingManifest,
    /// Waiting for the version manifest.
    ReadingManifest,
    /// Waiting for the listing of the asset cache directory.
    ListingVersions,
    /// Waiting for the files that match the pattern of the locale script.
    FindingScript { version: String },
    /// Waiting for the files that match the pattern of the entry page.
    FindingPage { version: String, script: String },
    /// Waiting for the content of the entry page.
    ReadingPage { version: String, script: String, page: String },
    /// Waiting to learn whether the entry page was written.
    WritingPage { version: String, page: String, content: String },
    /// The run is over, with this result.
    Finished(Result<Outcome, LocalizeError>),
}

/// An answer from the outside world.
#[derive(Debug, PartialEq, Eq)]
pub enum Event {
    /// Whether the platform's application data directory is known.
    DataRoot(bool),
    /// Whether the file or directory asked about exists.
    Exists(bool),
    /// The version manifest: parsed, malformed or unreadable.
    Manifest(Result<VersionManifest, ReadFault>),
    /// The entries of a directory in the order in which they were read, with
    /// `None` for an entry that could not be read; `None` as a whole where
    /// the directory could not be opened.
    Listing(Option<Vec<Option<DirEntry>>>),
    /// The file names of the matches of a pattern in the order of
    /// enumeration, with `None` for a match that could not be read.
    Matches(Vec<Option<String>>),
    /// The content of a text file; malformed where it is not valid text.
    Text(Result<String, ReadFault>),
    /// Whether the write succeeded.
    Written(bool),
}

/// A request to the outside world. A location is the list of names to
/// descend through from the platform's application data directory.
#[derive(Debug, PartialEq, Eq)]
pub enum Action {
    /// Determine the platform's application data directory.
    LocateDataRoot,
    /// Tell whether this file or directory exists.
    Probe(Vec<String>),
    /// Read this file and parse it as a version manifest.
    ReadManifest(Vec<String>),
    /// List this directory.
    ListDir(Vec<String>),
    /// Enumerate the files in `dir` whose names match `pattern`.
    Glob { dir: Vec<String>, pattern: String },
    /// Read this file as text.
    ReadText(Vec<String>),
    /// Overwrite this file with `content`.
    WriteText { path: Vec<String>, content: String },
    /// Stop and report this result.
    Finish(Result<Outcome, LocalizeError>),
}

/// The model of the result of a run.
pub open spec fn result_view(result: Result<Outcome, LocalizeError>) -> Result<
    Outcome,
    ErrorView,
> {
    match result {
        Ok(outcome) => Ok(outcome),
        Err(error) => Err(error@),
    }
}

impl View for State {
    type V = StateView;

    open spec fn view(&self) -> StateView {
        match self {
            State::LocatingRoot => StateView::LocatingRoot,
            State::ProbingCache => StateView::ProbingCache,
            State::ProbingManifest => StateView::ProbingManifest,
            State::ReadingManifest => StateView::ReadingManifest,
            State::ListingVersions => StateView::ListingVersions,
            State::FindingScript { version } => StateView::FindingScript { version: version@ },
            State::FindingPage { version, script } => StateView::FindingPage {
                version: version@,
                script: script@,
            },
            State::ReadingPage { version, script, page } => StateView::ReadingPage {
                version: version@,
                script: script@,
                page: page@,
            },
            State::WritingPage { version, page, content } => StateView::WritingPage {
                version: version@,
                page: page@,
                content: content@,
            },
            State::Finished(result) => StateView::Finished(result_view(*result)),
        }
    }
}

impl View for Event {
    type V = EventView;

    open spec fn view(&self) -> EventView {
        match self {
            Event::DataRoot(known) => EventView::DataRoot(*known),
            Event::Exists(exists) => EventView::Exists(*exists),
            Event::Manifest(read) => EventView::Manifest(
                match read {
                    Ok(manifest) => Ok(manifest@),
                    Err(fault) => Err(*fault),
                },
            ),
            Event::Listing(listing) => EventView::Listing(listing.deep_view()),
            Event::Matches(matches) => EventView::Matches(matches.deep_view()),
            Event::Text(read) => EventView::Text(
                match read {
                    Ok(text) => Ok(text@),
                    Err(fault) => Err(*fault),
                },
            ),
            Event::Written(done) => EventView::Written(*done),
        }
    }
}

impl View for Action {
    type V = ActionView;

    open spec fn view(&self) -> ActionView {
        match self {
            Action::LocateDataRoot => ActionView::LocateDataRoot,
            Action::Probe(path) => ActionView::Probe(path.deep_view()),
            Action::ReadManifest(path) => ActionView::ReadManifest(path.deep_view()),
            Action::ListDir(path) => ActionView::ListDir(path.deep_view()),
            Action::Glob { dir, pattern } => ActionView::Glob {
                dir: dir.deep_view(),
                pattern: pattern@,
            },
            Action::ReadText(path) => ActionView::ReadText(path.deep_view()),
            Action::WriteText { path, content } => ActionView::WriteText {
                path: path.deep_view(),
                content: content@,
            },
            Action::Finish(result) => ActionView::Finish(result_view(*result)),
        }
    }
}

impl State {
    /// The state in which every run starts.
    pub fn new() -> (state: State)
        ensures
            state@ == model::initial(),
    {
        State::LocatingRoot
    }

    /// What is to be done next. A finished run asks for
    /// [`Action::Finish`] with its result.
    pub fn request(&self) -> (action: Action)
        ensures
            action@ == model::request(self@),
    {
        match self {
            State::LocatingRoot => Action::LocateDataRoot,
            State::ProbingCache => Action::Probe(resolve_asset_cache_dir()),
            State::ProbingManifest => Action::Probe(resolve_manifest_path()),
            State::ReadingManifest => Action::ReadManifest(resolve_manifest_path()),
            State::ListingVersions => Action::ListDir(resolve_asset_cache_dir()),
            State::FindingScript { version } => Action::Glob {
                dir: resolve_versioned_asset_dir(version.as_str()),
                pattern: SCRIPT_PATTERN.to_owned(),
            },
            State::FindingPage { version, script } => Action::Glob {
                dir: resolve_versioned_asset_dir(version.as_str()),
                pattern: PAGE_PATTERN.to_owned(),
            },
            State::ReadingPage { version, script, page } => Action::ReadText(
                resolve_asset_path(version.as_str(), page.as_str()),
            ),
            State::WritingPage { version, page, content } => Action::WriteText {
                path: resolve_asset_path(version.as_str(), page.as_str()),
                content: content.clone(),
            },
            State::Finished(result) => Action::Finish(
                match result {
                    Ok(outcome) => Ok(*outcome),
                    Err(error) => Err(error.clone()),
                },
            ),
        }
    }

    /// Takes in the answer to the pending request and moves on. The first
    /// failure finishes the run. An event that does not answer the pending
    /// request is ignored.
    pub fn advance(self, event: Event) -> (next: State)
        ensures
            next@ == model::advance(self@, event@),
    {
        match self {
            State::LocatingRoot => match event {
                Event::DataRoot(known) => if known {
                    State::ProbingCache
                } else {
                    State::Finished(Err(LocalizeError::Environment))
                },
                _ => State::LocatingRoot,
            },
            State::ProbingCache => match event {
                Event::Exists(exists) => if exists {
                    State::ProbingManifest
                } else {
                    State::Finished(Err(LocalizeError::NotInstalled))
                },
                _ => State::ProbingCache,
            },
            State::ProbingManifest => match event {
                Event::Exists(exists) => if exists {
                    State::ReadingManifest
                } else {
                    State::ListingVersions
                },
                _ => State::ProbingManifest,
            },
            State::ReadingManifest => match event {
                Event::Manifest(Ok(manifest)) => State::FindingScript {
                    version: manifest.version,
                },
                Event::Manifest(Err(ReadFault::Malformed)) => State::Finished(
                    Err(LocalizeError::ManifestParse),
                ),
                Event::Manifest(Err(ReadFault::Unreadable)) => State::Finished(
                    Err(LocalizeError::Io),
                ),
                _ => State::ReadingManifest,
            },
            State::ListingVersions => match event {
                Event::Listing(Some(entries)) => match find_subdirectory(&entries) {
                    Ok(Some(version)) => State::FindingScript { version },
                    Ok(None) => State::Finished(Err(LocalizeError::VersionNotFound)),
                    Err(error) => State::Finished(Err(error)),
                },
                Event::Listing(None) => State::Finished(Err(LocalizeError::Io)),
                _ => State::ListingVersions,
            },
            State::FindingScript { version } => match event {
                Event::Matches(matches) => match find_by_glob(&matches, SCRIPT_PATTERN) {
                    Ok(script) => State::FindingPage { version, script },
                    Err(error) => State::Finished(Err(error)),
                },
                _ => State::FindingScript { version },
            },
            State::FindingPage { version, script } => match event {
                Event::Matches(matches) => match find_by_glob(&matches, PAGE_PATTERN) {
                    Ok(page) => State::ReadingPage { version, script, page },
                    Err(error) => State::Finished(Err(error)),
                },
                _ => State::FindingPage { version, script },
            },
            State::ReadingPage { version, script, page } => match event {
                Event::Text(Ok(html)) => match apply_localization(
                    html.as_str(),
                    script.as_str(),
                ) {
                    Patch::AlreadyLocalized => State::Finished(Ok(Outcome::AlreadyLocalized)),
                    Patch::Rewrite(content) => State::WritingPage { version, page, content },
                },
                Event::Text(Err(ReadFault::Malformed)) => State::Finished(
                    Err(LocalizeError::Encoding),
                ),
                Event::Text(Err(ReadFault::Unreadable)) => State::Finished(
                    Err(LocalizeError::Io),
                ),
                _ => State::ReadingPage { version, script, page },
            },
            State::WritingPage { version, page, content } => match event {
                Event::Written(done) => if done {
                    State::Finished(Ok(Outcome::Localized))
                } else {
                    State::Finished(Err(LocalizeError::Io))
                },
                _ => State::WritingPage { version, page, content },
            },
            State::Finished(result) => State::Finished(result),
        }
    }

    /// Takes in `event` and says what is to be done next.
    pub fn step(self, event: Event) -> (next: (State, Action))
        ensures
            next.0@ == model::advance(self@, event@),
            next.1@ == model::request(next.0@),
    {
        let state = self.advance(event);
        let action = state.request();
        (state, action)
    }
}

} // verus!
