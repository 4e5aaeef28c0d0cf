//! Which version of the application is installed.
//!
//! The asset cache names the current version in a manifest. Where there is
//! no manifest, the version is taken to be the name of the first directory
//! that a listing of the cache shows.

use crate::error::{ErrorView, LocalizeError};
use vstd::prelude::*;

verus! {

/// The version manifest of the asset cache.
#[derive(Debug, PartialEq, Eq)]
pub struct VersionManifest {
    /// The name of the current version, and of its directory in the cache.
    pub version: String,
    /// A digest that travels with the version; nothing here reads it.
    pub hash: String,
}

/// The model of a [`VersionManifest`].
pub struct ManifestView {
    pub version: Seq<char>,
    pub hash: Seq<char>,
}

impl View for VersionManifest {
    type V = ManifestView;

    open spec fn view(&self) -> ManifestView {
        ManifestView { version: self.version@, hash: self.hash@ }
    }
}

/// One entry of a directory listing.
#[derive(Debug, PartialEq, Eq)]
pub struct DirEntry {
    /// The entry's file name.
    pub name: String,
    /// Whether the entry is a directory.
    pub is_dir: bool,
}

/// The model of a [`DirEntry`].
pub struct DirEntryView {
    pub name: Seq<char>,
    pub is_dir: bool,
}

impl View for DirEntry {
    type V = DirEntryView;

    open spec fn view(&self) -> DirEntryView {
        DirEntryView { name: self.name@, is_dir: self.is_dir }
    }
}

impl DeepView for DirEntry {
    type V = DirEntryView;

    open spec fn deep_view(&self) -> DirEntryView {
        self@
    }
}

/// A listing in the order in which the directory was read. `None` stands
/// for an entry that could not be read.
pub type ListingView = Seq<Option<DirEntryView>>;

/// Reading `entries` in order stops at index `at`: the entry there is a
/// directory or could not be read, and every entry before it was read and
/// is no directory.
pub open spec fn stops_at(entries: ListingView, at: int) -> bool {
    &&& 0 <= at < entries.len()
    &&& entries[at] matches Some(entry) ==> entry.is_dir
    &&& forall|earlier: int|
        0 <= earlier < at ==> (#[trigger] entries[earlier] matches Some(entry) && !entry.is_dir)
}

/// The name of the first directory in `entries`: `Ok(None)` where there is
/// no directory, and an I/O failure where an entry that could not be read
/// comes before any directory.
pub open spec fn subdirectory(entries: ListingView) -> Result<Option<Seq<char>>, ErrorView> {
    if exists|at: int| stops_at(entries, at) {
        match entries[choose|at: int| stops_at(entries, at)] {
            Some(entry) => Ok(Some(entry.name)),
            None => Err(ErrorView::Io),
        }
    } else {
        Ok(None)
    }
}

/// Reading a listing stops at no more than one index.
pub proof fn lemma_stops_at_unique(entries: ListingView, a: int, b: int)
    requires
        stops_at(entries, a),
        stops_at(entries, b),
    ensures
        a == b,
{
    if a < b {
        assert(entries[a] matches Some(entry) && !entry.is_dir);
    } else if b < a {
        assert(entries[b] matches Some(entry) && !entry.is_dir);
    }
}

/// Finds the first directory in a listing and returns its name.
///
/// The entries are taken in the order given. An entry that could not be
/// read ends the search with [`LocalizeError::Io`], unless a directory was
/// found before it.
pub fn find_subdirectory(entries: &Vec<Option<DirEntry>>) -> (found: Result<
    Option<String>,
    LocalizeError,
>)
    ensures
        match found {
            Ok(Some(name)) => subdirectory(entries.deep_view()) == Ok::<_, ErrorView>(
                Some(name@),
            ),
            Ok(None) => subdirectory(entries.deep_view()) == Ok::<Option<Seq<char>>, ErrorView>(
                None,
            ),
            Err(error) => subdirectory(entries.deep_view()) == Err::<Option<Seq<char>>, _>(
                error@,
            ),
        },
{
    let ghost listing = entries.deep_view();
    let mut at: usize = 0;
    while at < entries.len()
        invariant
            at <= entries.len(),
            listing == entries.deep_view(),
            forall|earlier: int|
                0 <= earlier < at ==> (#[trigger] listing[earlier] matches Some(entry)
                    && !entry.is_dir),
        decreases entries.len() - at,
    {
        match &entries[at] {
            Some(entry) => {
                if entry.is_dir {
                    proof {
                        assert(stops_at(listing, at as int));
                        lemma_stops_at_unique(
                            listing,
                            at as int,
                            choose|at: int| stops_at(listing, at),
                        );
                    }
                    return Ok(Some(entry.name.clone()));
                }
            },
            None => {
                proof {
                    assert(stops_at(listing, at as int));
                    lemma_stops_at_unique(
                        listing,
                        at as int,
                        choose|at: int| stops_at(listing, at),
                    );
                }
                return Err(LocalizeError::Io);
            },
        }
        at += 1;
    }
    assert forall|stop: int| !stops_at(listing, stop) by {
        if 0 <= stop < listing.len() {
            assert(listing[stop] matches Some(entry) && !entry.is_dir);
        }
    }
    Ok(None)
}

} // verus!
