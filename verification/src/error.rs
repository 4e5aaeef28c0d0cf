//! The ways in which a run can fail.

use vstd::prelude::*;

verus! {

/// Why a run ended without the page being localized. No failure is retried,
/// and the first one ends the run.
#[derive(Debug, PartialEq, Eq)]
pub enum LocalizeError {
    /// The platform's application data directory could not be determined.
    Environment,
    /// The application's asset cache directory does not exist.
    NotInstalled,
    /// The version manifest is present but is not a well-formed manifest.
    ManifestParse,
    /// There is no version manifest and no version directory.
    VersionNotFound,
    /// No file matched this pattern.
    AssetNotFound(String),
    /// A file or directory could not be read or written.
    Io,
    /// The entry page is not valid text.
    Encoding,
}

/// The model of a [`LocalizeError`].
pub enum ErrorView {
    Environment,
    NotInstalled,
    ManifestParse,
    VersionNotFound,
    AssetNotFound(Seq<char>),
    Io,
    Encoding,
}

impl View for LocalizeError {
    type V = ErrorView;

    open spec fn view(&self) -> ErrorView {
        match self {
            LocalizeError::Environment => ErrorView::Environment,
            LocalizeError::NotInstalled => ErrorView::NotInstalled,
            LocalizeError::ManifestParse => ErrorView::ManifestParse,
            LocalizeError::VersionNotFound => ErrorView::VersionNotFound,
            LocalizeError::AssetNotFound(pattern) => ErrorView::AssetNotFound(pattern@),
            LocalizeError::Io => ErrorView::Io,
            LocalizeError::Encoding => ErrorView::Encoding,
        }
    }
}

impl Clone for LocalizeError {
    fn clone(&self) -> (copy: Self)
        ensures
            copy@ == self@,
    {
        match self {
            LocalizeError::Environment => LocalizeError::Environment,
            LocalizeError::NotInstalled => LocalizeError::NotInstalled,
            LocalizeError::ManifestParse => LocalizeError::ManifestParse,
            LocalizeError::VersionNotFound => LocalizeError::VersionNotFound,
            LocalizeError::AssetNotFound(pattern) => LocalizeError::AssetNotFound(pattern.clone()),
            LocalizeError::Io => LocalizeError::Io,
            LocalizeError::Encoding => LocalizeError::Encoding,
        }
    }
}

} // verus!
