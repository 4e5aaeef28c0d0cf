//! The edit made to the entry page: a deferred script tag for the locale
//! script, placed directly behind the document type declaration.
//!
//! The declaration followed by the tag is the *marker*. It is what gets
//! written, and its presence is how an already edited page is recognised.

use crate::text::{
    chars_of, contains, find, first_occurrence, is_first_occurrence, lemma_first_occurrence_exists,
    lemma_splice_occurs, occurs_at, splice, splice_str, with_first_replaced,
};
use vstd::prelude::*;
use vstd::string::StringExecFns;

verus! {

/// The document type declaration that the entry page starts with.
pub const DOCTYPE: &'static str = "<!doctype html>";

/// What stands in the script tag before the script's file name.
pub const SCRIPT_OPEN: &'static str = "<script defer=\"defer\" src=\"/_assets/";

/// What stands in the script tag behind the script's file name.
pub const SCRIPT_CLOSE: &'static str = "\"></script>";

/// The marker for the locale script named `script`: the declaration, then
/// the tag that loads `/_assets/<script>`, with nothing in between.
pub open spec fn marker(script: Seq<char>) -> Seq<char> {
    DOCTYPE@ + SCRIPT_OPEN@ + script + SCRIPT_CLOSE@
}

/// The page `html` already loads the locale script named `script`.
pub open spec fn already_localized(html: Seq<char>, script: Seq<char>) -> bool {
    contains(html, marker(script))
}

/// The content of the page after the edit has been applied to `html`.
pub open spec fn localized(html: Seq<char>, script: Seq<char>) -> Seq<char> {
    if already_localized(html, script) {
        html
    } else {
        with_first_replaced(html, DOCTYPE@, marker(script))
    }
}

/// What applying the edit to a page amounts to.
#[derive(Debug, PartialEq, Eq)]
pub enum Patch {
    /// The page holds the marker: nothing is to be written.
    AlreadyLocalized,
    /// The page is to be overwritten with this content.
    Rewrite(String),
}

/// Builds the marker for the locale script named `script`.
pub fn build_marker(script: &str) -> (out: String)
    ensures
        out@ == marker(script@),
{
    let mut out: String = DOCTYPE.to_owned();
    out.append(SCRIPT_OPEN);
    out.append(script);
    out.append(SCRIPT_CLOSE);
    out
}

/// Decides the edit for a page with content `html` and the locale script
/// named `script`.
///
/// A page that holds the marker is left alone. Any other page is rewritten
/// with the first bare declaration replaced by the marker; a page without a
/// declaration is rewritten unchanged.
pub fn apply_localization(html: &str, script: &str) -> (patch: Patch)
    ensures
        patch is AlreadyLocalized <==> already_localized(html@, script@),
        patch matches Patch::Rewrite(content) ==> content@ == localized(html@, script@),
{
    let mark = build_marker(script);
    let page = chars_of(html);
    let needle = chars_of(mark.as_str());
    if find(&page, &needle).is_some() {
        return Patch::AlreadyLocalized;
    }
    let declaration = chars_of(DOCTYPE);
    match find(&page, &declaration) {
        Some(at) => Patch::Rewrite(splice_str(html, at, declaration.len(), mark.as_str())),
        None => Patch::Rewrite(html.to_owned()),
    }
}

/// Idempotence: applying the edit to an edited page changes nothing.
pub proof fn law_idempotent(html: Seq<char>, script: Seq<char>)
    ensures
        localized(localized(html, script), script) == localized(html, script),
{
    lemma_edit_is_detected(html, script);
}

/// A page that held a declaration or the marker holds the marker after the
/// edit, so that a second application finds it and writes nothing.
pub proof fn lemma_edit_is_detected(html: Seq<char>, script: Seq<char>)
    ensures
        contains(html, DOCTYPE@) || already_localized(html, script) ==> already_localized(
            localized(html, script),
            script,
        ),
        !contains(html, DOCTYPE@) && !already_localized(html, script) ==> localized(html, script)
            == html,
{
    if !already_localized(html, script) && contains(html, DOCTYPE@) {
        let at = choose|at: int| occurs_at(html, DOCTYPE@, at);
        lemma_first_occurrence_exists(html, DOCTYPE@, at);
        lemma_splice_occurs(
            html,
            first_occurrence(html, DOCTYPE@),
            DOCTYPE@.len() as int,
            marker(script),
        );
    }
}

/// A page that starts with the declaration and does not hold the marker
/// becomes the marker followed by what stood behind the declaration.
pub proof fn law_leading_declaration(rest: Seq<char>, script: Seq<char>)
    requires
        !already_localized(DOCTYPE@ + rest, script),
    ensures
        localized(DOCTYPE@ + rest, script) == marker(script) + rest,
{
    let html = DOCTYPE@ + rest;
    assert(html.subrange(0, DOCTYPE@.len() as int) =~= DOCTYPE@);
    assert(is_first_occurrence(html, DOCTYPE@, 0));
    lemma_first_occurrence_exists(html, DOCTYPE@, 0);
    assert(splice(html, 0, DOCTYPE@.len() as int, marker(script)) =~= marker(script) + rest);
}

} // verus!
