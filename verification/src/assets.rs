//! Choosing a file among those that a pattern matched.

use crate::error::{ErrorView, LocalizeError};
use vstd::prelude::*;

verus! {

/// What a pattern matched, in the order of enumeration: the file name of
/// each match, and `None` for a match that could not be read.
pub type MatchesView = Seq<Option<Seq<char>>>;

/// The match at index `at` could be read, and none before it could.
pub open spec fn is_first_match(matches: MatchesView, at: int) -> bool {
    &&& 0 <= at < matches.len()
    &&& matches[at] is Some
    &&& forall|earlier: int| 0 <= earlier < at ==> #[trigger] matches[earlier] is None
}

/// The first match that could be read, if there is one.
pub open spec fn first_match(matches: MatchesView) -> Option<Seq<char>> {
    if exists|at: int| is_first_match(matches, at) {
        matches[choose|at: int| is_first_match(matches, at)]
    } else {
        None
    }
}

/// There is no more than one first match.
pub proof fn lemma_first_match_unique(matches: MatchesView, a: int, b: int)
    requires
        is_first_match(matches, a),
        is_first_match(matches, b),
    ensures
        a == b,
{
    if a < b {
        assert(matches[a] is None);
    } else if b < a {
        assert(matches[b] is None);
    }
}

/// Where nothing matched, there is no first match.
pub proof fn lemma_no_match(matches: MatchesView)
    requires
        matches.len() == 0,
    ensures
        first_match(matches) is None,
{
}

/// Picks the file that stands for `pattern` among its matches.
///
/// The first match that could be read is taken, in the order of
/// enumeration, with no sorting and no check that it is the only one. Where
/// there is none the result is [`LocalizeError::AssetNotFound`] with the
/// pattern.
pub fn find_by_glob(matches: &Vec<Option<String>>, pattern: &str) -> (found: Result<
    String,
    LocalizeError,
>)
    ensures
        match found {
            Ok(name) => first_match(matches.deep_view()) == Some(name@),
            Err(error) => first_match(matches.deep_view()) is None && error@
                == ErrorView::AssetNotFound(pattern@),
        },
{
    let ghost model = matches.deep_view();
    let mut at: usize = 0;
    while at < matches.len()
        invariant
            at <= matches.len(),
            model == matches.deep_view(),
            forall|earlier: int| 0 <= earlier < at ==> #[trigger] model[earlier] is None,
        decreases matches.len() - at,
    {
        match &matches[at] {
            Some(name) => {
                proof {
                    assert(is_first_match(model, at as int));
                    lemma_first_match_unique(
                        model,
                        at as int,
                        choose|at: int| is_first_match(model, at),
                    );
                }
                return Ok(name.clone());
            },
            None => {},
        }
        at += 1;
    }
    assert forall|hit: int| !is_first_match(model, hit) by {
        if 0 <= hit < model.len() {
            assert(model[hit] is None);
        }
    }
    Err(LocalizeError::AssetNotFound(pattern.to_owned()))
}

} // verus!
