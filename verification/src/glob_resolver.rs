//! Finding the files that a wildcard pattern matches.

use crate::error::PackagerError;
use crate::path_text::{hidden_name, is_hidden, leaf_name, leaf_of};
use vstd::prelude::*;

verus! {

#[verifier::external_type_specification]
#[verifier::external_body]
pub struct ExPatternError(glob::PatternError);

/// What matching reports for one candidate path.
#[derive(Debug)]
pub enum GlobEntry {
    /// A path that matches the pattern.
    Found(String),
    /// A path that could not be read to see whether it matches.
    Unreadable,
    /// A matching path that is not text.
    NotText,
}

/// Mathematical model of a [`GlobEntry`].
pub enum GlobEntryView {
    Found(Seq<char>),
    Unreadable,
    NotText,
}

impl View for GlobEntry {
    type V = GlobEntryView;

    open spec fn view(&self) -> GlobEntryView {
        match *self {
            GlobEntry::Found(path) => GlobEntryView::Found(path@),
            GlobEntry::Unreadable => GlobEntryView::Unreadable,
            GlobEntry::NotText => GlobEntryView::NotText,
        }
    }
}

impl DeepView for GlobEntry {
    type V = GlobEntryView;

    open spec fn deep_view(&self) -> GlobEntryView {
        self@
    }
}

/// The failure that one entry stands for, if it stands for one.
pub open spec fn failure_of(entry: GlobEntryView) -> Option<PackagerError> {
    match entry {
        GlobEntryView::Found(_) => None,
        GlobEntryView::Unreadable => Some(PackagerError::GlobPatternFailure),
        GlobEntryView::NotText => Some(PackagerError::PathEncodingFailure),
    }
}

/// The failure of the first entry that stands for one.
pub open spec fn first_failure(entries: Seq<GlobEntryView>) -> Option<PackagerError>
    decreases entries.len(),
{
    if entries.len() == 0 {
        None
    } else {
        match first_failure(entries.drop_last()) {
            Some(failure) => Some(failure),
            None => failure_of(entries.last()),
        }
    }
}

/// Whether an entry is a path whose last component is not hidden.
pub open spec fn is_visible(entry: GlobEntryView) -> bool {
    entry matches GlobEntryView::Found(path) && !hidden_name(leaf_of(path))
}

/// The visible paths among `entries`, in their order.
pub open spec fn visible_paths(entries: Seq<GlobEntryView>) -> Seq<Seq<char>>
    decreases entries.len(),
{
    if entries.len() == 0 {
        Seq::empty()
    } else {
        let before = visible_paths(entries.drop_last());
        match entries.last() {
            GlobEntryView::Found(path) => if hidden_name(leaf_of(path)) {
                before
            } else {
                before.push(path)
            },
            _ => before,
        }
    }
}

/// No path among the visible ones is hidden.
pub proof fn lemma_visible_paths_not_hidden(entries: Seq<GlobEntryView>)
    ensures
        forall|i: int|
            0 <= i < visible_paths(entries).len() ==> !hidden_name(
                leaf_of(#[trigger] visible_paths(entries)[i]),
            ),
    decreases entries.len(),
{
    if entries.len() > 0 {
        let before = visible_paths(entries.drop_last());
        lemma_visible_paths_not_hidden(entries.drop_last());
        assert forall|i: int| 0 <= i < visible_paths(entries).len() implies !hidden_name(
            leaf_of(#[trigger] visible_paths(entries)[i]),
        ) by {
            if i < before.len() {
                assert(visible_paths(entries)[i] == before[i]);
            }
        }
    }
}

/// Runs `glob::glob` on `pattern` and collects what its iterator yields, one
/// entry for each item and in the iterator's order: a matched path as text, a
/// matched path that is not valid Unicode, or a path that could not be read.
/// A pattern that `glob` rejects gives its error. Nothing is claimed about
/// which paths come back: that depends on the file system.
#[verifier::external_body]
fn glob_entries(pattern: &str) -> (found: Result<Vec<GlobEntry>, glob::PatternError>) {
    let mut entries = Vec::new();
    for item in glob::glob(pattern)? {
        entries.push(
            match item {
                Ok(path) => match path.into_os_string().into_string() {
                    Ok(text) => GlobEntry::Found(text),
                    Err(_) => GlobEntry::NotText,
                },
                Err(_) => GlobEntry::Unreadable,
            },
        );
    }
    Ok(entries)
}

/// The visible paths among `entries`, or the failure of the first entry that
/// stands for one.
pub fn resolve_entries(entries: &Vec<GlobEntry>) -> (resolved: Result<Vec<String>, PackagerError>)
    ensures
        match resolved {
            Ok(paths) => first_failure(entries.deep_view()) is None && paths.deep_view()
                == visible_paths(entries.deep_view()),
            Err(failure) => first_failure(entries.deep_view()) == Some(failure),
        },
{
    let ghost all = entries.deep_view();
    let mut paths: Vec<String> = Vec::new();
    let mut i: usize = 0;
    while i < entries.len()
        invariant
            i <= entries.len(),
            all == entries.deep_view(),
            first_failure(all.take(i as int)) is None,
            paths.deep_view() == visible_paths(all.take(i as int)),
        decreases entries.len() - i,
    {
        proof {
            assert(all.take(i + 1).drop_last() =~= all.take(i as int));
        }
        match &entries[i] {
            GlobEntry::Found(path) => {
                let name = leaf_name(path.as_str());
                if !is_hidden(name.as_str()) {
                    paths.push(path.clone());
                }
            },
            GlobEntry::Unreadable => {
                proof {
                    lemma_first_failure_stays(all, i + 1);
                }
                return Err(PackagerError::GlobPatternFailure);
            },
            GlobEntry::NotText => {
                proof {
                    lemma_first_failure_stays(all, i + 1);
                }
                return Err(PackagerError::PathEncodingFailure);
            },
        }
        i += 1;
    }
    assert(all.take(i as int) =~= all);
    Ok(paths)
}

/// A failure found among the first `n` entries is the failure of the whole.
proof fn lemma_first_failure_stays(entries: Seq<GlobEntryView>, n: int)
    requires
        0 <= n <= entries.len(),
        first_failure(entries.take(n)) is Some,
    ensures
        first_failure(entries) == first_failure(entries.take(n)),
    decreases entries.len() - n,
{
    if n < entries.len() {
        assert(entries.take(n + 1).drop_last() =~= entries.take(n));
        lemma_first_failure_stays(entries, n + 1);
    } else {
        assert(entries.take(n) =~= entries);
    }
}

/// The paths that `glob_str` matches, without those whose last component is
/// hidden. A malformed pattern and a path that cannot be read are a
/// [`PackagerError::GlobPatternFailure`]; a path that is not text is a
/// [`PackagerError::PathEncodingFailure`].
pub fn get_glob_paths(glob_str: &str) -> (resolved: Result<Vec<String>, PackagerError>)
    ensures
        match resolved {
            Ok(paths) => forall|i: int|
                0 <= i < paths.len() ==> !hidden_name(leaf_of(#[trigger] paths[i]@)),
            Err(failure) => failure == PackagerError::GlobPatternFailure || failure
                == PackagerError::PathEncodingFailure,
        },
{
    match glob_entries(glob_str) {
        Ok(entries) => {
            let resolved = resolve_entries(&entries);
            proof {
                lemma_visible_paths_not_hidden(entries.deep_view());
                lemma_failure_kinds(entries.deep_view());
                if let Ok(paths) = &resolved {
                    assert forall|i: int| 0 <= i < paths.len() implies !hidden_name(
                        leaf_of(#[trigger] paths[i]@),
                    ) by {
                        assert(paths.deep_view()[i] == paths[i]@);
                    }
                }
            }
            resolved
        },
        Err(_) => Err(PackagerError::GlobPatternFailure),
    }
}

/// The only failures that entries stand for.
proof fn lemma_failure_kinds(entries: Seq<GlobEntryView>)
    ensures
        first_failure(entries) matches Some(failure) ==> failure
            == PackagerError::GlobPatternFailure || failure == PackagerError::PathEncodingFailure,
    decreases entries.len(),
{
    if entries.len() > 0 {
        lemma_failure_kinds(entries.drop_last());
    }
}

} // verus!
