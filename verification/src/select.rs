//! The candidate selector: of the eligible releases, the one published last.
//!
//! Releases are ordered by their publish timestamp, compared as text by its
//! UTF-8 bytes; the registry writes RFC 3339 timestamps, which this orders by
//! time. A release without a timestamp comes before every release with one.
//! Of several eligible releases with the same timestamp, the first in the
//! list is chosen.

use crate::compat::eligible;
use crate::model::{optional_text, version_views, ProjectVersion, ProjectVersionView};
use crate::text::{
    lemma_precedes_transitive, lemma_precedes_trichotomy, lemma_utf8_injective, precedes,
    text_precedes, utf8,
};
use vstd::prelude::*;

verus! {

/// The timestamp `a` is earlier than `b`: `a` is absent and `b` present, or
/// both are present and the bytes of `a` come first.
pub open spec fn published_earlier(a: Option<Seq<char>>, b: Option<Seq<char>>) -> bool {
    match (a, b) {
        (None, Some(_)) => true,
        (Some(x), Some(y)) => precedes(utf8(x), utf8(y)),
        _ => false,
    }
}

/// Among the first `n` releases, the one at `i` is the choice: it is
/// eligible, no eligible one among them was published later, and every
/// eligible one before it was published earlier.
pub open spec fn best_among(
    versions: Seq<ProjectVersionView>,
    target: Seq<char>,
    loader: Seq<char>,
    n: int,
    i: int,
) -> bool {
    &&& 0 <= i < n <= versions.len()
    &&& eligible(versions[i], target, loader)
    &&& forall|j: int|
        0 <= j < n && eligible(#[trigger] versions[j], target, loader) ==> !published_earlier(
            versions[i].date_published,
            versions[j].date_published,
        )
    &&& forall|j: int|
        0 <= j < i && eligible(#[trigger] versions[j], target, loader) ==> published_earlier(
            versions[j].date_published,
            versions[i].date_published,
        )
}

/// The release at `i` is the choice among all of `versions`.
pub open spec fn is_best(
    versions: Seq<ProjectVersionView>,
    target: Seq<char>,
    loader: Seq<char>,
    i: int,
) -> bool {
    best_among(versions, target, loader, versions.len() as int, i)
}

/// None of the first `n` releases is eligible.
pub open spec fn none_eligible(
    versions: Seq<ProjectVersionView>,
    target: Seq<char>,
    loader: Seq<char>,
    n: int,
) -> bool {
    forall|j: int|
        0 <= j < n && j < versions.len() ==> !eligible(#[trigger] versions[j], target, loader)
}

/// The position of the release to download, where there is one.
pub open spec fn best_choice(
    versions: Seq<ProjectVersionView>,
    target: Seq<char>,
    loader: Seq<char>,
) -> Option<int> {
    if exists|i: int| is_best(versions, target, loader, i) {
        Some(choose|i: int| is_best(versions, target, loader, i))
    } else {
        None
    }
}

/// The order of timestamps is a strict total order: of two timestamps
/// exactly one is earlier or they are equal, and earlier is transitive.
pub proof fn lemma_published_order(a: Option<Seq<char>>, b: Option<Seq<char>>, c: Option<Seq<char>>)
    ensures
        published_earlier(a, b) || a == b || published_earlier(b, a),
        !(published_earlier(a, b) && published_earlier(b, a)),
        !published_earlier(a, a),
        published_earlier(a, b) && published_earlier(b, c) ==> published_earlier(a, c),
{
    if let (Some(x), Some(y)) = (a, b) {
        lemma_precedes_trichotomy(utf8(x), utf8(y));
        if utf8(x) == utf8(y) {
            lemma_utf8_injective(x, y);
        }
        if let Some(z) = c {
            if precedes(utf8(x), utf8(y)) && precedes(utf8(y), utf8(z)) {
                lemma_precedes_transitive(utf8(x), utf8(y), utf8(z));
            }
        }
    }
    if let Some(x) = a {
        lemma_precedes_trichotomy(utf8(x), utf8(x));
    }
}

/// At most one release is the choice: selection is determined by the list,
/// the target and the loader.
pub proof fn lemma_best_unique(
    versions: Seq<ProjectVersionView>,
    target: Seq<char>,
    loader: Seq<char>,
    i: int,
    j: int,
)
    requires
        is_best(versions, target, loader, i),
        is_best(versions, target, loader, j),
    ensures
        i == j,
{
    let a = versions[i].date_published;
    let b = versions[j].date_published;
    lemma_published_order(a, b, a);
}

/// The release that is the choice is the one that [`best_choice`] names, and
/// it never fails the compatibility filter.
pub proof fn lemma_best_is_choice(
    versions: Seq<ProjectVersionView>,
    target: Seq<char>,
    loader: Seq<char>,
    i: int,
)
    requires
        is_best(versions, target, loader, i),
    ensures
        best_choice(versions, target, loader) == Some(i),
        eligible(versions[i], target, loader),
{
    let j = choose|j: int| is_best(versions, target, loader, j);
    lemma_best_unique(versions, target, loader, i, j);
}

/// Where no release is eligible there is no choice.
pub proof fn lemma_none_eligible_no_choice(
    versions: Seq<ProjectVersionView>,
    target: Seq<char>,
    loader: Seq<char>,
)
    requires
        none_eligible(versions, target, loader, versions.len() as int),
    ensures
        best_choice(versions, target, loader) is None,
{
}

/// Among the first `n` releases there is a choice, unless none of them is
/// eligible.
proof fn lemma_choice_among(
    versions: Seq<ProjectVersionView>,
    target: Seq<char>,
    loader: Seq<char>,
    n: int,
) -> (choice: Option<int>)
    requires
        0 <= n <= versions.len(),
    ensures
        match choice {
            Some(b) => best_among(versions, target, loader, n, b),
            None => none_eligible(versions, target, loader, n),
        },
    decreases n,
{
    if n == 0 {
        return None;
    }
    let held = lemma_choice_among(versions, target, loader, n - 1);
    let last = versions[n - 1].date_published;
    if !eligible(versions[n - 1], target, loader) {
        return held;
    }
    match held {
        None => {
            lemma_published_order(last, last, last);
            Some(n - 1)
        },
        Some(b) => {
            let kept = versions[b].date_published;
            if published_earlier(kept, last) {
                assert forall|j: int|
                    0 <= j < n - 1 && eligible(
                        #[trigger] versions[j],
                        target,
                        loader,
                    ) implies published_earlier(versions[j].date_published, last) by {
                    lemma_published_order(versions[j].date_published, kept, last);
                }
                assert forall|j: int|
                    0 <= j < n && eligible(
                        #[trigger] versions[j],
                        target,
                        loader,
                    ) implies !published_earlier(last, versions[j].date_published) by {
                    lemma_published_order(versions[j].date_published, last, last);
                }
                Some(n - 1)
            } else {
                Some(b)
            }
        },
    }
}

/// There is a choice exactly when some release is eligible.
pub proof fn lemma_choice_iff_eligible(
    versions: Seq<ProjectVersionView>,
    target: Seq<char>,
    loader: Seq<char>,
)
    ensures
        best_choice(versions, target, loader) is None <==> none_eligible(
            versions,
            target,
            loader,
            versions.len() as int,
        ),
        best_choice(versions, target, loader) matches Some(i) ==> is_best(
            versions,
            target,
            loader,
            i,
        ),
{
    match lemma_choice_among(versions, target, loader, versions.len() as int) {
        Some(b) => lemma_best_is_choice(versions, target, loader, b),
        None => lemma_none_eligible_no_choice(versions, target, loader),
    }
}

/// Whether the timestamp `a` is earlier than `b`.
pub fn published_before(a: &Option<String>, b: &Option<String>) -> (earlier: bool)
    ensures
        earlier == published_earlier(optional_text(*a), optional_text(*b)),
{
    match (a, b) {
        (None, Some(_)) => true,
        (Some(x), Some(y)) => text_precedes(x.as_str(), y.as_str()),
        _ => false,
    }
}

/// The position of the release to download: the eligible release with the
/// latest timestamp, the first of them where several share it. `None` when no
/// release is eligible.
pub fn select_best_index(versions: &Vec<ProjectVersion>, target: &str, loader: &str) -> (choice:
    Option<usize>)
    ensures
        match choice {
            Some(i) => is_best(version_views(versions@), target@, loader@, i as int),
            None => none_eligible(
                version_views(versions@),
                target@,
                loader@,
                versions@.len() as int,
            ),
        },
        best_choice(version_views(versions@), target@, loader@) == match choice {
            Some(i) => Some(i as int),
            None => None,
        },
{
    let ghost views = version_views(versions@);
    let mut choice: Option<usize> = None;
    let mut i: usize = 0;
    while i < versions.len()
        invariant
            0 <= i <= versions@.len(),
            views == version_views(versions@),
            match choice {
                Some(b) => best_among(views, target@, loader@, i as int, b as int),
                None => none_eligible(views, target@, loader@, i as int),
            },
        decreases versions@.len() - i,
    {
        if versions[i].is_eligible(target, loader) {
            match choice {
                None => {
                    proof {
                        lemma_published_order(
                            views[i as int].date_published,
                            views[i as int].date_published,
                            views[i as int].date_published,
                        );
                    }
                    choice = Some(i);
                },
                Some(b) => {
                    if published_before(&versions[b].date_published, &versions[i].date_published) {
                        proof {
                            let later = views[i as int].date_published;
                            let held = views[b as int].date_published;
                            assert forall|j: int|
                                0 <= j < i && eligible(
                                    #[trigger] views[j],
                                    target@,
                                    loader@,
                                ) implies published_earlier(views[j].date_published, later) by {
                                lemma_published_order(views[j].date_published, held, later);
                            }
                            assert forall|j: int|
                                0 <= j < i + 1 && eligible(
                                    #[trigger] views[j],
                                    target@,
                                    loader@,
                                ) implies !published_earlier(later, views[j].date_published) by {
                                lemma_published_order(views[j].date_published, later, later);
                            }
                        }
                        choice = Some(i);
                    }
                },
            }
        }
        i += 1;
    }
    proof {
        match choice {
            Some(b) => lemma_best_is_choice(views, target@, loader@, b as int),
            None => lemma_none_eligible_no_choice(views, target@, loader@),
        }
    }
    choice
}

/// The release to download: the one at the position that
/// [`select_best_index`] gives.
pub fn select_best<'a>(versions: &'a Vec<ProjectVersion>, target: &str, loader: &str) -> (choice:
    Option<&'a ProjectVersion>)
    ensures
        match choice {
            Some(version) => exists|i: int|
                is_best(version_views(versions@), target@, loader@, i) && *version
                    == #[trigger] versions@[i],
            None => none_eligible(
                version_views(versions@),
                target@,
                loader@,
                versions@.len() as int,
            ),
        },
{
    match select_best_index(versions, target, loader) {
        Some(i) => Some(&versions[i]),
        None => None,
    }
}

} // verus!
