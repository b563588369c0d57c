//! Choosing a playlist from the names the music daemon reports.
//!
//! A mode's playlists are the names carrying the mode's prefix. Switching
//! playlists walks them in lexicographic order, wrapping around at the
//! ends, starting from the currently loaded name. These functions are
//! pure: the caller fetches the name list and loads whatever is chosen.

use vstd::prelude::*;

use crate::text::{is_prefix_of, lex_lt, lemma_lex_lt_irreflexive, lemma_lex_lt_transitive, str_lt,
    str_starts_with};

verus! {

/// Position `i` of `names` exists and carries `prefix`.
pub open spec fn prefixed_at(names: Seq<String>, prefix: Seq<char>, i: int) -> bool {
    0 <= i < names.len() && is_prefix_of(prefix, names[i]@)
}

/// Some name in the list carries `prefix`.
pub open spec fn some_prefixed(names: Seq<String>, prefix: Seq<char>) -> bool {
    exists|i: int| prefixed_at(names, prefix, i)
}

/// Some prefixed name lies strictly after `current` in lexicographic
/// order.
pub open spec fn some_prefixed_above(names: Seq<String>, prefix: Seq<char>, current: Seq<char>) -> bool {
    exists|i: int| prefixed_at(names, prefix, i) && lex_lt(current, names[i]@)
}

/// Some prefixed name lies strictly before `current` in lexicographic
/// order.
pub open spec fn some_prefixed_below(names: Seq<String>, prefix: Seq<char>, current: Seq<char>) -> bool {
    exists|i: int| prefixed_at(names, prefix, i) && lex_lt(names[i]@, current)
}

/// The first name in list order that carries the mode's prefix, if any:
/// the playlist a mode starts with when none is stored.
pub fn first_with_prefix(names: &Vec<String>, prefix: &str) -> (r: Option<String>)
    ensures
        r is Some <==> some_prefixed(names@, prefix@),
        r matches Some(m) ==> exists|i: int|
            #[trigger] prefixed_at(names@, prefix@, i) && names@[i]@ == m@ && forall|j: int|
                0 <= j < i ==> !is_prefix_of(prefix@, names@[j]@),
{
    let n = names.len();
    let mut i: usize = 0;
    while i < n
        invariant
            0 <= i <= n,
            n == names@.len(),
            forall|j: int| 0 <= j < i ==> !is_prefix_of(prefix@, names@[j]@),
        decreases n - i,
    {
        if str_starts_with(names[i].as_str(), prefix) {
            assert(prefixed_at(names@, prefix@, i as int));
            return Some(names[i].clone());
        }
        i += 1;
    }
    None
}

/// The playlist after `current` among the prefixed names, wrapping
/// around: the least prefixed name above `current`, or, if none is
/// above, the least prefixed name overall. `None` exactly when no name
/// carries the prefix.
pub fn next_playlist_name(names: &Vec<String>, prefix: &str, current: &str) -> (r: Option<String>)
    ensures
        r is Some <==> some_prefixed(names@, prefix@),
        r matches Some(m) ==> {
            &&& exists|i: int| #[trigger] prefixed_at(names@, prefix@, i) && names@[i]@ == m@
            &&& some_prefixed_above(names@, prefix@, current@) ==> lex_lt(current@, m@)
                && forall|i: int|
                prefixed_at(names@, prefix@, i) && lex_lt(current@, names@[i]@) ==> !lex_lt(
                    names@[i]@,
                    m@,
                )
            &&& !some_prefixed_above(names@, prefix@, current@) ==> forall|i: int|
                prefixed_at(names@, prefix@, i) ==> !lex_lt(names@[i]@, m@)
        },
{
    let n = names.len();
    let mut best_above: Option<String> = None;
    let mut best_all: Option<String> = None;
    let mut i: usize = 0;
    while i < n
        invariant
            0 <= i <= n,
            n == names@.len(),
            best_all is None <==> forall|j: int| 0 <= j < i ==> !is_prefix_of(prefix@, names@[j]@),
            best_all matches Some(b) ==> (exists|j: int|
                0 <= j < i && #[trigger] prefixed_at(names@, prefix@, j) && names@[j]@ == b@)
                && forall|j: int|
                0 <= j < i && #[trigger] prefixed_at(names@, prefix@, j) ==> !lex_lt(
                    names@[j]@,
                    b@,
                ),
            best_above is None <==> forall|j: int|
                0 <= j < i && #[trigger] prefixed_at(names@, prefix@, j) ==> !lex_lt(
                    current@,
                    names@[j]@,
                ),
            best_above matches Some(b) ==> (exists|j: int|
                0 <= j < i && #[trigger] prefixed_at(names@, prefix@, j) && names@[j]@ == b@)
                && lex_lt(current@, b@) && forall|j: int|
                0 <= j < i && #[trigger] prefixed_at(names@, prefix@, j) && lex_lt(
                    current@,
                    names@[j]@,
                ) ==> !lex_lt(names@[j]@, b@),
        decreases n - i,
    {
        let name = &names[i];
        if str_starts_with(name.as_str(), prefix) {
            proof {
                assert(prefixed_at(names@, prefix@, i as int));
                lemma_lex_lt_irreflexive(name@);
            }
            let replace_all = match &best_all {
                None => true,
                Some(b) => str_lt(name.as_str(), b.as_str()),
            };
            if replace_all {
                proof {
                    if let Some(b) = &best_all {
                        assert forall|j: int|
                            0 <= j < i && #[trigger] prefixed_at(names@, prefix@, j) implies !lex_lt(
                            names@[j]@,
                            name@,
                        ) by {
                            if lex_lt(names@[j]@, name@) {
                                lemma_lex_lt_transitive(names@[j]@, name@, b@);
                            }
                        }
                    }
                }
                best_all = Some(name.clone());
            }
            if str_lt(current, name.as_str()) {
                let replace_above = match &best_above {
                    None => true,
                    Some(b) => str_lt(name.as_str(), b.as_str()),
                };
                if replace_above {
                    proof {
                        if let Some(b) = &best_above {
                            assert forall|j: int|
                                0 <= j < i && #[trigger] prefixed_at(names@, prefix@, j) && lex_lt(
                                current@,
                                names@[j]@,
                            ) implies !lex_lt(names@[j]@, name@) by {
                                if lex_lt(names@[j]@, name@) {
                                    lemma_lex_lt_transitive(names@[j]@, name@, b@);
                                }
                            }
                        }
                    }
                    best_above = Some(name.clone());
                }
            }
        }
        i += 1;
    }
    match best_above {
        Some(m) => Some(m),
        None => best_all,
    }
}

/// The playlist before `current` among the prefixed names, wrapping
/// around: the greatest prefixed name below `current`, or, if none is
/// below, the greatest prefixed name overall. `None` exactly when no
/// name carries the prefix.
pub fn prev_playlist_name(names: &Vec<String>, prefix: &str, current: &str) -> (r: Option<String>)
    ensures
        r is Some <==> some_prefixed(names@, prefix@),
        r matches Some(m) ==> {
            &&& exists|i: int| #[trigger] prefixed_at(names@, prefix@, i) && names@[i]@ == m@
            &&& some_prefixed_below(names@, prefix@, current@) ==> lex_lt(m@, current@)
                && forall|i: int|
                prefixed_at(names@, prefix@, i) && lex_lt(names@[i]@, current@) ==> !lex_lt(
                    m@,
                    names@[i]@,
                )
            &&& !some_prefixed_below(names@, prefix@, current@) ==> forall|i: int|
                prefixed_at(names@, prefix@, i) ==> !lex_lt(m@, names@[i]@)
        },
{
    let n = names.len();
    let mut best_below: Option<String> = None;
    let mut best_all: Option<String> = None;
    let mut i: usize = 0;
    while i < n
        invariant
            0 <= i <= n,
            n == names@.len(),
            best_all is None <==> forall|j: int| 0 <= j < i ==> !is_prefix_of(prefix@, names@[j]@),
            best_all matches Some(b) ==> (exists|j: int|
                0 <= j < i && #[trigger] prefixed_at(names@, prefix@, j) && names@[j]@ == b@)
                && forall|j: int|
                0 <= j < i && #[trigger] prefixed_at(names@, prefix@, j) ==> !lex_lt(
                    b@,
                    names@[j]@,
                ),
            best_below is None <==> forall|j: int|
                0 <= j < i && #[trigger] prefixed_at(names@, prefix@, j) ==> !lex_lt(
                    names@[j]@,
                    current@,
                ),
            best_below matches Some(b) ==> (exists|j: int|
                0 <= j < i && #[trigger] prefixed_at(names@, prefix@, j) && names@[j]@ == b@)
                && lex_lt(b@, current@) && forall|j: int|
                0 <= j < i && #[trigger] prefixed_at(names@, prefix@, j) && lex_lt(
                    names@[j]@,
                    current@,
                ) ==> !lex_lt(b@, names@[j]@),
        decreases n - i,
    {
        let name = &names[i];
        if str_starts_with(name.as_str(), prefix) {
            proof {
                assert(prefixed_at(names@, prefix@, i as int));
                lemma_lex_lt_irreflexive(name@);
            }
            let replace_all = match &best_all {
                None => true,
                Some(b) => str_lt(b.as_str(), name.as_str()),
            };
            if replace_all {
                proof {
                    if let Some(b) = &best_all {
                        assert forall|j: int|
                            0 <= j < i && #[trigger] prefixed_at(names@, prefix@, j) implies !lex_lt(
                            name@,
                            names@[j]@,
                        ) by {
                            if lex_lt(name@, names@[j]@) {
                                lemma_lex_lt_transitive(b@, name@, names@[j]@);
                            }
                        }
                    }
                }
                best_all = Some(name.clone());
            }
            if str_lt(name.as_str(), current) {
                let replace_below = match &best_below {
                    None => true,
                    Some(b) => str_lt(b.as_str(), name.as_str()),
                };
                if replace_below {
                    proof {
                        if let Some(b) = &best_below {
                            assert forall|j: int|
                                0 <= j < i && #[trigger] prefixed_at(names@, prefix@, j) && lex_lt(
                                names@[j]@,
                                current@,
                            ) implies !lex_lt(name@, names@[j]@) by {
                                if lex_lt(name@, names@[j]@) {
                                    lemma_lex_lt_transitive(b@, name@, names@[j]@);
                                }
                            }
                        }
                    }
                    best_below = Some(name.clone());
                }
            }
        }
        i += 1;
    }
    match best_below {
        Some(m) => Some(m),
        None => best_all,
    }
}

} // verus!
