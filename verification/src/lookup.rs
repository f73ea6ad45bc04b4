//! From a requested name to the talk that it stands for.

use crate::post::{PostView, State};
use vstd::prelude::*;

verus! {

/// What every link of a talk begins with: `talks/`.
pub open spec fn prefix() -> Seq<char> {
    seq!['t', 'a', 'l', 'k', 's', '/']
}

/// The link that a requested name stands for.
pub open spec fn talk_link(name: Seq<char>) -> Seq<char> {
    prefix() + name
}

/// Whether `post` is a talk that `name` asks for.
pub open spec fn answers(post: PostView, name: Seq<char>) -> bool {
    post.link == talk_link(name)
}

/// Whether `i` is the place of the last talk that `name` asks for.
pub open spec fn is_last_match(talks: Seq<PostView>, name: Seq<char>, i: int) -> bool {
    &&& 0 <= i < talks.len()
    &&& answers(talks[i], name)
    &&& forall|j: int| i < j < talks.len() ==> !answers(#[trigger] talks[j], name)
}

/// Whether no talk is one that `name` asks for.
pub open spec fn no_match(talks: Seq<PostView>, name: Seq<char>) -> bool {
    forall|j: int| 0 <= j < talks.len() ==> !answers(#[trigger] talks[j], name)
}

/// The place of the talk that `name` resolves to: of those that it asks
/// for, the one that comes last.
pub open spec fn resolve(talks: Seq<PostView>, name: Seq<char>) -> Option<int>
    decreases talks.len(),
{
    if talks.len() == 0 {
        None
    } else if answers(talks.last(), name) {
        Some(talks.len() - 1)
    } else {
        resolve(talks.drop_last(), name)
    }
}

/// `resolve` finds the last match where there is a match, and nothing
/// where there is none.
pub proof fn lemma_resolve(talks: Seq<PostView>, name: Seq<char>)
    ensures
        match resolve(talks, name) {
            Some(i) => is_last_match(talks, name, i),
            None => no_match(talks, name),
        },
    decreases talks.len(),
{
    if talks.len() > 0 && !answers(talks.last(), name) {
        let front = talks.drop_last();
        lemma_resolve(front, name);
        assert forall|j: int| 0 <= j < front.len() implies front[j] == talks[j] by {}
    }
}

/// The last match is the only place that `resolve` can give, and no match
/// means that it gives none.
pub proof fn lemma_resolve_unique(talks: Seq<PostView>, name: Seq<char>, i: int)
    ensures
        is_last_match(talks, name, i) <==> resolve(talks, name) == Some(i),
        no_match(talks, name) <==> resolve(talks, name) is None,
{
    lemma_resolve(talks, name);
}

/// A name that one talk alone answers resolves to that talk.
pub proof fn lemma_single_match(talks: Seq<PostView>, name: Seq<char>, i: int)
    requires
        0 <= i < talks.len(),
        answers(talks[i], name),
        forall|j: int| 0 <= j < talks.len() && j != i ==> !answers(#[trigger] talks[j], name),
    ensures
        is_last_match(talks, name, i),
        resolve(talks, name) == Some(i),
{
    lemma_resolve_unique(talks, name, i);
}

/// Last match wins: where two talks answer one name, the name does not
/// resolve to the earlier of them, but to a talk at or after the later.
pub proof fn lemma_last_match_wins(talks: Seq<PostView>, name: Seq<char>, i: int, j: int)
    requires
        0 <= i < j < talks.len(),
        answers(talks[i], name),
        answers(talks[j], name),
    ensures
        !is_last_match(talks, name, i),
        resolve(talks, name) matches Some(k) && j <= k && is_last_match(talks, name, k),
{
    lemma_resolve(talks, name);
}

/// Builds the link that `name` stands for.
pub fn link_for(name: &str) -> (link: String)
    ensures
        link@ == talk_link(name@),
{
    proof {
        reveal_strlit("talks/");
    }
    let mut link = String::from_str("talks/");
    assert(link@ =~= prefix());
    link.append(name);
    link
}

/// Looks for the talk that `name` resolves to, reading every record from
/// the first to the last and keeping the latest that fits.
pub fn find_post(state: &State, name: &str) -> (found: Option<usize>)
    ensures
        match found {
            Some(i) => resolve(state@, name@) == Some(i as int) && is_last_match(
                state@,
                name@,
                i as int,
            ),
            None => resolve(state@, name@) is None && no_match(state@, name@),
        },
{
    let target = link_for(name);
    let mut want: Option<usize> = None;
    let n = state.talks.len();
    for i in 0..n
        invariant
            n == state.talks.len(),
            target@ == talk_link(name@),
            match want {
                Some(k) => resolve(state@.take(i as int), name@) == Some(k as int),
                None => resolve(state@.take(i as int), name@) is None,
            },
    {
        proof {
            let seen = state@.take(i + 1);
            assert(seen.last() == state.talks[i as int]@);
            assert(seen.drop_last() =~= state@.take(i as int));
        }
        if state.talks[i].link == target {
            want = Some(i);
        }
    }
    proof {
        assert(state@.take(n as int) =~= state@);
        lemma_resolve(state@, name@);
    }
    want
}

} // verus!
