//! The two handlers: the index of all talks, and the page of one talk.

use crate::error::{finish, page, Error};
use crate::hits::{bump, succ, HitCounter};
use crate::lookup::{find_post, is_last_match, no_match};
use crate::post::{Html, Post, State};
use vstd::prelude::*;

verus! {

/// Serves the index: the page that `render` makes of all talks, in the
/// order in which the content holds them.
///
/// Nothing but the renderer can make this fail, whatever the content holds
/// and however much of it there is; with no talks at all the renderer is
/// asked for the page of an empty list.
pub fn index<R>(state: &State, render: R) -> (res: Result<Vec<u8>, Error>) where
    R: Fn(&Vec<Post>) -> Result<Vec<u8>, String>,

    requires
        render.requires((&state.talks,)),
    ensures
        exists|out: Result<Vec<u8>, String>| #[trigger]
            render.ensures((&state.talks,), out) && res == page(out),
        (forall|out: Result<Vec<u8>, String>| #[trigger]
            render.ensures((&state.talks,), out) ==> out is Ok) ==> res is Ok,
{
    let out = render(&state.talks);
    finish(out)
}

/// Serves the page of the talk that `name` resolves to.
///
/// Where no talk has the link `talks/` + `name`, the answer is
/// [`Error::PostNotFound`] with the name, and nothing is counted. Otherwise
/// the last such talk is taken, one hit is counted for `name`, and then
/// `render` is asked for the page of that talk and its body: the answer is
/// what it makes of them, or its failure.
pub fn post_view<R>(name: String, state: &State, hits: &mut HitCounter, render: R) -> (res: Result<
    Vec<u8>,
    Error,
>) where R: Fn(&Post, &Html) -> Result<Vec<u8>, String>
    requires
        forall|i: int|
            is_last_match(state@, name@, i) ==> render.requires(
                (&state.talks[i], &state.talks[i].fragment()),
            ),
    ensures
        no_match(state@, name@) ==> res == Err::<Vec<u8>, Error>(Error::PostNotFound(name))
            && final(hits)@ == old(hits)@,
        forall|i: int|
            is_last_match(state@, name@, i) ==> final(hits)@ == bump(old(hits)@, name@)
                && exists|out: Result<Vec<u8>, String>| #[trigger]
                    render.ensures((&state.talks[i], &state.talks[i].fragment()), out) && res
                        == page(out),
        final(hits).count(name@) == if no_match(state@, name@) {
            old(hits).count(name@)
        } else {
            succ(old(hits).count(name@))
        },
        forall|i: int|
            is_last_match(state@, name@, i) && (forall|out: Result<Vec<u8>, String>| #[trigger]
                render.ensures((&state.talks[i], &state.talks[i].fragment()), out) ==> out is Ok)
                ==> res is Ok,
{
    match find_post(state, name.as_str()) {
        None => Err(Error::PostNotFound(name)),
        Some(i) => {
            let post = &state.talks[i];
            hits.record(name.as_str());
            let body = post.body();
            let out = render(post, &body);
            finish(out)
        },
    }
}

} // verus!
