//! The records that the pages are made of.

use vstd::prelude::*;

verus! {

/// One talk, as it was loaded: the handlers read it and never change it.
#[derive(Clone, Debug, PartialEq, Eq)]
pub struct Post {
    /// The title shown for the talk.
    pub title: String,
    /// The relative path that identifies the talk, such as `talks/intro`.
    pub link: String,
    /// The body of the talk, already rendered to HTML.
    pub body_html: String,
}

/// A talk as a plain value.
pub struct PostView {
    pub title: Seq<char>,
    pub link: Seq<char>,
    pub body_html: Seq<char>,
}

impl View for Post {
    type V = PostView;

    open spec fn view(&self) -> PostView {
        PostView { title: self.title@, link: self.link@, body_html: self.body_html@ }
    }
}

/// Markup that is taken as it is: a renderer writes it out without escaping.
#[derive(Clone, Debug, PartialEq, Eq)]
pub struct Html(pub String);

impl View for Html {
    type V = Seq<char>;

    open spec fn view(&self) -> Seq<char> {
        self.0@
    }
}

impl Post {
    /// The markup for the body of this talk.
    pub open spec fn fragment(&self) -> Html {
        Html(self.body_html)
    }

    /// The body of this talk as markup for a renderer.
    pub fn body(&self) -> (body: Html)
        ensures
            body == self.fragment(),
            body@ == self@.body_html,
    {
        Html(self.body_html.clone())
    }
}

/// The content that the handlers share: every talk, in the order of
/// loading.
#[derive(Clone, Debug, PartialEq, Eq)]
pub struct State {
    pub talks: Vec<Post>,
}

impl View for State {
    type V = Seq<PostView>;

    open spec fn view(&self) -> Seq<PostView> {
        self.talks@.map_values(|p: Post| p@)
    }
}

} // verus!
