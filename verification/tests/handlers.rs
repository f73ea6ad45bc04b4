use talks::error::finish;
use talks::{index, post_view, Error, HitCounter, Html, Post, State};

fn talk(link: &str, title: &str) -> Post {
    Post {
        title: title.to_string(),
        link: link.to_string(),
        body_html: format!("<p>about {}</p>", title),
    }
}

fn content(talks: Vec<Post>) -> State {
    State { talks }
}

fn post_page(post: &Post, body: &Html) -> Result<Vec<u8>, String> {
    Ok(format!("<h1>{}</h1>{}", post.title, body.0).into_bytes())
}

fn list_page(talks: &Vec<Post>) -> Result<Vec<u8>, String> {
    let mut page = String::from("<ul>");
    for post in talks {
        page.push_str(&format!("<li>{}</li>", post.title));
    }
    page.push_str("</ul>");
    Ok(page.into_bytes())
}

fn broken_post_page(_post: &Post, _body: &Html) -> Result<Vec<u8>, String> {
    Err("template broke".to_string())
}

fn broken_list_page(_talks: &Vec<Post>) -> Result<Vec<u8>, String> {
    Err("template broke".to_string())
}

fn text(page: Result<Vec<u8>, Error>) -> String {
    String::from_utf8(page.unwrap()).unwrap()
}

#[test]
fn two_talks_scenario() {
    let state = content(vec![talk("talks/a", "A"), talk("talks/b", "B")]);
    let mut hits = HitCounter::new();

    let first = post_view("a".to_string(), &state, &mut hits, post_page);
    assert_eq!(text(first), "<h1>A</h1><p>about A</p>");
    assert_eq!(hits.hits("a"), 1);

    let missing = post_view("c".to_string(), &state, &mut hits, post_page);
    assert_eq!(missing, Err(Error::PostNotFound("c".to_string())));
    assert_eq!(hits.hits("a"), 1);
    assert_eq!(hits.hits("b"), 0);
    assert_eq!(hits.hits("c"), 0);

    let again = post_view("a".to_string(), &state, &mut hits, post_page);
    assert_eq!(text(again), "<h1>A</h1><p>about A</p>");
    assert_eq!(hits.hits("a"), 2);
}

#[test]
fn duplicate_link_scenario() {
    let state = content(vec![talk("talks/dup", "First"), talk("talks/dup", "Second")]);
    let mut hits = HitCounter::new();
    let page = post_view("dup".to_string(), &state, &mut hits, post_page);
    assert_eq!(text(page), "<h1>Second</h1><p>about Second</p>");
    assert_eq!(hits.hits("dup"), 1);
}

#[test]
fn no_match_is_not_found_and_counts_nothing() {
    let state = content(vec![talk("talks/a", "A"), talk("talks/b", "B")]);
    let mut hits = HitCounter::new();
    for name in ["c", "", "talks/a", "A", "ab"] {
        let res = post_view(name.to_string(), &state, &mut hits, post_page);
        assert_eq!(res, Err(Error::PostNotFound(name.to_string())));
        assert_eq!(hits.hits(name), 0);
    }
    assert_eq!(hits.hits("a"), 0);
    assert_eq!(hits.hits("b"), 0);
}

#[test]
fn not_found_in_empty_content() {
    let state = content(vec![]);
    let mut hits = HitCounter::new();
    let res = post_view("a".to_string(), &state, &mut hits, post_page);
    assert_eq!(res, Err(Error::PostNotFound("a".to_string())));
    assert_eq!(hits.hits("a"), 0);
}

#[test]
fn single_match_counts_exactly_one() {
    let state = content(vec![talk("talks/a", "A"), talk("talks/b", "B"), talk("talks/c", "C")]);
    let mut hits = HitCounter::new();
    let page = post_view("b".to_string(), &state, &mut hits, post_page);
    assert_eq!(text(page), "<h1>B</h1><p>about B</p>");
    assert_eq!(hits.hits("b"), 1);
    assert_eq!(hits.hits("a"), 0);
    assert_eq!(hits.hits("c"), 0);
}

#[test]
fn last_match_wins_among_three() {
    let state = content(vec![
        talk("talks/x", "one"),
        talk("talks/x", "two"),
        talk("talks/y", "other"),
        talk("talks/x", "three"),
        talk("talks/z", "tail"),
    ]);
    let mut hits = HitCounter::new();
    let page = post_view("x".to_string(), &state, &mut hits, post_page);
    assert_eq!(text(page), "<h1>three</h1><p>about three</p>");
    assert_eq!(hits.hits("x"), 1);
}

#[test]
fn repeated_views_accumulate() {
    let state = content(vec![talk("talks/a", "A"), talk("talks/b", "B")]);
    let mut hits = HitCounter::new();
    hits.record("a");
    hits.record("a");
    hits.record("a");
    let prior = hits.hits("a");
    assert_eq!(prior, 3);
    for n in 1..=10u64 {
        let page = post_view("a".to_string(), &state, &mut hits, post_page);
        assert!(page.is_ok());
        assert_eq!(hits.hits("a"), prior + n);
    }
    assert_eq!(hits.hits("a"), 13);
    assert_eq!(hits.hits("b"), 0);
}

#[test]
fn the_hit_is_counted_under_the_requested_name() {
    let state = content(vec![talk("talks/a", "A")]);
    let mut hits = HitCounter::new();
    let page = post_view("a".to_string(), &state, &mut hits, post_page);
    assert!(page.is_ok());
    assert_eq!(hits.hits("a"), 1);
    assert_eq!(hits.hits("talks/a"), 0);
    assert_eq!(hits.hits("A"), 0);
}

#[test]
fn the_renderer_gets_the_record_and_its_body() {
    let state = content(vec![
        Post {
            title: "T".to_string(),
            link: "talks/t".to_string(),
            body_html: "<em>raw & kept</em>".to_string(),
        },
    ]);
    let mut hits = HitCounter::new();
    let page = post_view("t".to_string(), &state, &mut hits, |post: &Post, body: &Html| {
        assert_eq!(post, &state.talks[0]);
        assert_eq!(body, &Html("<em>raw & kept</em>".to_string()));
        Ok(body.0.clone().into_bytes())
    });
    assert_eq!(text(page), "<em>raw & kept</em>");
}

#[test]
fn a_failing_renderer_is_a_rendering_failure() {
    let state = content(vec![talk("talks/a", "A")]);
    let mut hits = HitCounter::new();
    let res = post_view("a".to_string(), &state, &mut hits, broken_post_page);
    assert_eq!(res, Err(Error::RenderingFailure("template broke".to_string())));
}

#[test]
fn the_hit_is_counted_before_the_page_is_rendered() {
    let state = content(vec![talk("talks/a", "A")]);
    let mut hits = HitCounter::new();
    let res = post_view("a".to_string(), &state, &mut hits, broken_post_page);
    assert!(res.is_err());
    assert_eq!(hits.hits("a"), 1);
}

#[test]
fn the_renderer_is_not_asked_for_a_missing_post() {
    let state = content(vec![talk("talks/a", "A")]);
    let mut hits = HitCounter::new();
    let res = post_view("b".to_string(), &state, &mut hits, |_post: &Post, _body: &Html| {
        panic!("rendered a post that is not there")
    });
    assert_eq!(res, Err(Error::PostNotFound("b".to_string())));
}

#[test]
fn index_lists_the_talks_in_order() {
    let state = content(vec![talk("talks/z", "Z"), talk("talks/a", "A"), talk("talks/m", "M")]);
    let page = index(&state, list_page);
    assert_eq!(text(page), "<ul><li>Z</li><li>A</li><li>M</li></ul>");
}

#[test]
fn index_of_empty_content_is_an_empty_listing() {
    let state = content(vec![]);
    let page = index(&state, list_page);
    assert_eq!(text(page), "<ul></ul>");
}

#[test]
fn index_of_much_content() {
    let mut talks = Vec::new();
    for n in 0..2000 {
        talks.push(talk(&format!("talks/{}", n), &format!("{}", n)));
    }
    let state = content(talks);
    let page = index(&state, |talks: &Vec<Post>| Ok(vec![b'x'; talks.len()]));
    assert_eq!(page.unwrap().len(), 2000);
}

#[test]
fn index_hands_the_renderer_the_whole_content() {
    let state = content(vec![talk("talks/dup", "First"), talk("talks/dup", "Second")]);
    let page = index(&state, |talks: &Vec<Post>| {
        assert_eq!(talks, &state.talks);
        Ok(Vec::new())
    });
    assert_eq!(page, Ok(Vec::new()));
}

#[test]
fn index_fails_only_with_the_renderer() {
    let state = content(vec![talk("talks/a", "A")]);
    let res = index(&state, broken_list_page);
    assert_eq!(res, Err(Error::RenderingFailure("template broke".to_string())));
}

#[test]
fn finish_keeps_the_page() {
    assert_eq!(finish(Ok(vec![1, 2, 3])), Ok(vec![1, 2, 3]));
    assert_eq!(finish(Ok(vec![])), Ok(vec![]));
}

#[test]
fn finish_wraps_the_failure() {
    assert_eq!(
        finish(Err("bad".to_string())),
        Err(Error::RenderingFailure("bad".to_string()))
    );
}

#[test]
fn body_is_the_markup_of_the_post() {
    let post = talk("talks/a", "A");
    assert_eq!(post.body(), Html("<p>about A</p>".to_string()));
}
