//! What surrounds the conversion of feeds: the list of the feeds to fetch,
//! the choice of what is recent enough for a digest, and the digest's page.

use vstd::prelude::*;
use vstd::string::*;

use crate::blog::{Blog, BlogView, Post, PostView};
use crate::html::{page, page_to_html};
use crate::instant::{elapsed_days, utc_day, Instant, Moment};
use crate::listing::{listed_links, parse_listing};
use crate::xml::{
    dispatch, lemma_dispatch_is_well_formed, parse_web_feed, Readings, ReadingsView,
};

verus! {

/// `date` lies at most `days` whole days before `now`.
pub open spec fn is_recent(days: i64, now: Moment, date: Moment) -> bool {
    elapsed_days(now, date) <= days
}

/// The posts among `posts` that are recent, in their order.
pub open spec fn recent_posts(days: i64, now: Moment, posts: Seq<PostView>) -> Seq<PostView> {
    posts.filter(|post: PostView| is_recent(days, now, post.published_at))
}

/// What a digest shows of a feed: nothing of a feed whose date is not recent
/// or whose posts are all too old, and else the feed with its recent posts.
pub open spec fn recent_blog(days: i64, now: Moment, blog: BlogView) -> Option<BlogView> {
    if is_recent(days, now, blog.last_build_date) && recent_posts(days, now, blog.posts).len() > 0 {
        Some(
            BlogView {
                title: blog.title,
                last_build_date: blog.last_build_date,
                posts: recent_posts(days, now, blog.posts),
            },
        )
    } else {
        None
    }
}

/// What a digest shows of one raw document: nothing where it does not
/// convert.
pub open spec fn digest_entry(days: i64, now: Moment, readings: ReadingsView) -> Option<BlogView> {
    match dispatch(readings) {
        Ok(blog) => recent_blog(days, now, blog),
        Err(_) => None,
    }
}

/// The feeds of a digest, in the order of the documents they come from.
pub open spec fn digest(days: i64, now: Moment, documents: Seq<ReadingsView>) -> Seq<BlogView> {
    documents.filter_map(|readings: ReadingsView| digest_entry(days, now, readings))
}

/// A feed whose date is recent has its latest post among the recent ones: it
/// shows in the digest, and what shows of it is a feed in its own right. A
/// feed whose date is not recent does not show.
pub proof fn lemma_recent_blog_keeps_latest(days: i64, now: Moment, blog: BlogView)
    requires
        blog.wf(),
    ensures
        recent_blog(days, now, blog) is Some <==> is_recent(days, now, blog.last_build_date),
        recent_blog(days, now, blog) matches Some(shown) ==> shown.wf(),
{
    let recent = |post: PostView| is_recent(days, now, post.published_at);
    let kept = blog.posts.filter(recent);
    if is_recent(days, now, blog.last_build_date) {
        let k = choose|i: int|
            0 <= i < blog.posts.len() && (#[trigger] blog.posts[i]).published_at
                == blog.last_build_date;
        blog.posts.lemma_filter_contains(recent, k);
        let j = choose|j: int| 0 <= j < kept.len() && kept[j] == blog.posts[k];
        assert(kept[j].published_at == blog.last_build_date);
        assert forall|i: int| 0 <= i < kept.len() implies (#[trigger] kept[i]).published_at.at_or_before(
            blog.last_build_date,
        ) by {
            assert(kept.contains(kept[i]));
            blog.posts.lemma_filter_contains_rev(recent, kept[i]);
            let at = choose|at: int| 0 <= at < blog.posts.len() && blog.posts[at] == kept[i];
            assert(blog.posts[at].published_at.at_or_before(blog.last_build_date));
        }
    }
}

/// The feeds of a digest are feeds in their own right.
pub proof fn lemma_digest_is_well_formed(days: i64, now: Moment, documents: Seq<ReadingsView>)
    ensures
        forall|i: int|
            0 <= i < digest(days, now, documents).len() ==> (#[trigger] digest(
                days,
                now,
                documents,
            )[i]).wf(),
    decreases documents.len(),
{
    if documents.len() > 0 {
        let before = digest(days, now, documents.drop_last());
        lemma_digest_is_well_formed(days, now, documents.drop_last());
        match dispatch(documents.last()) {
            Ok(blog) => {
                lemma_dispatch_is_well_formed(documents.last());
                lemma_recent_blog_keeps_latest(days, now, blog);
            },
            Err(_) => {},
        }
        assert forall|i: int| 0 <= i < digest(days, now, documents).len() implies (#[trigger] digest(
            days,
            now,
            documents,
        )[i]).wf() by {
            if i < before.len() {
                assert(digest(days, now, documents)[i] == before[i]);
            }
        }
    }
}

/// The links of the feeds: those handed over where `feed_flag` is above one,
/// and else those that the list of feeds names.
pub open spec fn feeds_of(feed_flag: usize, given: Seq<Seq<char>>, listing: Seq<char>) -> Seq<
    Seq<char>,
> {
    if feed_flag > 1 {
        given
    } else {
        listed_links(listing)
    }
}

/// The links that are worth fetching: those that are not empty.
pub open spec fn fetchable(links: Seq<Seq<char>>) -> Seq<Seq<char>> {
    links.filter(|link: Seq<char>| link.len() > 0)
}

/// Whether `read_feeds` goes by the list of feeds, so that the caller has to
/// supply its text.
pub fn reads_listing(feed_flag: usize) -> (res: bool)
    ensures
        res == (feed_flag <= 1),
{
    feed_flag <= 1
}

/// The links of the feeds. `listing` is the text of the list of feeds; it is
/// not looked at where `feed_flag` is above one.
pub fn read_feeds(feed_flag: usize, env_links: Vec<&str>, listing: &str) -> (links: Vec<String>)
    ensures
        links.deep_view() == feeds_of(feed_flag, env_links.deep_view(), listing@),
{
    if feed_flag > 1 {
        let mut links: Vec<String> = Vec::new();
        let mut i: usize = 0;
        while i < env_links.len()
            invariant
                i <= env_links.len(),
                links.deep_view() == env_links.deep_view().take(i as int),
            decreases env_links.len() - i,
        {
            let ghost before = links.deep_view();
            links.push(String::from_str(env_links[i]));
            assert(links.deep_view() == before.push(env_links.deep_view()[i as int]));
            i += 1;
        }
        assert(env_links.deep_view().take(i as int) == env_links.deep_view());
        return links;
    }
    parse_listing(listing)
}

/// The links to fetch: those of `read_feeds` that are not empty.
pub fn feed_links(feed_flag: usize, env_links: Vec<&str>, listing: &str) -> (links: Vec<String>)
    ensures
        links.deep_view() == fetchable(feeds_of(feed_flag, env_links.deep_view(), listing@)),
{
    let all = read_feeds(feed_flag, env_links, listing);
    let ghost nonempty = |link: Seq<char>| link.len() > 0;
    let mut links: Vec<String> = Vec::new();
    for link in it: all.into_iter()
        invariant
            all.deep_view() == Seq::new(it.seq().len(), |i: int| it.seq()[i].deep_view()),
            nonempty == |link: Seq<char>| link.len() > 0,
            links.deep_view() == all.deep_view().take(it.index() as int).filter(nonempty),
    {
        let ghost before = links.deep_view();
        proof {
            reveal(Seq::filter);
            let i = it.index() as int;
            assert(all.deep_view().take(i + 1).drop_last() == all.deep_view().take(i));
            assert(all.deep_view().take(i + 1).last() == link@);
        }
        if !link.as_str().is_empty() {
            links.push(link);
            assert(links.deep_view() == before.push(link@));
        }
    }
    assert(all.deep_view().take(all.deep_view().len() as int) == all.deep_view());
    links
}

/// Whether `date` lies at most `n` whole days before `now`.
pub fn within_n_days(n: i64, now: &Instant, date: &Instant) -> (res: bool)
    ensures
        res == is_recent(n, now@, date@),
{
    now.days_since(date) <= n
}

/// Keeps the posts that are recent.
pub fn keep_recent_posts(days: i64, now: &Instant, posts: Vec<Post>) -> (kept: Vec<Post>)
    ensures
        kept.deep_view() == recent_posts(days, now@, posts.deep_view()),
{
    let ghost all = posts.deep_view();
    let ghost recent = |post: PostView| is_recent(days, now@, post.published_at);
    let mut kept: Vec<Post> = Vec::new();
    for post in it: posts.into_iter()
        invariant
            all == Seq::new(it.seq().len(), |i: int| it.seq()[i].deep_view()),
            recent == |post: PostView| is_recent(days, now@, post.published_at),
            kept.deep_view() == all.take(it.index() as int).filter(recent),
    {
        let ghost before = kept.deep_view();
        proof {
            reveal(Seq::filter);
            let i = it.index() as int;
            assert(all.take(i + 1).drop_last() == all.take(i));
            assert(all.take(i + 1).last() == post.deep_view());
        }
        if within_n_days(days, now, &post.published_at) {
            kept.push(post);
            assert(kept.deep_view() == before.push(post.deep_view()));
        }
    }
    assert(all.take(all.len() as int) == all);
    kept
}

/// Cuts a feed down to its recent posts.
pub fn keep_recent(days: i64, now: &Instant, blog: Blog) -> (res: Option<Blog>)
    ensures
        res.deep_view() == recent_blog(days, now@, blog@),
        blog@.wf() ==> (res matches Some(shown) ==> shown@.wf()),
{
    proof {
        if blog@.wf() {
            lemma_recent_blog_keeps_latest(days, now@, blog@);
        }
    }
    if !within_n_days(days, now, &blog.last_build_date) {
        return None;
    }
    let posts = keep_recent_posts(days, now, blog.posts);
    if posts.len() == 0 {
        return None;
    }
    Some(Blog { title: blog.title, last_build_date: blog.last_build_date, posts })
}

/// Converts the raw documents that were downloaded, and makes the digest of
/// those that convert: each with its recent posts, and none that is left
/// without one.
pub fn download_blogs(days: i64, now: &Instant, documents: Vec<Readings>) -> (blogs: Vec<Blog>)
    ensures
        blogs.deep_view() == digest(days, now@, documents.deep_view()),
        forall|i: int| 0 <= i < blogs.len() ==> (#[trigger] blogs[i])@.wf(),
{
    let ghost all = documents.deep_view();
    let ghost entry = |readings: ReadingsView| digest_entry(days, now@, readings);
    let mut blogs: Vec<Blog> = Vec::new();
    for readings in it: documents.into_iter()
        invariant
            all == Seq::new(it.seq().len(), |i: int| it.seq()[i].deep_view()),
            entry == |readings: ReadingsView| digest_entry(days, now@, readings),
            blogs.deep_view() == all.take(it.index() as int).filter_map(entry),
    {
        let ghost before = blogs.deep_view();
        proof {
            let i = it.index() as int;
            assert(all.take(i + 1).drop_last() == all.take(i));
            assert(all.take(i + 1).last() == readings.deep_view());
        }
        match parse_web_feed(readings) {
            Ok(blog) => {
                match keep_recent(days, now, blog) {
                    Some(recent) => {
                        blogs.push(recent);
                        assert(blogs.deep_view() == before + seq![recent.deep_view()]);
                    },
                    None => {},
                }
            },
            Err(_) => {},
        }
    }
    assert(all.take(all.len() as int) == all);
    assert(blogs.deep_view() == digest(days, now@, all));
    assert forall|i: int| 0 <= i < blogs.len() implies (#[trigger] blogs[i])@.wf() by {
        lemma_digest_is_well_formed(days, now@, all);
        assert(digest(days, now@, all)[i] == blogs[i]@);
    }
    blogs
}

/// Writes the page of the digest that was made at `now`.
pub fn map_to_html(blogs: &Vec<Blog>, now: &Instant) -> (html: String)
    ensures
        html@ == page(utc_day(now@), blogs.deep_view()),
{
    let today = now.day();
    page_to_html(blogs, today.as_str())
}

/// Runs `f` and hands back what it returns. `fname` names the computation
/// for whoever keeps the time around the call.
pub fn time_func<F, O>(f: F, fname: &str) -> (res: O) where F: Fn() -> O, O: Clone
    requires
        f.requires(()),
    ensures
        f.ensures((), res),
{
    f()
}

} // verus!
