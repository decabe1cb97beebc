//! The canonical model: a feed is a [`Blog`], an entry of it a [`Post`].

use vstd::prelude::*;
use vstd::string::*;

use crate::instant::{Instant, Moment};
use crate::xml::{blog_outcome, ParserError, ParserErrorView};

verus! {

/// One entry of a feed.
#[derive(Debug, Clone, PartialEq, Eq)]
pub struct Post {
    pub title: String,
    pub link: String,
    pub description: Option<String>,
    pub published_at: Instant,
}

/// A [`Post`] as a mathematical value.
pub struct PostView {
    pub title: Seq<char>,
    pub link: Seq<char>,
    pub description: Option<Seq<char>>,
    pub published_at: Moment,
}

impl DeepView for Post {
    type V = PostView;

    open spec fn deep_view(&self) -> PostView {
        PostView {
            title: self.title@,
            link: self.link@,
            description: self.description.deep_view(),
            published_at: self.published_at@,
        }
    }
}

impl View for Post {
    type V = PostView;

    open spec fn view(&self) -> PostView {
        self.deep_view()
    }
}

/// A feed: its title, its posts in the order of the source document, and the
/// instant of its latest post.
#[derive(Debug, Clone, PartialEq, Eq)]
pub struct Blog {
    pub title: String,
    pub last_build_date: Instant,
    pub posts: Vec<Post>,
}

/// A [`Blog`] as a mathematical value.
pub struct BlogView {
    pub title: Seq<char>,
    pub last_build_date: Moment,
    pub posts: Seq<PostView>,
}

impl DeepView for Blog {
    type V = BlogView;

    open spec fn deep_view(&self) -> BlogView {
        BlogView {
            title: self.title@,
            last_build_date: self.last_build_date@,
            posts: self.posts.deep_view(),
        }
    }
}

impl View for Blog {
    type V = BlogView;

    open spec fn view(&self) -> BlogView {
        self.deep_view()
    }
}

/// `m` is the instant of one of `posts`, and none of them is later.
pub open spec fn is_latest(m: Moment, posts: Seq<PostView>) -> bool {
    &&& exists|i: int| 0 <= i < posts.len() && (#[trigger] posts[i]).published_at == m
    &&& forall|i: int| 0 <= i < posts.len() ==> (#[trigger] posts[i]).published_at.at_or_before(m)
}

/// The latest instant among `posts`, which must not be empty.
pub open spec fn latest(posts: Seq<PostView>) -> Moment
    decreases posts.len(),
{
    if posts.len() <= 1 {
        posts[0].published_at
    } else {
        let before = latest(posts.drop_last());
        if before.at_or_before(posts.last().published_at) {
            posts.last().published_at
        } else {
            before
        }
    }
}

impl BlogView {
    /// The invariant of a feed: it has a post, and its date is that of its
    /// latest post.
    pub open spec fn wf(self) -> bool {
        &&& self.posts.len() > 0
        &&& is_latest(self.last_build_date, self.posts)
    }
}

/// The message of the error that stands for a feed without posts.
pub open spec fn empty_feed_message(title: Seq<char>) -> Seq<char> {
    "Empty feed: "@ + title
}

/// The feed that a title and converted posts make: none without posts.
pub open spec fn assemble(title: Seq<char>, posts: Seq<PostView>) -> Result<
    BlogView,
    ParserErrorView,
> {
    if posts.len() == 0 {
        Err(ParserErrorView::Parse(empty_feed_message(title)))
    } else {
        Ok(BlogView { title, last_build_date: latest(posts), posts })
    }
}

/// The latest instant of a non-empty sequence of posts is the instant of one
/// of them and not before any other.
pub proof fn lemma_latest_is_latest(posts: Seq<PostView>)
    requires
        posts.len() > 0,
    ensures
        is_latest(latest(posts), posts),
    decreases posts.len(),
{
    if posts.len() == 1 {
        assert(posts[0].published_at == latest(posts));
    } else {
        let init = posts.drop_last();
        lemma_latest_is_latest(init);
        let before = latest(init);
        let k = choose|i: int| 0 <= i < init.len() && (#[trigger] init[i]).published_at == before;
        assert(posts[k] == init[k]);
        let n = posts.len() - 1;
        assert(posts[n] == posts.last());
        assert forall|i: int| 0 <= i < posts.len() implies (#[trigger] posts[i]).published_at.at_or_before(
            latest(posts),
        ) by {
            if i < n {
                assert(posts[i] == init[i]);
            }
        }
    }
}

/// At most one instant is the latest of a sequence of posts.
pub proof fn lemma_latest_unique(a: Moment, b: Moment, posts: Seq<PostView>)
    requires
        is_latest(a, posts),
        is_latest(b, posts),
    ensures
        a == b,
{
}

impl Blog {
    /// Makes a feed of a title and the posts that survived conversion. The
    /// feed's date is derived from the posts; without posts there is no feed.
    pub fn from_posts(title: String, posts: Vec<Post>) -> (res: Result<Blog, ParserError>)
        ensures
            blog_outcome(res) == assemble(title@, posts.deep_view()),
            res matches Ok(blog) ==> blog@.wf(),
    {
        let n = posts.len();
        if n == 0 {
            let message = String::from_str("Empty feed: ").concat(title.as_str());
            return Err(ParserError::Parse(message));
        }
        let ghost all = posts.deep_view();
        let mut best = posts[0].published_at;
        let mut i: usize = 1;
        assert(all.subrange(0, 1)[0] == all[0]);
        while i < n
            invariant
                1 <= i <= n,
                n == posts.len(),
                all == posts.deep_view(),
                best@ == latest(all.subrange(0, i as int)),
            decreases n - i,
        {
            let candidate = posts[i].published_at;
            proof {
                let next = all.subrange(0, i + 1);
                assert(next.drop_last() == all.subrange(0, i as int));
                assert(next.last() == all[i as int]);
            }
            if best.at_or_before(&candidate) {
                best = candidate;
            }
            i += 1;
        }
        proof {
            assert(all.subrange(0, n as int) == all);
            lemma_latest_is_latest(all);
        }
        Ok(Blog { title, last_build_date: best, posts })
    }
}

} // verus!
