//! The two conversions that every feed dialect provides.

use vstd::prelude::*;

use crate::blog::{Blog, BlogView, Post, PostView};
use crate::xml::{blog_outcome, post_outcome, ParserError, ParserErrorView};

verus! {

/// An entry of some dialect that can become a [`Post`].
pub trait BlogPost: Sized {
    /// What the conversion of this entry yields.
    spec fn post(&self) -> Result<PostView, ParserErrorView>;

    /// Converts the entry. A failure concerns this entry alone.
    fn into_post(self) -> (res: Result<Post, ParserError>)
        ensures
            post_outcome(res) == self.post(),
    ;
}

/// A document of some dialect that can become a [`Blog`].
pub trait WebFeed: Sized {
    /// What the conversion of this document yields.
    spec fn blog(&self) -> Result<BlogView, ParserErrorView>;

    /// Converts the document.
    fn into_blog(self) -> (res: Result<Blog, ParserError>)
        ensures
            blog_outcome(res) == self.blog(),
            res matches Ok(blog) ==> blog@.wf(),
    ;
}

/// The posts among the outcomes of converting a document's entries, in the
/// order of the entries; the failures are left out.
pub open spec fn surviving(outcomes: Seq<Result<PostView, ParserErrorView>>) -> Seq<PostView>
    decreases outcomes.len(),
{
    if outcomes.len() == 0 {
        Seq::empty()
    } else {
        match outcomes.last() {
            Ok(post) => surviving(outcomes.drop_last()).push(post),
            Err(_) => surviving(outcomes.drop_last()),
        }
    }
}

/// The outcomes of converting each of `entries`.
pub open spec fn outcomes<E: BlogPost>(entries: Seq<E>) -> Seq<Result<PostView, ParserErrorView>> {
    Seq::new(entries.len(), |i: int| entries[i].post())
}

/// An entry that fails leaves no trace: wherever it stands among the others,
/// the surviving posts are those of the others.
pub proof fn lemma_failure_is_dropped(
    all: Seq<Result<PostView, ParserErrorView>>,
    at: int,
    failure: ParserErrorView,
)
    requires
        0 <= at <= all.len(),
    ensures
        surviving(all.insert(at, Err(failure))) == surviving(all),
    decreases all.len(),
{
    let with = all.insert(at, Err(failure));
    if at == all.len() {
        assert(with.drop_last() == all);
    } else {
        let init = all.drop_last();
        lemma_failure_is_dropped(init, at, failure);
        assert(with.drop_last() == init.insert(at, Err(failure)));
        assert(with.last() == all.last());
    }
}

/// As many posts survive as there are entries that convert, so none survives
/// exactly when every entry fails.
pub proof fn lemma_surviving_count(all: Seq<Result<PostView, ParserErrorView>>)
    ensures
        surviving(all).len() == all.filter(|o: Result<PostView, ParserErrorView>| o is Ok).len(),
        surviving(all).len() == 0 <==> forall|i: int| 0 <= i < all.len() ==> (#[trigger] all[i]) is Err,
    decreases all.len(),
{
    reveal(Seq::filter);
    if all.len() > 0 {
        let init = all.drop_last();
        lemma_surviving_count(init);
        assert(all == init.push(all.last()));
        if surviving(all).len() == 0 {
            assert forall|i: int| 0 <= i < all.len() implies (#[trigger] all[i]) is Err by {
                if i < init.len() {
                    assert(init[i] == all[i]);
                }
            }
        }
        if forall|i: int| 0 <= i < all.len() ==> (#[trigger] all[i]) is Err {
            assert(all[all.len() - 1] is Err);
            assert forall|i: int| 0 <= i < init.len() implies (#[trigger] init[i]) is Err by {
                assert(init[i] == all[i]);
            }
        }
    }
}

/// The surviving posts are the posts of the entries that convert, each one
/// after those of the entries before it.
pub proof fn lemma_surviving_in_order(all: Seq<Result<PostView, ParserErrorView>>, j: int)
    requires
        0 <= j < all.len(),
        all[j] is Ok,
    ensures
        surviving(all.take(j)).len() < surviving(all).len(),
        surviving(all)[surviving(all.take(j)).len() as int] == all[j]->Ok_0,
    decreases all.len(),
{
    let init = all.drop_last();
    if j == all.len() - 1 {
        assert(all.take(j) == init);
    } else {
        lemma_surviving_in_order(init, j);
        assert(init.take(j) == all.take(j));
        assert(init[j] == all[j]);
    }
}

/// Two conversions of one document have the same outcome.
pub proof fn lemma_conversion_repeats<F: WebFeed>(
    document: F,
    first: Result<Blog, ParserError>,
    second: Result<Blog, ParserError>,
)
    requires
        blog_outcome(first) == document.blog(),
        blog_outcome(second) == document.blog(),
    ensures
        blog_outcome(first) == blog_outcome(second),
{
}

/// Converts every entry and keeps the posts of those that succeed.
pub fn collect_posts<E: BlogPost>(entries: Vec<E>) -> (posts: Vec<Post>)
    ensures
        posts.deep_view() == surviving(outcomes(entries@)),
{
    let ghost all = outcomes(entries@);
    let mut posts: Vec<Post> = Vec::new();
    for entry in it: entries.into_iter()
        invariant
            all == outcomes(it.seq()),
            posts.deep_view() == surviving(all.subrange(0, it.index() as int)),
    {
        let ghost before = posts.deep_view();
        proof {
            let i = it.index() as int;
            let next = all.subrange(0, i + 1);
            assert(next.drop_last() == all.subrange(0, i));
            assert(next.last() == entry.post());
        }
        match entry.into_post() {
            Ok(post) => {
                posts.push(post);
                assert(posts.deep_view() == before.push(post@));
            },
            Err(_) => {},
        }
    }
    assert(all.subrange(0, all.len() as int) == all);
    posts
}

} // verus!
