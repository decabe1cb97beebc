//! The Atom dialect.
//!
//! ```xml
//! <feed>
//!   <title></title>
//!   <entry>
//!     <title></title>
//!     <link href=""/>
//!     <updated>RFC 3339</updated>
//!     <summary></summary>?
//!   </entry>
//! </feed>
//! ```

use vstd::prelude::*;
use vstd::string::*;

use crate::blog::{assemble, empty_feed_message, is_latest, lemma_latest_is_latest, Blog, BlogView, Post, PostView};
use crate::instant::{reading_view, rfc3339_reading, DateParseError, ZonedInstant, ZonedMoment};
use crate::xml::traits::{
    collect_posts, lemma_failure_is_dropped, lemma_surviving_count, outcomes, surviving, BlogPost,
    WebFeed,
};
use crate::xml::{blog_outcome, post_outcome, ParserError, ParserErrorView};

verus! {

/// A `<link>` element; its address is the `href` attribute.
#[derive(Debug, PartialEq, Eq, Clone)]
pub struct Link {
    href: String,
}

impl DeepView for Link {
    type V = Seq<char>;

    closed spec fn deep_view(&self) -> Seq<char> {
        self.href@
    }
}

impl View for Link {
    type V = Seq<char>;

    open spec fn view(&self) -> Seq<char> {
        self.deep_view()
    }
}

impl Link {
    pub fn new(href: String) -> (link: Link)
        ensures
            link@ == href@,
    {
        Link { href }
    }

    pub fn href(&self) -> (href: &String)
        ensures
            href@ == self@,
    {
        &self.href
    }
}

/// An `<entry>` element.
#[derive(Debug, PartialEq, Eq, Clone)]
pub struct AtomPost {
    pub title: String,
    pub links: Vec<Link>,
    pub summary: Option<String>,
    pub updated: String,
}

/// An [`AtomPost`] as a mathematical value.
pub struct AtomPostView {
    pub title: Seq<char>,
    pub links: Seq<Seq<char>>,
    pub summary: Option<Seq<char>>,
    pub updated: Seq<char>,
}

impl DeepView for AtomPost {
    type V = AtomPostView;

    open spec fn deep_view(&self) -> AtomPostView {
        AtomPostView {
            title: self.title@,
            links: self.links.deep_view(),
            summary: self.summary.deep_view(),
            updated: self.updated@,
        }
    }
}

impl View for AtomPost {
    type V = AtomPostView;

    open spec fn view(&self) -> AtomPostView {
        self.deep_view()
    }
}

/// A `<feed>` element. A document without entries has `None` or an empty
/// vector here; the two mean the same.
#[derive(Debug, PartialEq, Eq, Clone)]
pub struct AtomFeed {
    pub title: String,
    pub entries: Option<Vec<AtomPost>>,
}

/// An [`AtomFeed`] as a mathematical value.
pub struct AtomFeedView {
    pub title: Seq<char>,
    pub entries: Option<Seq<AtomPostView>>,
}

impl DeepView for AtomFeed {
    type V = AtomFeedView;

    open spec fn deep_view(&self) -> AtomFeedView {
        AtomFeedView { title: self.title@, entries: self.entries.deep_view() }
    }
}

impl View for AtomFeed {
    type V = AtomFeedView;

    open spec fn view(&self) -> AtomFeedView {
        self.deep_view()
    }
}

/// The message of the error that stands for an entry without a link.
pub open spec fn missing_link_message(title: Seq<char>) -> Seq<char> {
    "Missing link: "@ + title
}

/// The post that an entry makes once its timestamp has been read: its first
/// link is the post's link and its date the instant that was read, on the
/// UTC scale. A timestamp that could not be read fails the entry with the
/// reader's message.
pub open spec fn dated_post(entry: AtomPostView, date: Result<ZonedMoment, Seq<char>>) -> Result<
    PostView,
    ParserErrorView,
> {
    if entry.links.len() == 0 {
        Err(ParserErrorView::Parse(missing_link_message(entry.title)))
    } else {
        match date {
            Ok(read) => Ok(
                PostView {
                    title: entry.title,
                    link: entry.links[0],
                    description: entry.summary,
                    published_at: read.at,
                },
            ),
            Err(message) => Err(ParserErrorView::Date(message)),
        }
    }
}

/// The post that an entry makes, its timestamp read as RFC 3339.
pub open spec fn atom_post(entry: AtomPostView) -> Result<PostView, ParserErrorView> {
    dated_post(entry, rfc3339_reading(entry.updated))
}

/// The entries of a document; an absent collection is an empty one.
pub open spec fn atom_entries(feed: AtomFeedView) -> Seq<AtomPostView> {
    match feed.entries {
        Some(entries) => entries,
        None => Seq::empty(),
    }
}

/// The posts of the entries of a document that convert, in document order.
pub open spec fn atom_posts(feed: AtomFeedView) -> Seq<PostView> {
    surviving(atom_entries(feed).map_values(|e: AtomPostView| atom_post(e)))
}

/// The feed that a document makes: its title, and the posts of the entries
/// that convert.
pub open spec fn atom_blog(feed: AtomFeedView) -> Result<BlogView, ParserErrorView> {
    assemble(feed.title, atom_posts(feed))
}

/// An entry with a link and a timestamp that reads as RFC 3339 converts: the
/// post has the entry's title and summary, the first of its links, and the
/// instant that the timestamp denotes.
pub proof fn lemma_sound_entry_converts(entry: AtomPostView)
    requires
        entry.links.len() > 0,
        rfc3339_reading(entry.updated) is Ok,
    ensures
        atom_post(entry) == Ok::<PostView, ParserErrorView>(
            PostView {
                title: entry.title,
                link: entry.links[0],
                description: entry.summary,
                published_at: rfc3339_reading(entry.updated)->Ok_0.at,
            },
        ),
{
}

/// An entry without a link, or with a timestamp that does not read as
/// RFC 3339, fails, and the feed is converted as if the entry were not there.
pub proof fn lemma_unsound_entry_is_dropped(feed: AtomFeedView, at: int, entry: AtomPostView)
    requires
        0 <= at <= atom_entries(feed).len(),
        entry.links.len() == 0 || rfc3339_reading(entry.updated) is Err,
    ensures
        atom_post(entry) is Err,
        atom_blog(
            AtomFeedView {
                title: feed.title,
                entries: Some(atom_entries(feed).insert(at, entry)),
            },
        ) == atom_blog(feed),
{
    let convert = |e: AtomPostView| atom_post(e);
    let entries = atom_entries(feed);
    assert(entries.insert(at, entry).map_values(convert) == entries.map_values(convert).insert(
        at,
        atom_post(entry),
    ));
    lemma_failure_is_dropped(entries.map_values(convert), at, atom_post(entry)->Err_0);
}

/// A document converts exactly when one of its entries does. Without
/// entries, or with entries that all fail, the outcome is the error that
/// names the empty feed; there is no feed without posts.
pub proof fn lemma_empty_feed_fails(feed: AtomFeedView)
    ensures
        atom_blog(feed) is Err <==> forall|i: int|
            0 <= i < atom_entries(feed).len() ==> atom_post(#[trigger] atom_entries(feed)[i]) is Err,
        atom_blog(feed) is Err ==> atom_blog(feed) == Err::<BlogView, ParserErrorView>(
            ParserErrorView::Parse(empty_feed_message(feed.title)),
        ),
        atom_blog(feed) matches Ok(blog) ==> blog.posts.len() > 0,
{
    let all = atom_entries(feed).map_values(|e: AtomPostView| atom_post(e));
    lemma_surviving_count(all);
    if atom_blog(feed) is Err {
        assert forall|i: int| 0 <= i < atom_entries(feed).len() implies atom_post(
            #[trigger] atom_entries(feed)[i],
        ) is Err by {
            assert(all[i] is Err);
        }
    }
    if forall|i: int|
        0 <= i < atom_entries(feed).len() ==> atom_post(#[trigger] atom_entries(feed)[i]) is Err {
        assert forall|i: int| 0 <= i < all.len() implies (#[trigger] all[i]) is Err by {
            assert(atom_post(atom_entries(feed)[i]) is Err);
        }
    }
}

/// The date of a converted feed is the instant of its latest post.
pub proof fn lemma_feed_date_is_latest(feed: AtomFeedView)
    ensures
        atom_blog(feed) matches Ok(blog) ==> blog.title == feed.title && blog.posts == atom_posts(
            feed,
        ) && is_latest(blog.last_build_date, blog.posts),
{
    if atom_blog(feed) is Ok {
        lemma_latest_is_latest(atom_posts(feed));
    }
}

impl AtomPost {
    /// Converts the entry, given what the date parser made of `updated`.
    pub fn into_post_dated(self, date: Result<ZonedInstant, DateParseError>) -> (res: Result<
        Post,
        ParserError,
    >)
        ensures
            post_outcome(res) == dated_post(self@, reading_view(date)),
    {
        if self.links.len() == 0 {
            let message = String::from_str("Missing link: ").concat(self.title.as_str());
            return Err(ParserError::Parse(message));
        }
        // The first link stands for the entry.
        let link = self.links[0].href.clone();
        assert(link@ == self@.links[0]);
        match date {
            Ok(read) => Ok(
                Post {
                    title: self.title,
                    link,
                    description: self.summary,
                    published_at: read.to_utc(),
                },
            ),
            Err(e) => Err(ParserError::Date(e.message)),
        }
    }
}

impl BlogPost for AtomPost {
    open spec fn post(&self) -> Result<PostView, ParserErrorView> {
        atom_post(self@)
    }

    fn into_post(self) -> (res: Result<Post, ParserError>)
        ensures
            post_outcome(res) == atom_post(self@),
    {
        let date = ZonedInstant::parse_from_rfc3339(self.updated.as_str());
        self.into_post_dated(date)
    }
}

impl WebFeed for AtomFeed {
    open spec fn blog(&self) -> Result<BlogView, ParserErrorView> {
        atom_blog(self@)
    }

    fn into_blog(self) -> (res: Result<Blog, ParserError>)
        ensures
            blog_outcome(res) == atom_blog(self@),
    {
        let ghost feed = self@;
        let posts = match self.entries {
            Some(entries) => {
                assert(outcomes(entries@) == atom_entries(feed).map_values(
                    |e: AtomPostView| atom_post(e),
                ));
                collect_posts(entries)
            },
            None => Vec::new(),
        };
        Blog::from_posts(self.title, posts)
    }
}

impl WebFeed for Result<AtomFeed, quick_xml::DeError> {
    open spec fn blog(&self) -> Result<BlogView, ParserErrorView> {
        match self {
            Ok(feed) => atom_blog(feed@),
            Err(e) => Err(ParserErrorView::Deserialize(*e)),
        }
    }

    fn into_blog(self) -> (res: Result<Blog, ParserError>)
        ensures
            self matches Ok(feed) ==> blog_outcome(res) == atom_blog(feed@),
            self matches Err(e) ==> blog_outcome(res) == Err::<BlogView, ParserErrorView>(
                ParserErrorView::Deserialize(e),
            ),
    {
        match self {
            Ok(feed) => feed.into_blog(),
            Err(e) => Err(ParserError::from(e)),
        }
    }
}

} // verus!
