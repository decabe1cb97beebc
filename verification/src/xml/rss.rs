//! The RSS dialect.
//!
//! ```xml
//! <rss>
//!   <channel>
//!     <title></title>
//!     <item>
//!       <title></title>
//!       <link></link>
//!       <pubDate>RFC 2822</pubDate>
//!       <description></description>?
//!     </item>
//!   </channel>
//! </rss>
//! ```

use vstd::prelude::*;

use crate::blog::{assemble, Blog, BlogView, Post, PostView};
use crate::instant::{reading_view, rfc2822_reading, DateParseError, ZonedInstant, ZonedMoment};
use crate::xml::traits::{collect_posts, outcomes, surviving, BlogPost, WebFeed};
use crate::xml::{blog_outcome, post_outcome, ParserError, ParserErrorView};

verus! {

/// An `<item>` element.
#[derive(Debug, PartialEq, Eq, Clone)]
pub struct RssPost {
    pub title: String,
    pub link: String,
    pub description: Option<String>,
    pub pub_date: String,
}

/// An [`RssPost`] as a mathematical value.
pub struct RssPostView {
    pub title: Seq<char>,
    pub link: Seq<char>,
    pub description: Option<Seq<char>>,
    pub pub_date: Seq<char>,
}

impl DeepView for RssPost {
    type V = RssPostView;

    open spec fn deep_view(&self) -> RssPostView {
        RssPostView {
            title: self.title@,
            link: self.link@,
            description: self.description.deep_view(),
            pub_date: self.pub_date@,
        }
    }
}

impl View for RssPost {
    type V = RssPostView;

    open spec fn view(&self) -> RssPostView {
        self.deep_view()
    }
}

/// A `<channel>` element. A channel without items has `None` or an empty
/// vector here; the two mean the same.
#[derive(Debug, PartialEq, Eq, Clone)]
pub struct Channel {
    pub title: String,
    pub items: Option<Vec<RssPost>>,
}

/// A [`Channel`] as a mathematical value.
pub struct ChannelView {
    pub title: Seq<char>,
    pub items: Option<Seq<RssPostView>>,
}

impl DeepView for Channel {
    type V = ChannelView;

    open spec fn deep_view(&self) -> ChannelView {
        ChannelView { title: self.title@, items: self.items.deep_view() }
    }
}

impl View for Channel {
    type V = ChannelView;

    open spec fn view(&self) -> ChannelView {
        self.deep_view()
    }
}

/// An `<rss>` element.
#[derive(Debug, PartialEq, Eq, Clone)]
pub struct RssFeed {
    pub channel: Channel,
}

impl DeepView for RssFeed {
    type V = ChannelView;

    open spec fn deep_view(&self) -> ChannelView {
        self.channel@
    }
}

impl View for RssFeed {
    type V = ChannelView;

    open spec fn view(&self) -> ChannelView {
        self.deep_view()
    }
}

/// The post that an item makes once its timestamp has been read: its date is
/// the instant that was read, on the UTC scale. A timestamp that could not
/// be read fails the item with the reader's message.
pub open spec fn dated_item(item: RssPostView, date: Result<ZonedMoment, Seq<char>>) -> Result<
    PostView,
    ParserErrorView,
> {
    match date {
        Ok(read) => Ok(
            PostView {
                title: item.title,
                link: item.link,
                description: item.description,
                published_at: read.at,
            },
        ),
        Err(message) => Err(ParserErrorView::Date(message)),
    }
}

/// The post that an item makes, its timestamp read as RFC 2822.
pub open spec fn rss_post(item: RssPostView) -> Result<PostView, ParserErrorView> {
    dated_item(item, rfc2822_reading(item.pub_date))
}

/// The items of a channel; an absent collection is an empty one.
pub open spec fn rss_items(channel: ChannelView) -> Seq<RssPostView> {
    match channel.items {
        Some(items) => items,
        None => Seq::empty(),
    }
}

/// The posts of the items of a channel that convert, in document order.
pub open spec fn rss_posts(channel: ChannelView) -> Seq<PostView> {
    surviving(rss_items(channel).map_values(|item: RssPostView| rss_post(item)))
}

/// The feed that a channel makes: its title, and the posts of the items that
/// convert.
pub open spec fn rss_blog(channel: ChannelView) -> Result<BlogView, ParserErrorView> {
    assemble(channel.title, rss_posts(channel))
}

impl RssPost {
    /// Converts the item, given what the date parser made of `pub_date`.
    pub fn into_post_dated(self, date: Result<ZonedInstant, DateParseError>) -> (res: Result<
        Post,
        ParserError,
    >)
        ensures
            post_outcome(res) == dated_item(self@, reading_view(date)),
    {
        match date {
            Ok(read) => Ok(
                Post {
                    title: self.title,
                    link: self.link,
                    description: self.description,
                    published_at: read.to_utc(),
                },
            ),
            Err(e) => Err(ParserError::Date(e.message)),
        }
    }
}

impl BlogPost for RssPost {
    open spec fn post(&self) -> Result<PostView, ParserErrorView> {
        rss_post(self@)
    }

    fn into_post(self) -> (res: Result<Post, ParserError>)
        ensures
            post_outcome(res) == rss_post(self@),
    {
        let date = ZonedInstant::parse_from_rfc2822(self.pub_date.as_str());
        self.into_post_dated(date)
    }
}

impl WebFeed for RssFeed {
    open spec fn blog(&self) -> Result<BlogView, ParserErrorView> {
        rss_blog(self@)
    }

    fn into_blog(self) -> (res: Result<Blog, ParserError>)
        ensures
            blog_outcome(res) == rss_blog(self@),
    {
        let ghost channel = self@;
        let posts = match self.channel.items {
            Some(items) => {
                assert(outcomes(items@) == rss_items(channel).map_values(
                    |item: RssPostView| rss_post(item),
                ));
                collect_posts(items)
            },
            None => Vec::new(),
        };
        Blog::from_posts(self.channel.title, posts)
    }
}

impl WebFeed for Result<RssFeed, quick_xml::DeError> {
    open spec fn blog(&self) -> Result<BlogView, ParserErrorView> {
        match self {
            Ok(feed) => rss_blog(feed@),
            Err(e) => Err(ParserErrorView::Deserialize(*e)),
        }
    }

    fn into_blog(self) -> (res: Result<Blog, ParserError>)
        ensures
            self matches Ok(feed) ==> blog_outcome(res) == rss_blog(feed@),
            self matches Err(e) ==> blog_outcome(res) == Err::<BlogView, ParserErrorView>(
                ParserErrorView::Deserialize(e),
            ),
    {
        match self {
            Ok(feed) => feed.into_blog(),
            Err(e) => Err(ParserError::from(e)),
        }
    }
}

} // verus!
