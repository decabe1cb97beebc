//! The feed dialects and their conversion into the canonical model.

use vstd::prelude::*;

use crate::blog::{lemma_latest_is_latest, Blog, BlogView, Post, PostView};
use crate::xml::atom::{atom_blog, AtomFeed, AtomFeedView};
use crate::xml::rss::{rss_blog, ChannelView, RssFeed};
use crate::xml::traits::WebFeed;

pub mod atom;
pub mod rss;
pub mod traits;

verus! {

/// `quick_xml::DeError`, the failure to read a document under a dialect. It
/// is carried through as it is; nothing is known of what it holds.
#[verifier::external_type_specification]
#[verifier::external_body]
pub struct ExDeError(quick_xml::DeError);

/// Why a feed, or one entry of it, could not be converted.
#[derive(Debug)]
pub enum ParserError {
    /// The raw document did not have the shape of the dialect it was read as.
    Deserialize(quick_xml::DeError),
    /// The document had the right shape but broke a rule of the model.
    Parse(String),
    /// An entry's timestamp could not be read under its dialect's date grammar.
    Date(String),
}

impl From<quick_xml::DeError> for ParserError {
    fn from(e: quick_xml::DeError) -> (res: ParserError) {
        ParserError::Deserialize(e)
    }
}

impl vstd::std_specs::convert::FromSpecImpl<quick_xml::DeError> for ParserError {
    open spec fn obeys_from_spec() -> bool {
        true
    }

    open spec fn from_spec(e: quick_xml::DeError) -> ParserError {
        ParserError::Deserialize(e)
    }
}

/// A [`ParserError`] with its messages as sequences of characters.
pub enum ParserErrorView {
    Deserialize(quick_xml::DeError),
    Parse(Seq<char>),
    Date(Seq<char>),
}

impl DeepView for ParserError {
    type V = ParserErrorView;

    open spec fn deep_view(&self) -> ParserErrorView {
        match self {
            ParserError::Deserialize(e) => ParserErrorView::Deserialize(*e),
            ParserError::Parse(message) => ParserErrorView::Parse(message@),
            ParserError::Date(message) => ParserErrorView::Date(message@),
        }
    }
}

impl View for ParserError {
    type V = ParserErrorView;

    open spec fn view(&self) -> ParserErrorView {
        self.deep_view()
    }
}

/// The outcome of converting one entry, as a mathematical value.
pub open spec fn post_outcome(res: Result<Post, ParserError>) -> Result<PostView, ParserErrorView> {
    match res {
        Ok(post) => Ok(post@),
        Err(e) => Err(e@),
    }
}

/// The outcome of converting one feed, as a mathematical value.
pub open spec fn blog_outcome(res: Result<Blog, ParserError>) -> Result<BlogView, ParserErrorView> {
    match res {
        Ok(blog) => Ok(blog@),
        Err(e) => Err(e@),
    }
}

/// What reading one raw document under each known dialect gave. The
/// dialects stand in their order of priority.
#[derive(Debug)]
pub struct Readings {
    pub atom: Result<AtomFeed, quick_xml::DeError>,
    pub rss: Result<RssFeed, quick_xml::DeError>,
}

/// [`Readings`] as a mathematical value.
pub struct ReadingsView {
    pub atom: Result<AtomFeedView, quick_xml::DeError>,
    pub rss: Result<ChannelView, quick_xml::DeError>,
}

impl DeepView for Readings {
    type V = ReadingsView;

    open spec fn deep_view(&self) -> ReadingsView {
        ReadingsView {
            atom: match self.atom {
                Ok(feed) => Ok(feed@),
                Err(e) => Err(e),
            },
            rss: match self.rss {
                Ok(feed) => Ok(feed@),
                Err(e) => Err(e),
            },
        }
    }
}

impl View for Readings {
    type V = ReadingsView;

    open spec fn view(&self) -> ReadingsView {
        self.deep_view()
    }
}

/// The feed that a raw document makes: that of the first dialect under which
/// it could be read. Where it could be read under none, the outcome is the
/// failure of the last reading.
pub open spec fn dispatch(readings: ReadingsView) -> Result<BlogView, ParserErrorView> {
    match readings.atom {
        Ok(feed) => atom_blog(feed),
        Err(_) => match readings.rss {
            Ok(channel) => rss_blog(channel),
            Err(e) => Err(ParserErrorView::Deserialize(e)),
        },
    }
}

/// Converts a raw document of unknown dialect.
pub fn parse_web_feed(readings: Readings) -> (res: Result<Blog, ParserError>)
    ensures
        blog_outcome(res) == dispatch(readings@),
        res matches Ok(blog) ==> blog@.wf(),
{
    match readings.atom {
        Ok(feed) => feed.into_blog(),
        Err(_) => readings.rss.into_blog(),
    }
}

/// A document that converts makes a feed that has a post and whose date is
/// that of its latest post.
pub proof fn lemma_dispatch_is_well_formed(readings: ReadingsView)
    ensures
        dispatch(readings) matches Ok(blog) ==> blog.wf(),
{
    match dispatch(readings) {
        Ok(blog) => {
            lemma_latest_is_latest(blog.posts);
        },
        Err(_) => {},
    }
}

/// A document that could be read under no dialect fails with a
/// deserialization error; one that could be read under some dialect never
/// does.
pub proof fn lemma_unreadable_document_fails(readings: ReadingsView)
    ensures
        dispatch(readings) matches Err(ParserErrorView::Deserialize(_)) <==> readings.atom is Err
            && readings.rss is Err,
{
}

} // verus!
