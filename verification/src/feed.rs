//! The feed document: what a fetched feed says, entry by entry.

use vstd::prelude::*;

use crate::error::ApiError;

verus! {

/// One entry of a feed.
#[derive(Debug)]
pub struct FeedItem {
    pub link: Option<String>,
    pub title: Option<String>,
    pub author: Option<String>,
    pub description: Option<String>,
    pub pub_date: Option<String>,
    pub categories: Vec<String>,
}

/// A feed entry as plain values.
pub struct FeedItemView {
    pub link: Option<Seq<char>>,
    pub title: Option<Seq<char>>,
    pub author: Option<Seq<char>>,
    pub description: Option<Seq<char>>,
    pub pub_date: Option<Seq<char>>,
    pub categories: Seq<Seq<char>>,
}

impl View for FeedItem {
    type V = FeedItemView;

    open spec fn view(&self) -> FeedItemView {
        FeedItemView {
            link: self.link.deep_view(),
            title: self.title.deep_view(),
            author: self.author.deep_view(),
            description: self.description.deep_view(),
            pub_date: self.pub_date.deep_view(),
            categories: self.categories.deep_view(),
        }
    }
}

/// A parsed feed: its entries in document order, and what the feed says of
/// itself.
#[derive(Debug)]
pub struct Channel {
    pub items: Vec<FeedItem>,
    pub pub_date: Option<String>,
    pub ttl: Option<String>,
    pub categories: Vec<String>,
}

/// A parsed feed as plain values.
pub struct ChannelView {
    pub items: Seq<FeedItemView>,
    pub pub_date: Option<Seq<char>>,
    pub ttl: Option<Seq<char>>,
    pub categories: Seq<Seq<char>>,
}

impl View for Channel {
    type V = ChannelView;

    open spec fn view(&self) -> ChannelView {
        ChannelView {
            items: self.items@.map_values(|item: FeedItem| item@),
            pub_date: self.pub_date.deep_view(),
            ttl: self.ttl.deep_view(),
            categories: self.categories.deep_view(),
        }
    }
}

/// The feed that a document holds, if the document is a feed.
pub uninterp spec fn feed_document(bytes: Seq<u8>) -> Option<ChannelView>;

/// `rss::Channel::read_from` on a byte slice, with the fields that the
/// library reads moved out of the parsed channel. The same bytes always give
/// the same feed; bytes that are no feed give the parser's error.
#[verifier::external_body]
fn read_channel(bytes: &[u8]) -> (r: Result<Channel, rss::Error>)
    ensures
        match r {
            Ok(channel) => feed_document(bytes@) == Some(channel@),
            Err(_) => feed_document(bytes@) is None,
        },
{
    let channel = rss::Channel::read_from(bytes)?;
    Ok(Channel {
        items: channel.items.into_iter().map(|item| FeedItem {
            link: item.link, title: item.title, author: item.author,
            description: item.description, pub_date: item.pub_date,
            categories: item.categories.into_iter().map(|category| category.name).collect(),
        }).collect(),
        pub_date: channel.pub_date,
        ttl: channel.ttl,
        categories: channel.categories.into_iter().map(|category| category.name).collect(),
    })
}

/// Reads the body of a feed response. Succeeds exactly on a body that is a
/// feed document; any other body is a feed error.
pub fn get_channel_for_source(body: &[u8]) -> (r: Result<Channel, ApiError>)
    ensures
        match r {
            Ok(channel) => feed_document(body@) == Some(channel@),
            Err(error) => feed_document(body@) is None && error is Rss,
        },
{
    match read_channel(body) {
        Ok(channel) => Ok(channel),
        Err(error) => Err(ApiError::Rss(error)),
    }
}

} // verus!
