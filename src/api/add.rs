//! Adding one item by its URL.

use vstd::prelude::*;

use crate::api::pick_token;
use crate::error::{opt_text, ApiError, Error};
use crate::models::{ItemHas, ItemId, ItemImage, ItemVideo, Tags, Timestamp};

verus! {

/// The body of an add call.
#[derive(Debug, Clone)]
pub struct AddRequestBody {
    pub consumer_key: String,
    pub access_token: String,
    pub url: String,
    pub title: Option<String>,
    pub tags: Option<Tags>,
    /// The tweet the item was shared in.
    pub tweet_id: Option<String>,
}

/// What the service's parser made of an added URL.
#[derive(Debug, Clone, PartialEq)]
pub struct AddResponse {
    /// The identifier of the added item.
    pub item_id: ItemId,
    /// The URL as it was added.
    pub normal_url: String,
    /// The identifier of the resolved item.
    pub resolved_id: ItemId,
    /// The URL that the added one leads to.
    pub resolved_url: String,
    /// The identifier of the resolved URL's domain.
    pub domain_id: ItemId,
    /// The identifier of the added URL's domain.
    pub origin_domain_id: ItemId,
    /// The status the parser got when it fetched the item.
    pub response_code: String,
    pub mime_type: String,
    pub content_length: u32,
    pub encoding: String,
    pub date_resolved: Timestamp,
    /// When the item was published, where the parser found it.
    pub date_published: Timestamp,
    pub title: String,
    pub excerpt: String,
    /// For an article, its number of words.
    pub word_count: u32,
    pub has_image: ItemHas,
    pub has_video: ItemHas,
    /// The parser thinks the item is an index page.
    pub is_index: bool,
    /// The parser thinks the item is an article.
    pub is_article: bool,
    pub authors: Vec<String>,
    pub images: Vec<ItemImage>,
    pub videos: Vec<ItemVideo>,
}

/// Gathers the parameters of an add call.
#[derive(Debug, Clone)]
pub struct AddHandler {
    url: Option<String>,
    title: Option<String>,
    tags: Option<Tags>,
    tweet_id: Option<String>,
}

impl AddHandler {
    pub closed spec fn url_text(&self) -> Option<Seq<char>> {
        opt_text(self.url)
    }

    pub closed spec fn title_text(&self) -> Option<Seq<char>> {
        opt_text(self.title)
    }

    pub closed spec fn tag_list(&self) -> Option<Tags> {
        self.tags
    }

    pub closed spec fn tweet_text(&self) -> Option<Seq<char>> {
        opt_text(self.tweet_id)
    }

    /// A URL is at hand: given, and not empty.
    pub open spec fn has_url(&self) -> bool {
        self.url_text() matches Some(u) && u.len() > 0
    }

    /// An add call with nothing given yet.
    pub fn new() -> (r: AddHandler)
        ensures
            r.url_text() is None,
            r.title_text() is None,
            r.tag_list() is None,
            r.tweet_text() is None,
    {
        AddHandler { url: None, title: None, tags: None, tweet_id: None }
    }

    pub fn url(self, url: &str) -> (r: AddHandler)
        ensures
            r.url_text() == Some(url@),
            r.title_text() == self.title_text(),
            r.tag_list() == self.tag_list(),
            r.tweet_text() == self.tweet_text(),
    {
        AddHandler { url: Some(String::from_str(url)), ..self }
    }

    pub fn title(self, title: &str) -> (r: AddHandler)
        ensures
            r.url_text() == self.url_text(),
            r.title_text() == Some(title@),
            r.tag_list() == self.tag_list(),
            r.tweet_text() == self.tweet_text(),
    {
        AddHandler { title: Some(String::from_str(title)), ..self }
    }

    pub fn tags(self, tags: Tags) -> (r: AddHandler)
        ensures
            r.url_text() == self.url_text(),
            r.title_text() == self.title_text(),
            r.tag_list() == Some(tags),
            r.tweet_text() == self.tweet_text(),
    {
        AddHandler { tags: Some(tags), ..self }
    }

    pub fn tweet_id(self, tweet_id: &str) -> (r: AddHandler)
        ensures
            r.url_text() == self.url_text(),
            r.title_text() == self.title_text(),
            r.tag_list() == self.tag_list(),
            r.tweet_text() == Some(tweet_id@),
    {
        AddHandler { tweet_id: Some(String::from_str(tweet_id)), ..self }
    }

    /// The body to send. Without an access token, or without a URL, the call
    /// fails before anything is sent; the token is checked first.
    pub fn request(self, consumer_key: &str, stored_token: Option<String>) -> (r: Result<
        AddRequestBody,
        Error,
    >)
        ensures
            opt_text(stored_token) is None ==> r == Err::<AddRequestBody, Error>(
                Error::Api(ApiError::MissingAccessToken),
            ),
            opt_text(stored_token) is Some && !self.has_url() ==> r == Err::<AddRequestBody, Error>(
                Error::Api(ApiError::MissingUrl),
            ),
            opt_text(stored_token) matches Some(t) ==> (self.has_url() ==> (r matches Ok(b) && {
                &&& b.consumer_key@ == consumer_key@
                &&& b.access_token@ == t
                &&& Some(b.url@) == self.url_text()
                &&& opt_text(b.title) == self.title_text()
                &&& b.tags == self.tag_list()
                &&& opt_text(b.tweet_id) == self.tweet_text()
            })),
    {
        let token = match pick_token(None, stored_token) {
            Ok(t) => t,
            Err(e) => {
                return Err(e);
            },
        };
        let url = match self.url {
            Some(u) => u,
            None => {
                return Err(Error::Api(ApiError::MissingUrl));
            },
        };
        if url.as_str().unicode_len() == 0 {
            return Err(Error::Api(ApiError::MissingUrl));
        }
        Ok(AddRequestBody {
            consumer_key: String::from_str(consumer_key),
            access_token: token,
            url,
            title: self.title,
            tags: self.tags,
            tweet_id: self.tweet_id,
        })
    }
}

} // verus!
