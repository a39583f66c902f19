//! Retrieving saved items, with filters.

use vstd::prelude::*;

use crate::api::{chosen_token, pick_token};
use crate::error::{opt_text, ApiError, Error};
use crate::models::{ContentType, DetailType, PocketItem, Sort, State, Tag, Timestamp};
use crate::transport::PocketyResponse;

verus! {

/// The body of a retrieve call.
#[derive(Debug, Clone)]
pub struct RetrieveRequestBody {
    pub consumer_key: String,
    pub access_token: String,
    /// Only items whose title or URL holds this text.
    pub search: Option<String>,
    /// Only items from this domain.
    pub domain: Option<String>,
    pub tag: Option<Tag>,
    pub state: Option<State>,
    pub content_type: Option<ContentType>,
    pub detail_type: Option<DetailType>,
    /// Only favorites, or only the others.
    pub favorite: Option<bool>,
    /// Only items changed since this time.
    pub since: Option<Timestamp>,
    pub sort: Option<Sort>,
    pub count: Option<u32>,
    pub offset: Option<u32>,
}

/// The answer to a retrieve call. The service sends the items as a JSON object
/// keyed by item identifier; `list` holds its entries in the order the object
/// lists them.
#[derive(Debug, Clone)]
pub struct RetrieveResponse {
    pub list: Vec<(String, PocketItem)>,
    pub status: u16,
    pub complete: u16,
    pub error: Option<String>,
    pub since: Option<i64>,
    pub search_meta: Option<serde_json::Value>,
}

/// The items of a listing, in its order.
pub open spec fn items_of(list: Seq<(String, PocketItem)>) -> Seq<PocketItem> {
    list.map_values(|e: (String, PocketItem)| e.1)
}

/// Whatever order the service lists its entries in, a retrieve call yields
/// exactly one item for each entry, in that order.
pub proof fn lemma_one_item_per_entry(list: Seq<(String, PocketItem)>)
    ensures
        items_of(list).len() == list.len(),
        forall|i: int| 0 <= i < list.len() ==> #[trigger] items_of(list)[i] == list[i].1,
{
}

impl RetrieveResponse {
    /// The items, in the order the service listed them.
    pub fn into_items(self) -> (r: Vec<PocketItem>)
        ensures
            r@ == items_of(self.list@),
    {
        let ghost all = self.list@;
        let n = self.list.len();
        let mut list = self.list;
        let mut reversed: Vec<(String, PocketItem)> = Vec::new();
        while list.len() > 0
            invariant
                all.len() == n,
                list@ == all.take(list.len() as int),
                reversed.len() + list.len() == n,
                forall|j: int| 0 <= j < reversed.len() ==> #[trigger] reversed@[j] == all[n - 1 - j],
            decreases list.len(),
        {
            let e = list.pop().unwrap();
            reversed.push(e);
            assert(list@ =~= all.take(list.len() as int));
        }
        let mut items: Vec<PocketItem> = Vec::new();
        while reversed.len() > 0
            invariant
                all.len() == n,
                reversed.len() + items.len() == n,
                forall|j: int| 0 <= j < reversed.len() ==> #[trigger] reversed@[j] == all[n - 1 - j],
                forall|j: int| 0 <= j < items.len() ==> #[trigger] items@[j] == all[j].1,
            decreases reversed.len(),
        {
            let e = reversed.pop().unwrap();
            items.push(e.1);
        }
        assert(items@ =~= items_of(all));
        items
    }
}

/// The answer to a retrieve call as its caller sees it: the items, with the
/// rate limits that came with them.
pub fn retrieved_items(response: PocketyResponse<RetrieveResponse>) -> (r: PocketyResponse<
    Vec<PocketItem>,
>)
    ensures
        r.rate_limits == response.rate_limits,
        r.data@ == items_of(response.data.list@),
{
    PocketyResponse { rate_limits: response.rate_limits, data: response.data.into_items() }
}

/// Gathers the filters of a retrieve call.
#[derive(Debug, Clone)]
pub struct RetrieveHandler {
    access_token: Option<String>,
    body: RetrieveRequestBody,
}

/// `b` is `filters` with the given consumer key and access token.
pub open spec fn is_filled(
    b: RetrieveRequestBody,
    filters: RetrieveRequestBody,
    consumer_key: Seq<char>,
    access_token: Seq<char>,
) -> bool {
    &&& b.consumer_key@ == consumer_key
    &&& b.access_token@ == access_token
    &&& (RetrieveRequestBody {
        consumer_key: filters.consumer_key,
        access_token: filters.access_token,
        ..b
    }) == filters
}

impl RetrieveHandler {
    /// The filters gathered so far.
    pub closed spec fn filters(&self) -> RetrieveRequestBody {
        self.body
    }

    /// The access token given to this builder, if any.
    pub closed spec fn own_token(&self) -> Option<Seq<char>> {
        opt_text(self.access_token)
    }

    /// A retrieve call with no filter.
    pub fn new() -> (r: RetrieveHandler)
        ensures
            r.own_token() is None,
            r.filters().consumer_key@ == Seq::<char>::empty(),
            r.filters().access_token@ == Seq::<char>::empty(),
            r.filters().search is None,
            r.filters().domain is None,
            r.filters().tag is None,
            r.filters().state is None,
            r.filters().content_type is None,
            r.filters().detail_type is None,
            r.filters().favorite is None,
            r.filters().since is None,
            r.filters().sort is None,
            r.filters().count is None,
            r.filters().offset is None,
    {
        RetrieveHandler {
            access_token: None,
            body: RetrieveRequestBody {
                consumer_key: String::new(),
                access_token: String::new(),
                search: None,
                domain: None,
                tag: None,
                state: None,
                content_type: None,
                detail_type: None,
                favorite: None,
                since: None,
                sort: None,
                count: None,
                offset: None,
            },
        }
    }

    /// Uses this access token rather than the one the client keeps.
    pub fn access_token(self, access_token: String) -> (r: RetrieveHandler)
        ensures
            r.own_token() == Some(access_token@),
            r.filters() == self.filters(),
    {
        RetrieveHandler { access_token: Some(access_token), ..self }
    }

    pub fn search(self, search: String) -> (r: RetrieveHandler)
        ensures
            r.own_token() == self.own_token(),
            r.filters() == (RetrieveRequestBody { search: Some(search), ..self.filters() }),
    {
        let mut h = self;
        h.body.search = Some(search);
        h
    }

    pub fn domain(self, domain: String) -> (r: RetrieveHandler)
        ensures
            r.own_token() == self.own_token(),
            r.filters() == (RetrieveRequestBody { domain: Some(domain), ..self.filters() }),
    {
        let mut h = self;
        h.body.domain = Some(domain);
        h
    }

    pub fn tag(self, tag: Tag) -> (r: RetrieveHandler)
        ensures
            r.own_token() == self.own_token(),
            r.filters() == (RetrieveRequestBody { tag: Some(tag), ..self.filters() }),
    {
        let mut h = self;
        h.body.tag = Some(tag);
        h
    }

    pub fn state(self, state: State) -> (r: RetrieveHandler)
        ensures
            r.own_token() == self.own_token(),
            r.filters() == (RetrieveRequestBody { state: Some(state), ..self.filters() }),
    {
        let mut h = self;
        h.body.state = Some(state);
        h
    }

    pub fn content_type(self, content_type: ContentType) -> (r: RetrieveHandler)
        ensures
            r.own_token() == self.own_token(),
            r.filters() == (RetrieveRequestBody {
                content_type: Some(content_type),
                ..self.filters()
            }),
    {
        let mut h = self;
        h.body.content_type = Some(content_type);
        h
    }

    pub fn detail_type(self, detail_type: DetailType) -> (r: RetrieveHandler)
        ensures
            r.own_token() == self.own_token(),
            r.filters() == (RetrieveRequestBody {
                detail_type: Some(detail_type),
                ..self.filters()
            }),
    {
        let mut h = self;
        h.body.detail_type = Some(detail_type);
        h
    }

    pub fn favorite(self, favorite: bool) -> (r: RetrieveHandler)
        ensures
            r.own_token() == self.own_token(),
            r.filters() == (RetrieveRequestBody { favorite: Some(favorite), ..self.filters() }),
    {
        let mut h = self;
        h.body.favorite = Some(favorite);
        h
    }

    pub fn since(self, since: Timestamp) -> (r: RetrieveHandler)
        ensures
            r.own_token() == self.own_token(),
            r.filters() == (RetrieveRequestBody { since: Some(since), ..self.filters() }),
    {
        let mut h = self;
        h.body.since = Some(since);
        h
    }

    pub fn sort(self, sort: Sort) -> (r: RetrieveHandler)
        ensures
            r.own_token() == self.own_token(),
            r.filters() == (RetrieveRequestBody { sort: Some(sort), ..self.filters() }),
    {
        let mut h = self;
        h.body.sort = Some(sort);
        h
    }

    pub fn offset(self, offset: u32) -> (r: RetrieveHandler)
        ensures
            r.own_token() == self.own_token(),
            r.filters() == (RetrieveRequestBody { offset: Some(offset), ..self.filters() }),
    {
        let mut h = self;
        h.body.offset = Some(offset);
        h
    }

    pub fn count(self, count: u32) -> (r: RetrieveHandler)
        ensures
            r.own_token() == self.own_token(),
            r.filters() == (RetrieveRequestBody { count: Some(count), ..self.filters() }),
    {
        let mut h = self;
        h.body.count = Some(count);
        h
    }

    /// The body to send: the filters with the consumer key and the access
    /// token. Without an access token the call fails before anything is sent.
    pub fn request(self, consumer_key: &str, stored_token: Option<String>) -> (r: Result<
        RetrieveRequestBody,
        Error,
    >)
        ensures
            chosen_token(self.own_token(), opt_text(stored_token)) matches Some(t) ==> (r matches Ok(
                b,
            ) && is_filled(b, self.filters(), consumer_key@, t)),
            chosen_token(self.own_token(), opt_text(stored_token)) is None ==> r == Err::<
                RetrieveRequestBody,
                Error,
            >(Error::Api(ApiError::MissingAccessToken)),
    {
        let token = match pick_token(self.access_token, stored_token) {
            Ok(t) => t,
            Err(e) => {
                return Err(e);
            },
        };
        Ok(RetrieveRequestBody {
            consumer_key: String::from_str(consumer_key),
            access_token: token,
            ..self.body
        })
    }
}

} // verus!
