use pockety::api::modify::{action_results, TagsAdd, UpdateName};
use pockety::api::retrieve::retrieved_items;
use pockety::models::{ItemId, ItemStatus, PocketItem, Sort, State, Tag, Tags, Timestamp};
use pockety::{
    AddHandler, ApiError, Error, ModifyHandler, ModifyResponse, PocketAction, PocketyResponse,
    RateLimits, RetrieveHandler, RetrieveResponse,
};

fn item(id: &str) -> PocketItem {
    PocketItem {
        item_id: ItemId(id.to_string()),
        resolved_id: None,
        given_url: None,
        given_title: Some(format!("title {id}")),
        favorite: None,
        status: ItemStatus::Normal,
        time_added: None,
        time_updated: None,
        time_read: None,
        time_favorited: None,
        sort_id: None,
        resolved_url: None,
        resolved_title: None,
        excerpt: None,
        is_article: None,
        is_index: None,
        has_image: None,
        has_video: None,
        word_count: None,
        tags: None,
        authors: None,
        images: None,
        videos: None,
        lang: None,
        time_to_read: None,
        listen_duration_estimate: None,
        top_image_url: None,
        domain_metadata: None,
    }
}

fn listing(ids: &[&str]) -> RetrieveResponse {
    RetrieveResponse {
        list: ids.iter().map(|id| (id.to_string(), item(id))).collect(),
        status: 1,
        complete: 1,
        error: None,
        since: Some(1_700_000_000),
        search_meta: None,
    }
}

#[test]
fn retrieve_yields_one_item_per_key() {
    for ids in [vec![], vec!["9"], vec!["3", "1", "2"], vec!["229279689", "7", "44", "1000"]] {
        let items = listing(&ids).into_items();
        assert_eq!(items.len(), ids.len());
        for (it, id) in items.iter().zip(ids.iter()) {
            assert_eq!(it.item_id, ItemId(id.to_string()));
        }
    }
}

#[test]
fn retrieve_count_ignores_key_order() {
    let a = listing(&["1", "2", "3", "4", "5"]).into_items();
    let b = listing(&["5", "3", "1", "4", "2"]).into_items();
    assert_eq!(a.len(), 5);
    assert_eq!(b.len(), 5);
}

#[test]
fn retrieved_items_keep_rate_limits() {
    let limits = RateLimits { key_remaining: Some(3), ..RateLimits::default() };
    let r = retrieved_items(PocketyResponse { rate_limits: limits, data: listing(&["a", "b"]) });
    assert_eq!(r.rate_limits, limits);
    assert_eq!(r.data.len(), 2);
}

#[test]
fn retrieve_request_carries_filters() {
    let body = RetrieveHandler::new()
        .search("rust".to_string())
        .domain("example.com".to_string())
        .tag(Tag::Untagged)
        .state(State::Unread)
        .favorite(true)
        .since(Timestamp(1_700_000_000))
        .sort(Sort::Newest)
        .count(10)
        .offset(20)
        .request("key", Some("stored".to_string()))
        .unwrap();
    assert_eq!(body.consumer_key, "key");
    assert_eq!(body.access_token, "stored");
    assert_eq!(body.search.as_deref(), Some("rust"));
    assert_eq!(body.domain.as_deref(), Some("example.com"));
    assert_eq!(body.tag, Some(Tag::Untagged));
    assert_eq!(body.state, Some(State::Unread));
    assert_eq!(body.favorite, Some(true));
    assert_eq!(body.since, Some(Timestamp(1_700_000_000)));
    assert_eq!(body.sort, Some(Sort::Newest));
    assert_eq!(body.count, Some(10));
    assert_eq!(body.offset, Some(20));
    assert_eq!(body.content_type, None);
    assert_eq!(body.detail_type, None);
}

#[test]
fn retrieve_prefers_its_own_token() {
    let body = RetrieveHandler::new()
        .access_token("own".to_string())
        .request("key", Some("stored".to_string()))
        .unwrap();
    assert_eq!(body.access_token, "own");
}

#[test]
fn retrieve_without_token_fails() {
    match RetrieveHandler::new().request("key", None) {
        Err(Error::Api(ApiError::MissingAccessToken)) => {}
        other => panic!("unexpected {other:?}"),
    }
}

fn archive(id: &str) -> PocketAction {
    PocketAction::update(UpdateName::Archive, ItemId(id.to_string()), Timestamp(1))
}

#[test]
fn modify_batch_keeps_push_order() {
    let tags = PocketAction::TagsAdd(TagsAdd {
        item_id: ItemId("2".to_string()),
        tags: Tags(vec!["a".to_string()]),
        time: None,
    });
    let body = ModifyHandler::new()
        .push(archive("1"))
        .push(tags.clone())
        .push(archive("3"))
        .request("key", Some("tok".to_string()))
        .unwrap();
    assert_eq!(body.actions, vec![archive("1"), tags, archive("3")]);
    assert_eq!(body.access_token, "tok");
    let response = ModifyResponse { status: 1, action_results: vec![true, false, true] };
    let results = action_results(response, body.actions.len()).unwrap();
    assert_eq!(results, vec![true, false, true]);
}

#[test]
fn modify_results_of_wrong_length_are_a_payload_error() {
    let response = ModifyResponse { status: 1, action_results: vec![true] };
    match action_results(response, 3) {
        Err(Error::Parse(_)) => {}
        other => panic!("unexpected {other:?}"),
    }
}

#[test]
fn modify_without_token_fails() {
    match ModifyHandler::new().push(archive("1")).request("key", None) {
        Err(Error::Api(ApiError::MissingAccessToken)) => {}
        other => panic!("unexpected {other:?}"),
    }
}

#[test]
fn action_names() {
    assert_eq!(archive("1").action_name(), "archive");
    let fav = PocketAction::update(UpdateName::Favorite, ItemId("1".to_string()), Timestamp(2));
    assert!(matches!(fav, PocketAction::Favorite(_)));
    assert_eq!(fav.action_name(), "favorite");
    assert_eq!(UpdateName::from_name("readd"), Some(UpdateName::Readd));
    let clear = PocketAction::TagsClear(pockety::api::modify::TagsClear {
        item_id: ItemId("1".to_string()),
        time: None,
    });
    assert_eq!(clear.action_name(), "tags_clear");
}

#[test]
fn add_request_needs_token_then_url() {
    match AddHandler::new().url("https://example.com").request("key", None) {
        Err(Error::Api(ApiError::MissingAccessToken)) => {}
        other => panic!("unexpected {other:?}"),
    }
    match AddHandler::new().title("t").request("key", Some("tok".to_string())) {
        Err(Error::Api(ApiError::MissingUrl)) => {}
        other => panic!("unexpected {other:?}"),
    }
    match AddHandler::new().url("").request("key", Some("tok".to_string())) {
        Err(Error::Api(ApiError::MissingUrl)) => {}
        other => panic!("unexpected {other:?}"),
    }
}

#[test]
fn add_request_carries_fields() {
    let body = AddHandler::new()
        .url("https://example.com/a")
        .title("A")
        .tags(Tags(vec!["x".to_string(), "y".to_string()]))
        .tweet_id("123")
        .request("key", Some("tok".to_string()))
        .unwrap();
    assert_eq!(body.consumer_key, "key");
    assert_eq!(body.access_token, "tok");
    assert_eq!(body.url, "https://example.com/a");
    assert_eq!(body.title.as_deref(), Some("A"));
    assert_eq!(body.tags, Some(Tags(vec!["x".to_string(), "y".to_string()])));
    assert_eq!(body.tweet_id.as_deref(), Some("123"));
}
