use pockety::models::{
    same_text, ContentType, DetailType, ItemHas, ItemId, ItemStatus, PocketItem, Sort, State, Tag,
    Timestamp,
};

fn item(id: &str, resolved: Option<&str>) -> PocketItem {
    PocketItem {
        item_id: ItemId(id.to_string()),
        resolved_id: resolved.map(|r| ItemId(r.to_string())),
        given_url: Some("https://example.com/a".to_string()),
        given_title: None,
        favorite: Some("0".to_string()),
        status: ItemStatus::Normal,
        time_added: Some(Timestamp(1_431_648_000)),
        time_updated: None,
        time_read: None,
        time_favorited: None,
        sort_id: Some(0),
        resolved_url: None,
        resolved_title: None,
        excerpt: None,
        is_article: Some("1".to_string()),
        is_index: None,
        has_image: Some(ItemHas::Yes),
        has_video: Some(ItemHas::No),
        word_count: Some("120".to_string()),
        tags: None,
        authors: None,
        images: None,
        videos: None,
        lang: None,
        time_to_read: None,
        listen_duration_estimate: None,
        top_image_url: None,
        domain_metadata: None,
    }
}

#[test]
fn timestamp_string_form_round_trips() {
    for n in [0i64, 1_431_648_000, -86_400, i64::MAX, i64::MIN] {
        let t = Timestamp(n);
        let text = t.to_text();
        assert_eq!(text, n.to_string());
        assert_eq!(Timestamp::from_text(&text), Some(t));
    }
}

#[test]
fn timestamp_number_form_round_trips() {
    let t = Timestamp(1_431_648_000);
    let number: i64 = t.0;
    assert_eq!(Timestamp(number), t);
}

#[test]
fn timestamp_refuses_bad_text() {
    assert_eq!(Timestamp::from_text(""), None);
    assert_eq!(Timestamp::from_text("soon"), None);
    assert_eq!(Timestamp::from_text("1.5"), None);
}

#[test]
fn timestamp_now_is_after_the_epoch() {
    let t = Timestamp::now();
    assert!(t.0 > 1_500_000_000);
}

#[test]
fn item_status_codes() {
    assert_eq!(ItemStatus::Normal.as_u8(), 0);
    assert_eq!(ItemStatus::Archived.as_u8(), 1);
    assert_eq!(ItemStatus::Deleted.as_u8(), 2);
    assert_eq!(ItemStatus::Deleted.as_str(), "2");
    assert_eq!(ItemStatus::from_name("1"), Some(ItemStatus::Archived));
    assert_eq!(ItemStatus::from_name("3"), None);
    assert_eq!(ItemStatus::from_name(""), None);
}

#[test]
fn item_has_codes() {
    assert_eq!(ItemHas::No.as_u8(), 0);
    assert_eq!(ItemHas::Yes.as_u8(), 1);
    assert_eq!(ItemHas::Is.as_u8(), 2);
    for v in [ItemHas::No, ItemHas::Yes, ItemHas::Is] {
        assert_eq!(ItemHas::from_name(v.as_str()), Some(v));
    }
}

#[test]
fn option_names() {
    assert_eq!(DetailType::Complete.as_str(), "complete");
    assert_eq!(Sort::Site.as_str(), "site");
    assert_eq!(State::Archive.as_str(), "archive");
    assert_eq!(ContentType::Video.as_str(), "video");
    assert_eq!(Sort::from_name("oldest"), Some(Sort::Oldest));
    assert_eq!(Sort::from_name("Oldest"), None);
    assert_eq!(State::from_name("all"), Some(State::All));
    assert_eq!(ContentType::from_name("image"), Some(ContentType::Image));
    assert_eq!(DetailType::from_name("simple"), Some(DetailType::Simple));
}

#[test]
fn tag_filter_text() {
    assert_eq!(Tag::Untagged.as_str(), "_untagged_");
    assert_eq!(Tag::TagName("rust".to_string()).as_str(), "rust");
}

#[test]
fn same_text_compares_characters() {
    assert!(same_text("abc", "abc"));
    assert!(!same_text("abc", "abd"));
    assert!(!same_text("abc", "ab"));
    assert!(same_text("", ""));
}

#[test]
fn unresolved_items_are_not_errors() {
    assert!(!item("1", None).is_resolved());
    assert!(!item("1", Some("0")).is_resolved());
    assert!(item("1", Some("229279689")).is_resolved());
}
