//! The service's data: scalar wrappers with their wire encodings, a saved
//! item, and the small enumerations used in requests and responses.

use vstd::prelude::*;

use crate::decimal::{i64_of_text, i64_text, int_text, lemma_i64_text_round_trip, parse_i64};

verus! {

#[verifier::external_type_specification]
#[verifier::external_body]
pub struct ExJsonValue(serde_json::Value);

/// Relies on `Utc::now` and `DateTime::timestamp`: the clock's whole seconds
/// since the epoch, which `Utc::now` only yields when they are not negative.
#[verifier::external_body]
fn clock_seconds() -> (r: i64)
    ensures
        r >= 0,
{
    chrono::Utc::now().timestamp()
}

/// Seconds since the Unix epoch.
#[derive(Debug, Clone, Copy, PartialEq, Eq, Structural)]
pub struct Timestamp(pub i64);

/// The timestamp that a JSON string holding decimal seconds denotes.
pub open spec fn timestamp_of_text(s: Seq<char>) -> Option<Timestamp> {
    match i64_of_text(s) {
        Some(v) => Some(Timestamp(v)),
        None => None,
    }
}

/// The decimal text of a timestamp, as the service writes it inside a string.
pub open spec fn timestamp_text(t: Timestamp) -> Seq<char> {
    int_text(t.0 as int)
}

impl Timestamp {
    /// The current time, read from the system clock.
    pub fn now() -> (r: Timestamp)
        ensures
            r.0 >= 0,
    {
        Timestamp(clock_seconds())
    }

    /// Reads the string form: decimal seconds, with an optional sign.
    pub fn from_text(s: &str) -> (r: Option<Timestamp>)
        ensures
            r == timestamp_of_text(s@),
    {
        match parse_i64(s) {
            Some(v) => Some(Timestamp(v)),
            None => None,
        }
    }

    /// Writes the string form.
    pub fn to_text(&self) -> (r: String)
        ensures
            r@ == timestamp_text(*self),
    {
        i64_text(self.0)
    }
}

/// A timestamp comes back unchanged from either wire form: from its decimal
/// text, and from its JSON number, which carries the seconds themselves.
pub proof fn lemma_timestamp_wire_round_trip(t: Timestamp)
    ensures
        timestamp_of_text(timestamp_text(t)) == Some(t),
        Timestamp(t.0) == t,
{
    lemma_i64_text_round_trip(t.0);
}

/// Compares two texts character by character.
pub fn same_text(a: &str, b: &str) -> (r: bool)
    ensures
        r == (a@ == b@),
{
    let n = a.unicode_len();
    if n != b.unicode_len() {
        return false;
    }
    let mut i: usize = 0;
    while i < n
        invariant
            n == a@.len(),
            n == b@.len(),
            i <= n,
            forall|j: int| 0 <= j < i ==> a@[j] == b@[j],
        decreases n - i,
    {
        if a.get_char(i) != b.get_char(i) {
            return false;
        }
        i = i + 1;
    }
    assert(a@ =~= b@);
    true
}

/// How much of each item a retrieve call returns.
#[derive(Debug, Clone, Copy, PartialEq, Eq, Structural)]
pub enum DetailType {
    Simple,
    Complete,
}

impl DetailType {
    /// The wire name.
    pub open spec fn name(self) -> Seq<char> {
        match self {
            DetailType::Simple => "simple"@,
            DetailType::Complete => "complete"@,
        }
    }

    /// The value whose wire name is `s`.
    pub open spec fn of_name(s: Seq<char>) -> Option<DetailType> {
        if s == "simple"@ {
            Some(DetailType::Simple)
        } else if s == "complete"@ {
            Some(DetailType::Complete)
        } else {
            None
        }
    }

    pub fn as_str(&self) -> (r: &'static str)
        ensures
            r@ == self.name(),
    {
        match self {
            DetailType::Simple => "simple",
            DetailType::Complete => "complete",
        }
    }

    pub fn from_name(s: &str) -> (r: Option<DetailType>)
        ensures
            r == DetailType::of_name(s@),
    {
        if same_text(s, "simple") {
            Some(DetailType::Simple)
        } else if same_text(s, "complete") {
            Some(DetailType::Complete)
        } else {
            None
        }
    }

    /// Every value reads back from its wire name.
    pub proof fn lemma_name_round_trip(self)
        ensures
            DetailType::of_name(self.name()) == Some(self),
    {
        reveal_strlit("simple");
        reveal_strlit("complete");
        assert("simple"@[0] != "complete"@[0]);
    }
}

/// Where an item stands in the user's list; on the wire the string "0", "1" or "2".
#[derive(Debug, Clone, Copy, PartialEq, Eq, Structural)]
pub enum ItemStatus {
    /// In the list.
    Normal,
    /// Archived.
    Archived,
    /// To be deleted.
    Deleted,
}

impl ItemStatus {
    /// The wire name.
    pub open spec fn name(self) -> Seq<char> {
        match self {
            ItemStatus::Normal => "0"@,
            ItemStatus::Archived => "1"@,
            ItemStatus::Deleted => "2"@,
        }
    }

    /// The value whose wire name is `s`.
    pub open spec fn of_name(s: Seq<char>) -> Option<ItemStatus> {
        if s == "0"@ {
            Some(ItemStatus::Normal)
        } else if s == "1"@ {
            Some(ItemStatus::Archived)
        } else if s == "2"@ {
            Some(ItemStatus::Deleted)
        } else {
            None
        }
    }

    pub fn as_str(&self) -> (r: &'static str)
        ensures
            r@ == self.name(),
    {
        match self {
            ItemStatus::Normal => "0",
            ItemStatus::Archived => "1",
            ItemStatus::Deleted => "2",
        }
    }

    pub fn from_name(s: &str) -> (r: Option<ItemStatus>)
        ensures
            r == ItemStatus::of_name(s@),
    {
        if same_text(s, "0") {
            Some(ItemStatus::Normal)
        } else if same_text(s, "1") {
            Some(ItemStatus::Archived)
        } else if same_text(s, "2") {
            Some(ItemStatus::Deleted)
        } else {
            None
        }
    }

    /// The number that the wire name spells.
    pub open spec fn number(self) -> u8 {
        match self {
            ItemStatus::Normal => 0,
            ItemStatus::Archived => 1,
            ItemStatus::Deleted => 2,
        }
    }

    pub fn as_u8(&self) -> (r: u8)
        ensures
            r == self.number(),
    {
        match self {
            ItemStatus::Normal => 0,
            ItemStatus::Archived => 1,
            ItemStatus::Deleted => 2,
        }
    }

    /// Every value reads back from its wire name.
    pub proof fn lemma_name_round_trip(self)
        ensures
            ItemStatus::of_name(self.name()) == Some(self),
    {
        reveal_strlit("0");
        reveal_strlit("1");
        reveal_strlit("2");
        assert("0"@[0] != "1"@[0]);
        assert("0"@[0] != "2"@[0]);
        assert("1"@[0] != "2"@[0]);
    }
}


/// Whether an item has images (or videos) in it, or is one; on the wire the string "0", "1" or "2".
#[derive(Debug, Clone, Copy, PartialEq, Eq, Structural)]
pub enum ItemHas {
    /// None in it.
    No,
    /// Some in it.
    Yes,
    /// The item is itself one.
    Is,
}

impl ItemHas {
    /// The wire name.
    pub open spec fn name(self) -> Seq<char> {
        match self {
            ItemHas::No => "0"@,
            ItemHas::Yes => "1"@,
            ItemHas::Is => "2"@,
        }
    }

    /// The value whose wire name is `s`.
    pub open spec fn of_name(s: Seq<char>) -> Option<ItemHas> {
        if s == "0"@ {
            Some(ItemHas::No)
        } else if s == "1"@ {
            Some(ItemHas::Yes)
        } else if s == "2"@ {
            Some(ItemHas::Is)
        } else {
            None
        }
    }

    pub fn as_str(&self) -> (r: &'static str)
        ensures
            r@ == self.name(),
    {
        match self {
            ItemHas::No => "0",
            ItemHas::Yes => "1",
            ItemHas::Is => "2",
        }
    }

    pub fn from_name(s: &str) -> (r: Option<ItemHas>)
        ensures
            r == ItemHas::of_name(s@),
    {
        if same_text(s, "0") {
            Some(ItemHas::No)
        } else if same_text(s, "1") {
            Some(ItemHas::Yes)
        } else if same_text(s, "2") {
            Some(ItemHas::Is)
        } else {
            None
        }
    }

    /// The number that the wire name spells.
    pub open spec fn number(self) -> u8 {
        match self {
            ItemHas::No => 0,
            ItemHas::Yes => 1,
            ItemHas::Is => 2,
        }
    }

    pub fn as_u8(&self) -> (r: u8)
        ensures
            r == self.number(),
    {
        match self {
            ItemHas::No => 0,
            ItemHas::Yes => 1,
            ItemHas::Is => 2,
        }
    }

    /// Every value reads back from its wire name.
    pub proof fn lemma_name_round_trip(self)
        ensures
            ItemHas::of_name(self.name()) == Some(self),
    {
        reveal_strlit("0");
        reveal_strlit("1");
        reveal_strlit("2");
        assert("0"@[0] != "1"@[0]);
        assert("0"@[0] != "2"@[0]);
        assert("1"@[0] != "2"@[0]);
    }
}


/// The order of retrieved items.
#[derive(Debug, Clone, Copy, PartialEq, Eq, Structural)]
pub enum Sort {
    Newest,
    Oldest,
    Title,
    Site,
}

impl Sort {
    /// The wire name.
    pub open spec fn name(self) -> Seq<char> {
        match self {
            Sort::Newest => "newest"@,
            Sort::Oldest => "oldest"@,
            Sort::Title => "title"@,
            Sort::Site => "site"@,
        }
    }

    /// The value whose wire name is `s`.
    pub open spec fn of_name(s: Seq<char>) -> Option<Sort> {
        if s == "newest"@ {
            Some(Sort::Newest)
        } else if s == "oldest"@ {
            Some(Sort::Oldest)
        } else if s == "title"@ {
            Some(Sort::Title)
        } else if s == "site"@ {
            Some(Sort::Site)
        } else {
            None
        }
    }

    pub fn as_str(&self) -> (r: &'static str)
        ensures
            r@ == self.name(),
    {
        match self {
            Sort::Newest => "newest",
            Sort::Oldest => "oldest",
            Sort::Title => "title",
            Sort::Site => "site",
        }
    }

    pub fn from_name(s: &str) -> (r: Option<Sort>)
        ensures
            r == Sort::of_name(s@),
    {
        if same_text(s, "newest") {
            Some(Sort::Newest)
        } else if same_text(s, "oldest") {
            Some(Sort::Oldest)
        } else if same_text(s, "title") {
            Some(Sort::Title)
        } else if same_text(s, "site") {
            Some(Sort::Site)
        } else {
            None
        }
    }

    /// Every value reads back from its wire name.
    pub proof fn lemma_name_round_trip(self)
        ensures
            Sort::of_name(self.name()) == Some(self),
    {
        reveal_strlit("newest");
        reveal_strlit("oldest");
        reveal_strlit("title");
        reveal_strlit("site");
        assert("newest"@[0] != "oldest"@[0]);
        assert("newest"@[0] != "title"@[0]);
        assert("newest"@[0] != "site"@[0]);
        assert("oldest"@[0] != "title"@[0]);
        assert("oldest"@[0] != "site"@[0]);
        assert("title"@[0] != "site"@[0]);
    }
}


/// Which items to retrieve by read state.
#[derive(Debug, Clone, Copy, PartialEq, Eq, Structural)]
pub enum State {
    Unread,
    Archive,
    All,
}

impl State {
    /// The wire name.
    pub open spec fn name(self) -> Seq<char> {
        match self {
            State::Unread => "unread"@,
            State::Archive => "archive"@,
            State::All => "all"@,
        }
    }

    /// The value whose wire name is `s`.
    pub open spec fn of_name(s: Seq<char>) -> Option<State> {
        if s == "unread"@ {
            Some(State::Unread)
        } else if s == "archive"@ {
            Some(State::Archive)
        } else if s == "all"@ {
            Some(State::All)
        } else {
            None
        }
    }

    pub fn as_str(&self) -> (r: &'static str)
        ensures
            r@ == self.name(),
    {
        match self {
            State::Unread => "unread",
            State::Archive => "archive",
            State::All => "all",
        }
    }

    pub fn from_name(s: &str) -> (r: Option<State>)
        ensures
            r == State::of_name(s@),
    {
        if same_text(s, "unread") {
            Some(State::Unread)
        } else if same_text(s, "archive") {
            Some(State::Archive)
        } else if same_text(s, "all") {
            Some(State::All)
        } else {
            None
        }
    }

    /// Every value reads back from its wire name.
    pub proof fn lemma_name_round_trip(self)
        ensures
            State::of_name(self.name()) == Some(self),
    {
        reveal_strlit("unread");
        reveal_strlit("archive");
        reveal_strlit("all");
        assert("unread"@[0] != "archive"@[0]);
        assert("unread"@[0] != "all"@[0]);
        assert("archive"@[1] != "all"@[1]);
    }
}


/// Which items to retrieve by kind of content.
#[derive(Debug, Clone, Copy, PartialEq, Eq, Structural)]
pub enum ContentType {
    Article,
    Video,
    Image,
}

impl ContentType {
    /// The wire name.
    pub open spec fn name(self) -> Seq<char> {
        match self {
            ContentType::Article => "article"@,
            ContentType::Video => "video"@,
            ContentType::Image => "image"@,
        }
    }

    /// The value whose wire name is `s`.
    pub open spec fn of_name(s: Seq<char>) -> Option<ContentType> {
        if s == "article"@ {
            Some(ContentType::Article)
        } else if s == "video"@ {
            Some(ContentType::Video)
        } else if s == "image"@ {
            Some(ContentType::Image)
        } else {
            None
        }
    }

    pub fn as_str(&self) -> (r: &'static str)
        ensures
            r@ == self.name(),
    {
        match self {
            ContentType::Article => "article",
            ContentType::Video => "video",
            ContentType::Image => "image",
        }
    }

    pub fn from_name(s: &str) -> (r: Option<ContentType>)
        ensures
            r == ContentType::of_name(s@),
    {
        if same_text(s, "article") {
            Some(ContentType::Article)
        } else if same_text(s, "video") {
            Some(ContentType::Video)
        } else if same_text(s, "image") {
            Some(ContentType::Image)
        } else {
            None
        }
    }

    /// Every value reads back from its wire name.
    pub proof fn lemma_name_round_trip(self)
        ensures
            ContentType::of_name(self.name()) == Some(self),
    {
        reveal_strlit("article");
        reveal_strlit("video");
        reveal_strlit("image");
        assert("article"@[0] != "video"@[0]);
        assert("article"@[0] != "image"@[0]);
        assert("video"@[0] != "image"@[0]);
    }
}

/// The tag filter of a retrieve call: items without tags, or items with one tag.
#[derive(Debug, Clone, PartialEq, Eq)]
pub enum Tag {
    Untagged,
    TagName(String),
}

impl Tag {
    /// The wire text: a sentinel for untagged items, else the tag itself.
    pub open spec fn name(self) -> Seq<char> {
        match self {
            Tag::Untagged => "_untagged_"@,
            Tag::TagName(t) => t@,
        }
    }

    pub fn as_str(&self) -> (r: &str)
        ensures
            r@ == self.name(),
    {
        match self {
            Tag::Untagged => "_untagged_",
            Tag::TagName(t) => t.as_str(),
        }
    }
}

/// An ordered list of tags; on the wire a JSON array of strings.
#[derive(Debug, Clone, PartialEq, Eq)]
pub struct Tags(pub Vec<String>);

/// An item's identifier. The service sends it as a string, and this library
/// writes it as a string too.
#[derive(Debug, Clone, PartialEq, Eq, PartialOrd, Ord, Hash)]
pub struct ItemId(pub String);

#[derive(Debug, Clone, PartialEq, Eq)]
pub struct ItemImage {
    pub item_id: ItemId,
    pub image_id: ItemId,
    pub src: String,
    pub width: String,
    pub height: String,
    pub caption: String,
    pub credit: String,
}

#[derive(Debug, Clone, PartialEq)]
pub struct ItemVideo {
    pub item_id: ItemId,
    pub video_id: ItemId,
    pub src: String,
    pub width: String,
    pub height: String,
    pub length: Option<String>,
    pub vid: String,
}

#[derive(Debug, Clone, PartialEq)]
pub struct ItemAuthor {
    pub id: ItemId,
    pub name: String,
    pub url: String,
}

/// A saved item as the retrieve call returns it. The flags that the service
/// sends as the strings "0" and "1" (`favorite`, `is_article`, `is_index`) are
/// kept as sent, so that "0", an empty string and an absent field stay apart.
#[derive(Debug, Clone, PartialEq)]
pub struct PocketItem {
    /// The item's identifier, used by every modify action.
    pub item_id: ItemId,
    /// The identifier of the item's resolved URL; absent or "0" while the
    /// service has not resolved the item yet.
    pub resolved_id: Option<ItemId>,
    /// The URL that was saved.
    pub given_url: Option<String>,
    /// The title that was saved with the item.
    pub given_title: Option<String>,
    /// "1" when the item is a favorite.
    pub favorite: Option<String>,
    pub status: ItemStatus,
    pub time_added: Option<Timestamp>,
    pub time_updated: Option<Timestamp>,
    pub time_read: Option<Timestamp>,
    pub time_favorited: Option<Timestamp>,
    pub sort_id: Option<u32>,
    /// The URL that the saved one leads to.
    pub resolved_url: Option<String>,
    /// The title that the service found.
    pub resolved_title: Option<String>,
    /// The first lines of an article.
    pub excerpt: Option<String>,
    /// "1" when the item is an article.
    pub is_article: Option<String>,
    pub is_index: Option<String>,
    pub has_image: Option<ItemHas>,
    pub has_video: Option<ItemHas>,
    pub word_count: Option<String>,
    pub tags: Option<String>,
    pub authors: Option<Vec<ItemAuthor>>,
    pub images: Option<Vec<ItemImage>>,
    pub videos: Option<Vec<ItemVideo>>,
    pub lang: Option<String>,
    pub time_to_read: Option<u32>,
    pub listen_duration_estimate: Option<u32>,
    pub top_image_url: Option<String>,
    /// Carried through as the service sent it.
    pub domain_metadata: Option<serde_json::Value>,
}

impl PocketItem {
    /// The service has resolved the item: its resolved identifier is present
    /// and not "0".
    pub open spec fn resolved(&self) -> bool {
        self.resolved_id matches Some(id) && id.0@ != "0"@
    }

    pub fn is_resolved(&self) -> (r: bool)
        ensures
            r == self.resolved(),
    {
        match &self.resolved_id {
            Some(id) => !same_text(id.0.as_str(), "0"),
            None => false,
        }
    }
}

} // verus!
