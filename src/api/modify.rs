//! Changing saved items: a batch of actions sent in one call.

use vstd::prelude::*;

use crate::api::{chosen_token, pick_token};
use crate::error::{opt_text, ApiError, Error};
use crate::models::{same_text, ItemId, Tags, Timestamp};

verus! {

/// One action of a modify batch. On the wire each is a flat JSON object whose
/// `action` field names it.
#[derive(Debug, Clone, PartialEq)]
pub enum PocketAction {
    Add(Add),
    Archive(Update),
    Readd(Update),
    Favorite(Update),
    Unfavorite(Update),
    Delete(Update),
    TagsAdd(TagsAdd),
    TagsRemove(TagsRemove),
    TagsReplace(TagsReplace),
    TagsClear(TagsClear),
    TagRename(TagRename),
    TagDelete(TagDelete),
}

/// Adds an item (action `add`).
#[derive(Debug, Clone, PartialEq, Eq)]
pub struct Add {
    pub item_id: ItemId,
    pub ref_id: Option<u32>,
    pub tags: Option<String>,
    pub time: Option<Timestamp>,
    pub title: Option<String>,
    pub url: Option<String>,
}

/// Archives an item (action `archive`).
#[derive(Debug, Clone, PartialEq, Eq)]
pub struct Archive {
    pub item_id: ItemId,
    pub time: Timestamp,
}

/// The action names of the updates that need only an item and a time.
#[derive(Debug, Clone, Copy, PartialEq, Eq, Structural)]
pub enum UpdateName {
    Archive,
    Readd,
    Favorite,
    Unfavorite,
    Delete,
}

impl UpdateName {
    /// The wire name.
    pub open spec fn name(self) -> Seq<char> {
        match self {
            UpdateName::Archive => "archive"@,
            UpdateName::Readd => "readd"@,
            UpdateName::Favorite => "favorite"@,
            UpdateName::Unfavorite => "unfavorite"@,
            UpdateName::Delete => "delete"@,
        }
    }

    /// The value whose wire name is `s`.
    pub open spec fn of_name(s: Seq<char>) -> Option<UpdateName> {
        if s == "archive"@ {
            Some(UpdateName::Archive)
        } else if s == "readd"@ {
            Some(UpdateName::Readd)
        } else if s == "favorite"@ {
            Some(UpdateName::Favorite)
        } else if s == "unfavorite"@ {
            Some(UpdateName::Unfavorite)
        } else if s == "delete"@ {
            Some(UpdateName::Delete)
        } else {
            None
        }
    }

    pub fn as_str(&self) -> (r: &'static str)
        ensures
            r@ == self.name(),
    {
        match self {
            UpdateName::Archive => "archive",
            UpdateName::Readd => "readd",
            UpdateName::Favorite => "favorite",
            UpdateName::Unfavorite => "unfavorite",
            UpdateName::Delete => "delete",
        }
    }

    pub fn from_name(s: &str) -> (r: Option<UpdateName>)
        ensures
            r == UpdateName::of_name(s@),
    {
        if same_text(s, "archive") {
            Some(UpdateName::Archive)
        } else if same_text(s, "readd") {
            Some(UpdateName::Readd)
        } else if same_text(s, "favorite") {
            Some(UpdateName::Favorite)
        } else if same_text(s, "unfavorite") {
            Some(UpdateName::Unfavorite)
        } else if same_text(s, "delete") {
            Some(UpdateName::Delete)
        } else {
            None
        }
    }

    /// Every value reads back from its wire name.
    pub proof fn lemma_name_round_trip(self)
        ensures
            UpdateName::of_name(self.name()) == Some(self),
    {
        reveal_strlit("archive");
        reveal_strlit("readd");
        reveal_strlit("favorite");
        reveal_strlit("unfavorite");
        reveal_strlit("delete");
        assert("archive"@[0] != "readd"@[0]);
        assert("archive"@[0] != "favorite"@[0]);
        assert("archive"@[0] != "unfavorite"@[0]);
        assert("archive"@[0] != "delete"@[0]);
        assert("readd"@[0] != "favorite"@[0]);
        assert("readd"@[0] != "unfavorite"@[0]);
        assert("readd"@[0] != "delete"@[0]);
        assert("favorite"@[0] != "unfavorite"@[0]);
        assert("favorite"@[0] != "delete"@[0]);
        assert("unfavorite"@[0] != "delete"@[0]);
    }
}

/// An action that needs only an item and a time; `action` names it.
#[derive(Debug, Clone, PartialEq, Eq)]
pub struct Update {
    pub action: UpdateName,
    pub item_id: ItemId,
    pub time: Timestamp,
}

/// Adds tags to an item (action `tags_add`).
#[derive(Debug, Clone, PartialEq, Eq)]
pub struct TagsAdd {
    pub item_id: ItemId,
    pub tags: Tags,
    pub time: Option<Timestamp>,
}

/// Replaces an item's tags (action `tags_replace`).
#[derive(Debug, Clone, PartialEq, Eq)]
pub struct TagsReplace {
    pub item_id: ItemId,
    pub tags: Tags,
    pub time: Option<Timestamp>,
}

/// Removes tags from an item (action `tags_remove`).
#[derive(Debug, Clone, PartialEq, Eq)]
pub struct TagsRemove {
    pub item_id: ItemId,
    pub tags: Tags,
    pub time: Option<Timestamp>,
}

/// Removes every tag of an item (action `tags_clear`).
#[derive(Debug, Clone, PartialEq, Eq)]
pub struct TagsClear {
    pub item_id: ItemId,
    pub time: Option<Timestamp>,
}

/// Renames a tag on every item (action `tag_rename`).
#[derive(Debug, Clone, PartialEq, Eq)]
pub struct TagRename {
    pub old_tag: String,
    pub new_tag: String,
    pub time: Option<Timestamp>,
}

/// Deletes a tag from every item (action `tag_delete`).
#[derive(Debug, Clone, PartialEq, Eq)]
pub struct TagDelete {
    pub tag: String,
    pub time: Option<Timestamp>,
}

impl PocketAction {
    /// The value of the `action` field on the wire.
    pub open spec fn name(self) -> Seq<char> {
        match self {
            PocketAction::Add(_) => "add"@,
            PocketAction::Archive(u) => u.action.name(),
            PocketAction::Readd(u) => u.action.name(),
            PocketAction::Favorite(u) => u.action.name(),
            PocketAction::Unfavorite(u) => u.action.name(),
            PocketAction::Delete(u) => u.action.name(),
            PocketAction::TagsAdd(_) => "tags_add"@,
            PocketAction::TagsRemove(_) => "tags_remove"@,
            PocketAction::TagsReplace(_) => "tags_replace"@,
            PocketAction::TagsClear(_) => "tags_clear"@,
            PocketAction::TagRename(_) => "tag_rename"@,
            PocketAction::TagDelete(_) => "tag_delete"@,
        }
    }

    /// The position of the variant in the declaration.
    pub open spec fn variant_index(self) -> nat {
        match self {
            PocketAction::Add(_) => 0,
            PocketAction::Archive(_) => 1,
            PocketAction::Readd(_) => 2,
            PocketAction::Favorite(_) => 3,
            PocketAction::Unfavorite(_) => 4,
            PocketAction::Delete(_) => 5,
            PocketAction::TagsAdd(_) => 6,
            PocketAction::TagsRemove(_) => 7,
            PocketAction::TagsReplace(_) => 8,
            PocketAction::TagsClear(_) => 9,
            PocketAction::TagRename(_) => 10,
            PocketAction::TagDelete(_) => 11,
        }
    }

    /// An update variant carries its own action name.
    pub open spec fn consistent(self) -> bool {
        match self {
            PocketAction::Add(_) => true,
            PocketAction::Archive(u) => u.action == UpdateName::Archive,
            PocketAction::Readd(u) => u.action == UpdateName::Readd,
            PocketAction::Favorite(u) => u.action == UpdateName::Favorite,
            PocketAction::Unfavorite(u) => u.action == UpdateName::Unfavorite,
            PocketAction::Delete(u) => u.action == UpdateName::Delete,
            PocketAction::TagsAdd(_) => true,
            PocketAction::TagsRemove(_) => true,
            PocketAction::TagsReplace(_) => true,
            PocketAction::TagsClear(_) => true,
            PocketAction::TagRename(_) => true,
            PocketAction::TagDelete(_) => true,
        }
    }

    pub fn action_name(&self) -> (r: &'static str)
        ensures
            r@ == self.name(),
    {
        match self {
            PocketAction::Add(_) => "add",
            PocketAction::Archive(u) => u.action.as_str(),
            PocketAction::Readd(u) => u.action.as_str(),
            PocketAction::Favorite(u) => u.action.as_str(),
            PocketAction::Unfavorite(u) => u.action.as_str(),
            PocketAction::Delete(u) => u.action.as_str(),
            PocketAction::TagsAdd(_) => "tags_add",
            PocketAction::TagsRemove(_) => "tags_remove",
            PocketAction::TagsReplace(_) => "tags_replace",
            PocketAction::TagsClear(_) => "tags_clear",
            PocketAction::TagRename(_) => "tag_rename",
            PocketAction::TagDelete(_) => "tag_delete",
        }
    }

    /// The update action named `action`, on `item_id` at `time`.
    pub fn update(action: UpdateName, item_id: ItemId, time: Timestamp) -> (r: PocketAction)
        ensures
            r.consistent(),
            r.name() == action.name(),
    {
        let u = Update { action, item_id, time };
        match action {
            UpdateName::Archive => PocketAction::Archive(u),
            UpdateName::Readd => PocketAction::Readd(u),
            UpdateName::Favorite => PocketAction::Favorite(u),
            UpdateName::Unfavorite => PocketAction::Unfavorite(u),
            UpdateName::Delete => PocketAction::Delete(u),
        }
    }
}

/// The `action` field tells the variants apart: two consistent actions with
/// the same name are of the same variant, so a decoder that goes by the name
/// is never in doubt.
pub proof fn lemma_action_names_distinct(a: PocketAction, b: PocketAction)
    requires
        a.consistent(),
        b.consistent(),
        a.name() == b.name(),
    ensures
        a.variant_index() == b.variant_index(),
{
    reveal_strlit("add");
    reveal_strlit("archive");
    reveal_strlit("readd");
    reveal_strlit("favorite");
    reveal_strlit("unfavorite");
    reveal_strlit("delete");
    reveal_strlit("tags_add");
    reveal_strlit("tags_remove");
    reveal_strlit("tags_replace");
    reveal_strlit("tags_clear");
    reveal_strlit("tag_rename");
    reveal_strlit("tag_delete");
    assert("add"@[1] != "archive"@[1]);
    assert("add"@[0] != "readd"@[0]);
    assert("add"@[0] != "favorite"@[0]);
    assert("add"@[0] != "unfavorite"@[0]);
    assert("add"@[0] != "delete"@[0]);
    assert("add"@[0] != "tags_add"@[0]);
    assert("add"@[0] != "tags_remove"@[0]);
    assert("add"@[0] != "tags_replace"@[0]);
    assert("add"@[0] != "tags_clear"@[0]);
    assert("add"@[0] != "tag_rename"@[0]);
    assert("add"@[0] != "tag_delete"@[0]);
    assert("archive"@[0] != "readd"@[0]);
    assert("archive"@[0] != "favorite"@[0]);
    assert("archive"@[0] != "unfavorite"@[0]);
    assert("archive"@[0] != "delete"@[0]);
    assert("archive"@[0] != "tags_add"@[0]);
    assert("archive"@[0] != "tags_remove"@[0]);
    assert("archive"@[0] != "tags_replace"@[0]);
    assert("archive"@[0] != "tags_clear"@[0]);
    assert("archive"@[0] != "tag_rename"@[0]);
    assert("archive"@[0] != "tag_delete"@[0]);
    assert("readd"@[0] != "favorite"@[0]);
    assert("readd"@[0] != "unfavorite"@[0]);
    assert("readd"@[0] != "delete"@[0]);
    assert("readd"@[0] != "tags_add"@[0]);
    assert("readd"@[0] != "tags_remove"@[0]);
    assert("readd"@[0] != "tags_replace"@[0]);
    assert("readd"@[0] != "tags_clear"@[0]);
    assert("readd"@[0] != "tag_rename"@[0]);
    assert("readd"@[0] != "tag_delete"@[0]);
    assert("favorite"@[0] != "unfavorite"@[0]);
    assert("favorite"@[0] != "delete"@[0]);
    assert("favorite"@[0] != "tags_add"@[0]);
    assert("favorite"@[0] != "tags_remove"@[0]);
    assert("favorite"@[0] != "tags_replace"@[0]);
    assert("favorite"@[0] != "tags_clear"@[0]);
    assert("favorite"@[0] != "tag_rename"@[0]);
    assert("favorite"@[0] != "tag_delete"@[0]);
    assert("unfavorite"@[0] != "delete"@[0]);
    assert("unfavorite"@[0] != "tags_add"@[0]);
    assert("unfavorite"@[0] != "tags_remove"@[0]);
    assert("unfavorite"@[0] != "tags_replace"@[0]);
    assert("unfavorite"@[0] != "tags_clear"@[0]);
    assert("unfavorite"@[0] != "tag_rename"@[0]);
    assert("unfavorite"@[0] != "tag_delete"@[0]);
    assert("delete"@[0] != "tags_add"@[0]);
    assert("delete"@[0] != "tags_remove"@[0]);
    assert("delete"@[0] != "tags_replace"@[0]);
    assert("delete"@[0] != "tags_clear"@[0]);
    assert("delete"@[0] != "tag_rename"@[0]);
    assert("delete"@[0] != "tag_delete"@[0]);
    assert("tags_add"@[5] != "tags_remove"@[5]);
    assert("tags_add"@[5] != "tags_replace"@[5]);
    assert("tags_add"@[5] != "tags_clear"@[5]);
    assert("tags_add"@[3] != "tag_rename"@[3]);
    assert("tags_add"@[3] != "tag_delete"@[3]);
    assert("tags_remove"@[7] != "tags_replace"@[7]);
    assert("tags_remove"@[5] != "tags_clear"@[5]);
    assert("tags_remove"@[3] != "tag_rename"@[3]);
    assert("tags_remove"@[3] != "tag_delete"@[3]);
    assert("tags_replace"@[5] != "tags_clear"@[5]);
    assert("tags_replace"@[3] != "tag_rename"@[3]);
    assert("tags_replace"@[3] != "tag_delete"@[3]);
    assert("tags_clear"@[3] != "tag_rename"@[3]);
    assert("tags_clear"@[3] != "tag_delete"@[3]);
    assert("tag_rename"@[4] != "tag_delete"@[4]);
}

/// The body of a modify call.
#[derive(Debug, Clone)]
pub struct ModifyRequestBody {
    pub consumer_key: String,
    pub access_token: String,
    pub actions: Vec<PocketAction>,
}

/// The answer to a modify call: one flag for each action, in order.
#[derive(Debug, Clone)]
pub struct ModifyResponse {
    pub status: u16,
    pub action_results: Vec<bool>,
}

/// Gathers the actions of a modify call, in the order they are pushed.
#[derive(Debug, Clone)]
pub struct ModifyHandler {
    access_token: Option<String>,
    actions: Vec<PocketAction>,
}

impl ModifyHandler {
    pub closed spec fn action_list(&self) -> Seq<PocketAction> {
        self.actions@
    }

    /// The access token given to this builder, if any.
    pub closed spec fn own_token(&self) -> Option<Seq<char>> {
        opt_text(self.access_token)
    }

    /// An empty batch.
    pub fn new() -> (r: ModifyHandler)
        ensures
            r.own_token() is None,
            r.action_list() == Seq::<PocketAction>::empty(),
    {
        ModifyHandler { access_token: None, actions: Vec::new() }
    }

    /// Uses this access token rather than the one the client keeps.
    pub fn access_token(self, access_token: String) -> (r: ModifyHandler)
        ensures
            r.own_token() == Some(access_token@),
            r.action_list() == self.action_list(),
    {
        ModifyHandler { access_token: Some(access_token), ..self }
    }

    /// Appends an action to the batch.
    pub fn push(self, action: PocketAction) -> (r: ModifyHandler)
        ensures
            r.own_token() == self.own_token(),
            r.action_list() == self.action_list().push(action),
    {
        let mut h = self;
        h.actions.push(action);
        h
    }

    /// The body to send: the actions in push order, with the consumer key and
    /// the access token. Without an access token the call fails before
    /// anything is sent.
    pub fn request(self, consumer_key: &str, stored_token: Option<String>) -> (r: Result<
        ModifyRequestBody,
        Error,
    >)
        ensures
            chosen_token(self.own_token(), opt_text(stored_token)) matches Some(t) ==> (r matches Ok(
                b,
            ) && b.consumer_key@ == consumer_key@ && b.access_token@ == t && b.actions@
                == self.action_list()),
            chosen_token(self.own_token(), opt_text(stored_token)) is None ==> r == Err::<
                ModifyRequestBody,
                Error,
            >(Error::Api(ApiError::MissingAccessToken)),
    {
        let token = match pick_token(self.access_token, stored_token) {
            Ok(t) => t,
            Err(e) => {
                return Err(e);
            },
        };
        Ok(ModifyRequestBody {
            consumer_key: String::from_str(consumer_key),
            access_token: token,
            actions: self.actions,
        })
    }
}

/// The caller's result of a modify call of `sent` actions: one flag per
/// action, in push order. An answer with another number of flags breaks the
/// service's contract and is a payload error.
pub fn action_results(response: ModifyResponse, sent: usize) -> (r: Result<Vec<bool>, Error>)
    ensures
        response.action_results@.len() == sent ==> (r matches Ok(v) && v@
            == response.action_results@),
        response.action_results@.len() != sent ==> r matches Err(Error::Parse(_)),
{
    if response.action_results.len() == sent {
        Ok(response.action_results)
    } else {
        Err(
            Error::Parse(
                String::from_str(
                    "the number of action results differs from the number of actions sent",
                ),
            ),
        )
    }
}

} // verus!
