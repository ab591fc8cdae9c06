//! The tag table.

use vstd::prelude::*;
use crate::db::table::{
    get_owned, insert_new, inserted, newest_first, owned_row, position, select_since, selected,
    sort_newest_first, Record,
};
use crate::time::Timestamp;

verus! {

/// A user-defined label, as stored. `deleted_at` is the soft-delete marker:
/// absent while the tag is alive.
#[derive(Debug, PartialEq, Eq)]
pub struct Tag {
    pub id: String,
    pub user_id: String,
    pub label: String,
    pub color: String,
    pub deleted_at: Option<Timestamp>,
    pub created_at: Timestamp,
    pub updated_at: Timestamp,
    pub synced_at: Timestamp,
}

impl Clone for Tag {
    fn clone(&self) -> (tag: Self)
        ensures
            tag == *self,
    {
        Tag {
            id: self.id.clone(),
            user_id: self.user_id.clone(),
            label: self.label.clone(),
            color: self.color.clone(),
            deleted_at: self.deleted_at,
            created_at: self.created_at,
            updated_at: self.updated_at,
            synced_at: self.synced_at,
        }
    }
}

impl Record for Tag {
    open spec fn key(&self) -> Seq<char> {
        self.id@
    }

    open spec fn owner(&self) -> Seq<char> {
        self.user_id@
    }

    open spec fn synced(&self) -> Timestamp {
        self.synced_at
    }

    open spec fn listed(&self) -> Timestamp {
        self.created_at
    }

    open spec fn overwritten_by(&self, incoming: &Self) -> Self {
        Tag {
            id: self.id,
            user_id: self.user_id,
            label: incoming.label,
            color: incoming.color,
            deleted_at: incoming.deleted_at,
            created_at: incoming.created_at,
            updated_at: incoming.updated_at,
            synced_at: incoming.synced_at,
        }
    }

    proof fn lemma_overwritten_by(&self, incoming: &Self) {
    }

    fn has_key(&self, id: &str) -> (r: bool) {
        *self.id.as_str() == *id
    }

    fn has_owner(&self, user_id: &str) -> (r: bool) {
        *self.user_id.as_str() == *user_id
    }

    fn owner_id(&self) -> (user_id: &str) {
        self.user_id.as_str()
    }

    fn synced_at(&self) -> (t: Timestamp) {
        self.synced_at
    }

    fn listed_at(&self) -> (t: Timestamp) {
        self.created_at
    }

    fn id(&self) -> (id: &str) {
        self.id.as_str()
    }

    fn overwrite(&self, incoming: &Self) -> (row: Self) {
        Tag {
            id: self.id.clone(),
            user_id: self.user_id.clone(),
            label: incoming.label.clone(),
            color: incoming.color.clone(),
            deleted_at: incoming.deleted_at,
            created_at: incoming.created_at,
            updated_at: incoming.updated_at,
            synced_at: incoming.synced_at,
        }
    }

    fn duplicate(&self) -> (row: Self) {
        self.clone()
    }
}

/// A tag made on the server at `now`: alive, with all three timestamps `now`.
pub open spec fn fresh_tag(id: String, user_id: String, label: String, color: String, now: Timestamp) -> Tag {
    Tag {
        id,
        user_id,
        label,
        color,
        deleted_at: None,
        created_at: now,
        updated_at: now,
        synced_at: now,
    }
}

/// The tags of `user_id`, from the newest to the oldest by creation.
pub open spec fn all_tags(tags: Seq<Tag>, user_id: Seq<char>) -> Seq<Tag> {
    newest_first(selected(tags, user_id, None))
}

/// Lists the tags of `user_id`, from the newest to the oldest by creation.
pub fn get_all(tags: &Vec<Tag>, user_id: &str) -> (all: Vec<Tag>)
    ensures
        all@ == all_tags(tags@, user_id@),
{
    let own = select_since(tags, user_id, None);
    sort_newest_first(&own)
}

/// The tag with the given id, where `user_id` owns it.
pub fn get_one(tags: &Vec<Tag>, user_id: &str, tag_id: &str) -> (tag: Option<Tag>)
    ensures
        tag == owned_row(tags@, user_id@, tag_id@),
{
    get_owned(tags, user_id, tag_id)
}

/// Whether `user_id` owns a tag with the given id.
pub fn owns_tag(tags: &Vec<Tag>, user_id: &str, tag_id: &str) -> (owns: bool)
    ensures
        owns == (owned_row(tags@, user_id@, tag_id@) is Some),
{
    get_owned(tags, user_id, tag_id).is_some()
}

/// Stores a tag made at `now` under the new id `id`, and hands it back. Where
/// a row already has the id nothing is stored.
pub fn insert(tags: &mut Vec<Tag>, id: String, user_id: String, label: String, color: String, now: Timestamp) -> (tag: Option<Tag>)
    ensures
        final(tags)@ == inserted(old(tags)@, fresh_tag(id, user_id, label, color, now)),
        tag == if position(old(tags)@, id@) is None {
            Some(fresh_tag(id, user_id, label, color, now))
        } else {
            None
        },
{
    let tag = Tag {
        id,
        user_id,
        label,
        color,
        deleted_at: None,
        created_at: now,
        updated_at: now,
        synced_at: now,
    };
    let copy = tag.clone();
    if insert_new(tags, tag) {
        Some(copy)
    } else {
        None
    }
}

} // verus!
