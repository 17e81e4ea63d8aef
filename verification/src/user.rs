//! The verification record and what it means for a record to match a key.

use crate::text::same_text;
use vstd::prelude::*;

verus! {

/// One verification: a game-character handle, a chat-account id and the time
/// at which the two were tied together. Either identity may be absent in a
/// record that was loaded from storage.
#[derive(Debug, PartialEq, Eq)]
pub struct VerifiedUser {
    pub ss13: Option<String>,
    pub discord: Option<String>,
    pub create_time: String,
}

/// What a [`VerifiedUser`] holds, as character sequences.
pub struct UserView {
    pub ss13: Option<Seq<char>>,
    pub discord: Option<Seq<char>>,
    pub create_time: Seq<char>,
}

/// The character sequence of an optional string.
pub open spec fn text_of(field: Option<String>) -> Option<Seq<char>> {
    match field {
        Some(s) => Some(s@),
        None => None,
    }
}

impl View for VerifiedUser {
    type V = UserView;

    open spec fn view(&self) -> UserView {
        UserView {
            ss13: text_of(self.ss13),
            discord: text_of(self.discord),
            create_time: self.create_time@,
        }
    }
}

/// The views of a sequence of records, in the same order.
pub open spec fn views(records: Seq<VerifiedUser>) -> Seq<UserView> {
    records.map_values(|u: VerifiedUser| u@)
}

/// The match predicate: a record answers to the key `(ckey, discord)` when
/// its chat-account id is present and equals `discord`, or its handle is
/// present and equals `ckey`. Handles are compared as supplied, case and all.
pub open spec fn record_matches(u: UserView, ckey: Seq<char>, discord: Seq<char>) -> bool {
    u.discord == Some(discord) || u.ss13 == Some(ckey)
}

/// The record that an accepted addition creates.
pub open spec fn new_record(ckey: Seq<char>, discord: Seq<char>, create_time: Seq<char>) -> UserView {
    UserView { ss13: Some(ckey), discord: Some(discord), create_time }
}

/// Decides whether an optional field is present and equal to `wanted`.
fn holds(field: &Option<String>, wanted: &str) -> (hit: bool)
    ensures
        hit == (text_of(*field) == Some(wanted@)),
{
    match field {
        Some(value) => same_text(value.as_str(), wanted),
        None => false,
    }
}

impl VerifiedUser {
    /// Creates the record of a fresh verification, with both identities set.
    pub fn new(ckey: String, discord: String, create_time: String) -> (user: VerifiedUser)
        ensures
            user@ == new_record(ckey@, discord@, create_time@),
    {
        VerifiedUser { ss13: Some(ckey), discord: Some(discord), create_time }
    }

    /// Decides whether this record answers to the key `(ckey, discord)`.
    pub fn matches(&self, ckey: &str, discord: &str) -> (hit: bool)
        ensures
            hit == record_matches(self@, ckey@, discord@),
    {
        holds(&self.discord, discord) || holds(&self.ss13, ckey)
    }
}

impl Clone for VerifiedUser {
    /// Copies the record field by field.
    fn clone(&self) -> (copy: VerifiedUser)
        ensures
            copy == *self,
    {
        let ss13 = match &self.ss13 {
            Some(s) => Some(s.clone()),
            None => None,
        };
        let discord = match &self.discord {
            Some(s) => Some(s.clone()),
            None => None,
        };
        VerifiedUser { ss13, discord, create_time: self.create_time.clone() }
    }
}

} // verus!
