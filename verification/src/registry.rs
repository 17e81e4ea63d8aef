//! The registry store: an ordered list of verification records with
//! first-match lookup, guarded addition and removal.
//!
//! The first half of this file is the model, a handful of functions on
//! sequences of record views. The second half is the executable registry,
//! whose every method is tied to the model by its contract.

use crate::clock::{clock_text, timestamp_format, utc_timestamp};
use crate::user::{new_record, record_matches, views, UserView, VerifiedUser};
use vstd::prelude::*;

verus! {

/// Why a mutation was refused.
#[derive(Clone, Copy, Debug, PartialEq, Eq, Structural)]
pub enum RegistryError {
    /// The key of an addition already answers to a record.
    Conflict,
    /// The key of a removal answers to no record.
    NotFound,
}

/// Whether some record of `records` answers to the key `(ckey, discord)`.
pub open spec fn has_match(records: Seq<UserView>, ckey: Seq<char>, discord: Seq<char>) -> bool {
    exists|i: int| 0 <= i < records.len() && record_matches(#[trigger] records[i], ckey, discord)
}

/// Whether `i` is the position of the first record that answers to the key.
pub open spec fn is_first_match(
    records: Seq<UserView>,
    ckey: Seq<char>,
    discord: Seq<char>,
    i: int,
) -> bool {
    &&& 0 <= i < records.len()
    &&& record_matches(records[i], ckey, discord)
    &&& forall|j: int| 0 <= j < i ==> !record_matches(#[trigger] records[j], ckey, discord)
}

/// The position of the first record that answers to the key, if any does.
pub open spec fn first_match(records: Seq<UserView>, ckey: Seq<char>, discord: Seq<char>) -> Option<
    int,
> {
    if has_match(records, ckey, discord) {
        Some(choose|i: int| is_first_match(records, ckey, discord, i))
    } else {
        None
    }
}

/// What an addition does: it is refused when the key answers to a record, and
/// appends a fresh record otherwise.
pub open spec fn added(
    records: Seq<UserView>,
    ckey: Seq<char>,
    discord: Seq<char>,
    create_time: Seq<char>,
) -> Result<Seq<UserView>, RegistryError> {
    if has_match(records, ckey, discord) {
        Err(RegistryError::Conflict)
    } else {
        Ok(records.push(new_record(ckey, discord, create_time)))
    }
}

/// What a removal does: it takes out the first record that answers to the
/// key, and is refused when there is none.
pub open spec fn deleted(records: Seq<UserView>, ckey: Seq<char>, discord: Seq<char>) -> Result<
    Seq<UserView>,
    RegistryError,
> {
    match first_match(records, ckey, discord) {
        Some(i) => Ok(records.remove(i)),
        None => Err(RegistryError::NotFound),
    }
}

/// The records that stand after a mutation: the new ones when it was
/// accepted, the old ones when it was refused.
pub open spec fn settled(before: Seq<UserView>, result: Result<Seq<UserView>, RegistryError>) -> Seq<
    UserView,
> {
    match result {
        Ok(after) => after,
        Err(_) => before,
    }
}

/// The uniqueness invariant: no two records share a handle that is present,
/// and no two share a chat-account id that is present.
pub open spec fn distinct_identities(records: Seq<UserView>) -> bool {
    forall|i: int, j: int|
        0 <= i < j < records.len() ==> {
            let a = #[trigger] records[i];
            let b = #[trigger] records[j];
            &&& a.ss13 is Some ==> a.ss13 != b.ss13
            &&& a.discord is Some ==> a.discord != b.discord
        }
}

/// Any matching position has a first matching position at or before it.
proof fn lemma_least_match(records: Seq<UserView>, ckey: Seq<char>, discord: Seq<char>, k: int)
    requires
        0 <= k < records.len(),
        record_matches(records[k], ckey, discord),
    ensures
        exists|i: int| is_first_match(records, ckey, discord, i),
    decreases k,
{
    if exists|j: int| 0 <= j < k && record_matches(#[trigger] records[j], ckey, discord) {
        let j = choose|j: int| 0 <= j < k && record_matches(#[trigger] records[j], ckey, discord);
        lemma_least_match(records, ckey, discord, j);
    } else {
        assert(is_first_match(records, ckey, discord, k));
    }
}

/// The first match is the least matching position, and there is one exactly
/// when some record matches.
pub proof fn lemma_first_match(records: Seq<UserView>, ckey: Seq<char>, discord: Seq<char>)
    ensures
        match first_match(records, ckey, discord) {
            Some(i) => is_first_match(records, ckey, discord, i),
            None => !has_match(records, ckey, discord),
        },
        forall|i: int| #[trigger]
            is_first_match(records, ckey, discord, i) ==> first_match(records, ckey, discord)
                == Some(i),
{
    if has_match(records, ckey, discord) {
        let k = choose|k: int|
            0 <= k < records.len() && record_matches(#[trigger] records[k], ckey, discord);
        lemma_least_match(records, ckey, discord, k);
        let first = choose|i: int| is_first_match(records, ckey, discord, i);
        assert forall|i: int| is_first_match(records, ckey, discord, i) implies i == first by {
            if i < first {
                assert(!record_matches(records[i], ckey, discord));
            } else if first < i {
                assert(!record_matches(records[first], ckey, discord));
            }
        }
    } else {
        assert forall|i: int| !is_first_match(records, ckey, discord, i) by {
            if is_first_match(records, ckey, discord, i) {
                assert(record_matches(records[i], ckey, discord));
            }
        }
    }
}

/// The view of what a mutation returns: the snapshot as record views.
pub open spec fn snapshot_view(result: Result<Vec<VerifiedUser>, RegistryError>) -> Result<
    Seq<UserView>,
    RegistryError,
> {
    match result {
        Ok(snapshot) => Ok(views(snapshot@)),
        Err(e) => Err(e),
    }
}

/// The in-memory registry. Records keep the order in which they were added;
/// the list is reachable only through the operations below.
pub struct Registry {
    users: Vec<VerifiedUser>,
}

impl View for Registry {
    type V = Seq<UserView>;

    closed spec fn view(&self) -> Seq<UserView> {
        views(self.users@)
    }
}

impl Registry {
    /// Takes over a list of records, as loaded from storage, in its order.
    pub fn new(records: Vec<VerifiedUser>) -> (registry: Registry)
        ensures
            registry@ == views(records@),
    {
        Registry { users: records }
    }

    /// The number of records.
    pub fn len(&self) -> (n: usize)
        ensures
            n == self@.len(),
    {
        self.users.len()
    }

    /// A copy of all records, in insertion order. The registry is not changed.
    pub fn list(&self) -> (snapshot: Vec<VerifiedUser>)
        ensures
            views(snapshot@) == self@,
    {
        let snapshot = self.users.clone();
        assert(snapshot@ =~= self.users@);
        snapshot
    }

    /// Finds the first record that answers to the key `(ckey, discord)`.
    pub fn find_match(&self, ckey: &str, discord: &str) -> (found: Option<usize>)
        ensures
            match found {
                Some(i) => {
                    &&& is_first_match(self@, ckey@, discord@, i as int)
                    &&& first_match(self@, ckey@, discord@) == Some(i as int)
                },
                None => {
                    &&& !has_match(self@, ckey@, discord@)
                    &&& first_match(self@, ckey@, discord@) is None
                },
            },
    {
        proof {
            lemma_first_match(self@, ckey@, discord@);
        }
        let mut i: usize = 0;
        while i < self.users.len()
            invariant
                i <= self.users.len(),
                self@ == views(self.users@),
                forall|j: int| 0 <= j < i ==> !record_matches(#[trigger] self@[j], ckey@, discord@),
            decreases self.users.len() - i,
        {
            if self.users[i].matches(ckey, discord) {
                assert(is_first_match(self@, ckey@, discord@, i as int));
                return Some(i);
            }
            i += 1;
        }
        None
    }

    /// Appends a fresh record and returns the new full list.
    fn append(&mut self, ckey: String, discord: String, create_time: String) -> (snapshot: Vec<
        VerifiedUser,
    >)
        ensures
            final(self)@ == old(self)@.push(new_record(ckey@, discord@, create_time@)),
            views(snapshot@) == final(self)@,
            !has_match(old(self)@, ckey@, discord@) && distinct_identities(old(self)@)
                ==> distinct_identities(final(self)@),
    {
        proof {
            if !has_match(self@, ckey@, discord@) && distinct_identities(self@) {
                lemma_added_keeps_distinct(self@, ckey@, discord@, create_time@);
            }
        }
        let ghost before = self.users@;
        self.users.push(VerifiedUser::new(ckey, discord, create_time));
        assert(views(self.users@) =~= views(before).push(
            new_record(ckey@, discord@, create_time@),
        ));
        self.list()
    }

    /// Adds a record for `(ckey, discord)` that carries the given creation
    /// time, unless the key already answers to a record. On success the new
    /// full list is returned.
    pub fn add_at(&mut self, ckey: String, discord: String, create_time: String) -> (result: Result<
        Vec<VerifiedUser>,
        RegistryError,
    >)
        ensures
            snapshot_view(result) == added(old(self)@, ckey@, discord@, create_time@),
            final(self)@ == settled(old(self)@, snapshot_view(result)),
            distinct_identities(old(self)@) ==> distinct_identities(final(self)@),
    {
        match self.find_match(ckey.as_str(), discord.as_str()) {
            Some(_) => Err(RegistryError::Conflict),
            None => Ok(self.append(ckey, discord, create_time)),
        }
    }

    /// Adds a record for `(ckey, discord)` stamped with the current time in
    /// UTC, unless the key already answers to a record. On success the new
    /// full list is returned. The clock is read only when the record is added.
    ///
    /// This is [`Registry::add_at`] with a creation time that the clock
    /// chooses.
    pub fn add(&mut self, ckey: String, discord: String) -> (result: Result<
        Vec<VerifiedUser>,
        RegistryError,
    >)
        ensures
            exists|create_time: Seq<char>|
                clock_text(create_time) && snapshot_view(result) == #[trigger] added(
                    old(self)@,
                    ckey@,
                    discord@,
                    create_time,
                ),
            final(self)@ == settled(old(self)@, snapshot_view(result)),
            distinct_identities(old(self)@) ==> distinct_identities(final(self)@),
    {
        let ghost before = self@;
        match self.find_match(ckey.as_str(), discord.as_str()) {
            Some(_) => {
                let ghost any = Seq::new(20, |i: int| ' ');
                assert(added(before, ckey@, discord@, any) is Err);
                Err(RegistryError::Conflict)
            },
            None => {
                let now = utc_timestamp();
                assert(added(before, ckey@, discord@, now@) is Ok);
                Ok(self.append(ckey, discord, now))
            },
        }
    }

    /// Removes the first record that answers to the key `(ckey, discord)`.
    /// On success the new full list is returned.
    pub fn delete(&mut self, ckey: &str, discord: &str) -> (result: Result<
        Vec<VerifiedUser>,
        RegistryError,
    >)
        ensures
            snapshot_view(result) == deleted(old(self)@, ckey@, discord@),
            final(self)@ == settled(old(self)@, snapshot_view(result)),
            distinct_identities(old(self)@) ==> distinct_identities(final(self)@),
    {
        proof {
            if distinct_identities(self@) {
                lemma_deleted_keeps_distinct(self@, ckey@, discord@);
            }
        }
        match self.find_match(ckey, discord) {
            Some(i) => {
                let ghost before = self.users@;
                self.users.remove(i);
                assert(views(self.users@) =~= views(before).remove(i as int));
                Ok(self.list())
            },
            None => Err(RegistryError::NotFound),
        }
    }
}

/// An accepted addition keeps the uniqueness invariant.
pub proof fn lemma_added_keeps_distinct(
    records: Seq<UserView>,
    ckey: Seq<char>,
    discord: Seq<char>,
    create_time: Seq<char>,
)
    requires
        distinct_identities(records),
    ensures
        distinct_identities(settled(records, added(records, ckey, discord, create_time))),
{
    if !has_match(records, ckey, discord) {
        let fresh = new_record(ckey, discord, create_time);
        let after = records.push(fresh);
        assert forall|i: int, j: int| 0 <= i < j < after.len() implies {
            let a = #[trigger] after[i];
            let b = #[trigger] after[j];
            &&& a.ss13 is Some ==> a.ss13 != b.ss13
            &&& a.discord is Some ==> a.discord != b.discord
        } by {
            if j == records.len() {
                assert(!record_matches(records[i], ckey, discord));
            } else {
                assert(after[i] == records[i] && after[j] == records[j]);
            }
        }
    }
}

/// A removal keeps the uniqueness invariant.
pub proof fn lemma_deleted_keeps_distinct(
    records: Seq<UserView>,
    ckey: Seq<char>,
    discord: Seq<char>,
)
    requires
        distinct_identities(records),
    ensures
        distinct_identities(settled(records, deleted(records, ckey, discord))),
{
    lemma_first_match(records, ckey, discord);
    if let Some(k) = first_match(records, ckey, discord) {
        let after = records.remove(k);
        assert forall|i: int, j: int| 0 <= i < j < after.len() implies {
            let a = #[trigger] after[i];
            let b = #[trigger] after[j];
            &&& a.ss13 is Some ==> a.ss13 != b.ss13
            &&& a.discord is Some ==> a.discord != b.discord
        } by {
            let i0 = if i < k { i } else { i + 1 };
            let j0 = if j < k { j } else { j + 1 };
            assert(after[i] == records[i0] && after[j] == records[j0]);
        }
    }
}

/// An addition under a key that answers to no record is accepted, and the
/// list then ends with the new record: the handle and the account id as
/// given, the creation time as stamped. The records before it are untouched.
/// A stamp that the clock gave before the year 10000 has the shape
/// `YYYY-MM-DD HH:MM:SS`.
pub proof fn lemma_add_then_list(
    records: Seq<UserView>,
    ckey: Seq<char>,
    discord: Seq<char>,
    create_time: Seq<char>,
)
    requires
        !has_match(records, ckey, discord),
    ensures
        added(records, ckey, discord, create_time) is Ok,
        ({
            let after = settled(records, added(records, ckey, discord, create_time));
            &&& after.len() == records.len() + 1
            &&& after.subrange(0, records.len() as int) == records
            &&& after.last() == new_record(ckey, discord, create_time)
            &&& after.contains(new_record(ckey, discord, create_time))
            &&& clock_text(create_time) && create_time.len() <= 19 ==> timestamp_format(
                after.last().create_time,
            )
        }),
{
    let after = records.push(new_record(ckey, discord, create_time));
    assert(after.subrange(0, records.len() as int) =~= records);
    assert(after[records.len() as int] == new_record(ckey, discord, create_time));
}

/// An addition whose handle or whose account id is already present in some
/// record is refused as a conflict, and the records stay as they were.
pub proof fn lemma_add_present_conflicts(
    records: Seq<UserView>,
    k: int,
    ckey: Seq<char>,
    discord: Seq<char>,
    create_time: Seq<char>,
)
    requires
        0 <= k < records.len(),
        records[k].discord == Some(discord) || records[k].ss13 == Some(ckey),
    ensures
        added(records, ckey, discord, create_time) == Err::<Seq<UserView>, RegistryError>(
            RegistryError::Conflict,
        ),
        settled(records, added(records, ckey, discord, create_time)) == records,
{
    assert(record_matches(records[k], ckey, discord));
}

/// Once an addition was accepted, every later addition that repeats its
/// handle or its account id is refused as a conflict.
pub proof fn lemma_add_twice_conflicts(
    records: Seq<UserView>,
    ckey: Seq<char>,
    discord: Seq<char>,
    create_time: Seq<char>,
    ckey2: Seq<char>,
    discord2: Seq<char>,
    create_time2: Seq<char>,
)
    requires
        !has_match(records, ckey, discord),
        ckey2 == ckey || discord2 == discord,
    ensures
        added(
            settled(records, added(records, ckey, discord, create_time)),
            ckey2,
            discord2,
            create_time2,
        ) == Err::<Seq<UserView>, RegistryError>(RegistryError::Conflict),
{
    let after = records.push(new_record(ckey, discord, create_time));
    lemma_add_present_conflicts(after, records.len() as int, ckey2, discord2, create_time2);
}

/// A removal under a key that repeats the handle or the account id of some
/// record is accepted and takes out exactly one record, the first that
/// answers to the key; all others keep their order.
pub proof fn lemma_delete_removes_one(
    records: Seq<UserView>,
    k: int,
    ckey: Seq<char>,
    discord: Seq<char>,
)
    requires
        0 <= k < records.len(),
        records[k].discord == Some(discord) || records[k].ss13 == Some(ckey),
    ensures
        deleted(records, ckey, discord) is Ok,
        settled(records, deleted(records, ckey, discord)).len() == records.len() - 1,
        exists|i: int|
            0 <= i <= k && is_first_match(records, ckey, discord, i) && deleted(
                records,
                ckey,
                discord,
            ) == Ok::<Seq<UserView>, RegistryError>(records.remove(i)),
{
    assert(record_matches(records[k], ckey, discord));
    lemma_first_match(records, ckey, discord);
    let i = first_match(records, ckey, discord)->Some_0;
    assert(is_first_match(records, ckey, discord, i));
    if k < i {
        assert(!record_matches(records[k], ckey, discord));
    }
}

/// Where one record alone answers to a key, a removal under that key takes
/// out that record, and a second removal under the same key finds nothing.
pub proof fn lemma_delete_twice_not_found(
    records: Seq<UserView>,
    k: int,
    ckey: Seq<char>,
    discord: Seq<char>,
)
    requires
        0 <= k < records.len(),
        record_matches(records[k], ckey, discord),
        forall|j: int|
            0 <= j < records.len() && j != k ==> !record_matches(
                #[trigger] records[j],
                ckey,
                discord,
            ),
    ensures
        deleted(records, ckey, discord) == Ok::<Seq<UserView>, RegistryError>(records.remove(k)),
        deleted(records.remove(k), ckey, discord) == Err::<Seq<UserView>, RegistryError>(
            RegistryError::NotFound,
        ),
{
    assert(is_first_match(records, ckey, discord, k));
    lemma_first_match(records, ckey, discord);
    let rest = records.remove(k);
    assert forall|j: int| 0 <= j < rest.len() implies !record_matches(
        #[trigger] rest[j],
        ckey,
        discord,
    ) by {
        let j0 = if j < k { j } else { j + 1 };
        assert(rest[j] == records[j0]);
    }
    lemma_first_match(rest, ckey, discord);
}

/// A record that was added under a pair is removed again by that same pair,
/// which restores the list as it was; removing under the pair once more finds
/// nothing.
pub proof fn lemma_add_then_delete(
    records: Seq<UserView>,
    ckey: Seq<char>,
    discord: Seq<char>,
    create_time: Seq<char>,
)
    requires
        !has_match(records, ckey, discord),
    ensures
        deleted(settled(records, added(records, ckey, discord, create_time)), ckey, discord)
            == Ok::<Seq<UserView>, RegistryError>(records),
        deleted(records, ckey, discord) == Err::<Seq<UserView>, RegistryError>(
            RegistryError::NotFound,
        ),
{
    let after = records.push(new_record(ckey, discord, create_time));
    let k = records.len() as int;
    assert(record_matches(after[k], ckey, discord));
    assert forall|j: int| 0 <= j < after.len() && j != k implies !record_matches(
        #[trigger] after[j],
        ckey,
        discord,
    ) by {
        assert(after[j] == records[j]);
    }
    lemma_delete_twice_not_found(after, k, ckey, discord);
    assert(after.remove(k) =~= records);
}

} // verus!
