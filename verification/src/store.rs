//! An in-memory document store for user records, the library's model of the
//! external collaborator contract: a "users" collection supporting insert,
//! find-by-id, replace-by-id and delete-by-id, the last two reporting how many
//! documents they touched. Its mathematical view is a map from identifier
//! strings to the stored field values.
use vstd::prelude::*;
use vstd::pervasive::VecAdditionalExecFns;
use vstd::string::StringExecFns;
use crate::oid::is_oid_seq;
use crate::oid::is_valid_object_id;
use crate::oid::lemma_oid_seq_injective;
use crate::oid::lemma_oid_seq_valid;
use crate::oid::oid_seq;
use crate::oid::oid_string;
use crate::user::User;
use crate::user::UserView;

verus! {

/// The three descriptive fields of a stored record.
pub ghost struct Profile {
    pub name: Seq<char>,
    pub location: Seq<char>,
    pub title: Seq<char>,
}

/// The profile carried by a user record, its identifier set aside.
pub open spec fn profile_of_user(u: UserView) -> Profile {
    Profile { name: u.name, location: u.location, title: u.title }
}

/// The outcome of a fetch-by-id against a document store: the record, an
/// explicit not-found, a malformed identifier that the store could not parse,
/// or a data-access failure with its textual description. The in-memory store
/// never reports `Error`; the variant carries the failures of an external
/// store through the handler layer.
pub enum FetchOutcome {
    Found(User),
    NotFound,
    InvalidId,
    Error(String),
}

/// What a replace-by-id reports: how many documents matched the identifier
/// and how many were rewritten (0 or 1 each, identifiers being unique).
pub struct UpdateResult {
    pub matched_count: u64,
    pub modified_count: u64,
}

/// What a delete-by-id reports: how many documents were removed (0 or 1).
pub struct DeleteResult {
    pub deleted_count: u64,
}

struct StoredUser {
    key: u64,
    id: String,
    name: String,
    location: String,
    title: String,
}

spec fn profile_of(r: StoredUser) -> Profile {
    Profile { name: r.name@, location: r.location@, title: r.title@ }
}

spec fn map_of(s: Seq<StoredUser>) -> Map<Seq<char>, Profile>
    decreases s.len(),
{
    if s.len() == 0 {
        Map::empty()
    } else {
        map_of(s.drop_last()).insert(s.last().id@, profile_of(s.last()))
    }
}

spec fn distinct_ids(s: Seq<StoredUser>) -> bool {
    forall|i: int, j: int| 0 <= i < j < s.len() ==> (#[trigger] s[i]).id@ != (#[trigger] s[j]).id@
}

proof fn lemma_map_of_contains(s: Seq<StoredUser>, x: Seq<char>)
    ensures
        map_of(s).contains_key(x) <==> exists|i: int| 0 <= i < s.len() && (#[trigger] s[i]).id@ == x,
    decreases s.len(),
{
    if s.len() > 0 {
        let t = s.drop_last();
        lemma_map_of_contains(t, x);
        if x == s.last().id@ {
            assert(s[s.len() - 1].id@ == x);
        } else {
            if map_of(s).contains_key(x) {
                let i = choose|i: int| 0 <= i < t.len() && (#[trigger] t[i]).id@ == x;
                assert(s[i].id@ == x);
            }
            if exists|i: int| 0 <= i < s.len() && (#[trigger] s[i]).id@ == x {
                let i = choose|i: int| 0 <= i < s.len() && (#[trigger] s[i]).id@ == x;
                assert(i < s.len() - 1);
                assert(t[i].id@ == x);
            }
        }
    }
}

proof fn lemma_map_of_get(s: Seq<StoredUser>, i: int)
    requires
        distinct_ids(s),
        0 <= i < s.len(),
    ensures
        map_of(s).contains_key(s[i].id@),
        map_of(s)[s[i].id@] == profile_of(s[i]),
    decreases s.len(),
{
    if i < s.len() - 1 {
        let t = s.drop_last();
        assert(t[i] == s[i]);
        lemma_map_of_get(t, i);
        assert(s.last().id@ != s[i].id@);
    }
}

proof fn lemma_map_of_update(s: Seq<StoredUser>, i: int, r: StoredUser)
    requires
        distinct_ids(s),
        0 <= i < s.len(),
        r.id@ == s[i].id@,
    ensures
        map_of(s.update(i, r)) == map_of(s).insert(r.id@, profile_of(r)),
    decreases s.len(),
{
    let s2 = s.update(i, r);
    if i == s.len() - 1 {
        assert(s2.drop_last() =~= s.drop_last());
        assert(s2.last() == r);
        assert(map_of(s2) =~= map_of(s).insert(r.id@, profile_of(r)));
    } else {
        let t = s.drop_last();
        assert(t[i] == s[i]);
        lemma_map_of_update(t, i, r);
        assert(s2.drop_last() =~= t.update(i, r));
        assert(s2.last() == s.last());
        assert(s.last().id@ != r.id@);
        assert(map_of(s2) =~= map_of(s).insert(r.id@, profile_of(r)));
    }
}

proof fn lemma_map_of_remove(s: Seq<StoredUser>, i: int)
    requires
        distinct_ids(s),
        0 <= i < s.len(),
    ensures
        map_of(s.remove(i)) == map_of(s).remove(s[i].id@),
    decreases s.len(),
{
    let s2 = s.remove(i);
    if i == s.len() - 1 {
        assert(s2 =~= s.drop_last());
        lemma_map_of_contains(s.drop_last(), s[i].id@);
        assert(forall|j: int| 0 <= j < s.drop_last().len()
            ==> (#[trigger] s.drop_last()[j]).id@ != s[i].id@);
        assert(!map_of(s.drop_last()).contains_key(s[i].id@));
        assert(map_of(s2) =~= map_of(s).remove(s[i].id@));
    } else {
        let t = s.drop_last();
        assert(t[i] == s[i]);
        lemma_map_of_remove(t, i);
        assert(s2.drop_last() =~= t.remove(i));
        assert(s2.last() == s.last());
        assert(s.last().id@ != s[i].id@);
        assert(map_of(s2) =~= map_of(s).remove(s[i].id@));
    }
}

/// The in-memory user store: a collection of records with pairwise distinct
/// store-assigned identifiers, rendered from a private counter.
pub struct UserStore {
    records: Vec<StoredUser>,
    next: u64,
}

impl View for UserStore {
    type V = Map<Seq<char>, Profile>;

    closed spec fn view(&self) -> Map<Seq<char>, Profile> {
        map_of(self.records@)
    }
}

impl UserStore {
    /// Internal invariant: every record's identifier was rendered from a
    /// counter value below `next`, and no two records share a counter value.
    pub closed spec fn wf(self) -> bool {
        &&& forall|i: int| 0 <= i < self.records@.len()
            ==> (#[trigger] self.records@[i]).key < self.next
                && self.records@[i].id@ == oid_seq(self.records@[i].key)
        &&& forall|i: int, j: int| 0 <= i < j < self.records@.len()
            ==> (#[trigger] self.records@[i]).key != (#[trigger] self.records@[j]).key
    }

    /// Whether the store can still assign a fresh identifier; false only once
    /// the identifier counter is exhausted, a machine limit.
    pub closed spec fn can_create(self) -> bool {
        self.next < u64::MAX
    }

    proof fn lemma_distinct(self)
        requires
            self.wf(),
        ensures
            distinct_ids(self.records@),
    {
        let s = self.records@;
        assert forall|i: int, j: int| 0 <= i < j < s.len()
            implies (#[trigger] s[i]).id@ != (#[trigger] s[j]).id@ by {
            if s[i].id@ == s[j].id@ {
                lemma_oid_seq_injective(s[i].key, s[j].key);
            }
        }
    }

    /// A fresh, empty store.
    pub fn new() -> (s: UserStore)
        ensures
            s.wf(),
            s@ == Map::<Seq<char>, Profile>::empty(),
            s.can_create(),
    {
        UserStore { records: Vec::new(), next: 0 }
    }

    fn find_index(&self, id: &String) -> (r: Option<usize>)
        ensures
            match r {
                Option::Some(i) => i < self.records@.len() && self.records@[i as int].id@ == id@,
                Option::None => forall|j: int| 0 <= j < self.records@.len()
                    ==> (#[trigger] self.records@[j]).id@ != id@,
            },
    {
        let mut i: usize = 0;
        while i < self.records.len()
            invariant
                0 <= i <= self.records@.len(),
                forall|j: int| 0 <= j < i ==> (#[trigger] self.records@[j]).id@ != id@,
            decreases self.records@.len() - i,
        {
            if self.records[i].id == *id {
                return Option::Some(i);
            }
            i = i + 1;
        }
        Option::None
    }

    /// Inserts a new document under a freshly assigned identifier, discarding
    /// any identifier on the incoming record, and returns the persisted
    /// record, identifier included. Fails only when the identifier counter is
    /// exhausted, the store's one "write cannot complete" condition.
    pub fn create_user(&mut self, user: User) -> (r: Result<User, String>)
        requires
            old(self).wf(),
        ensures
            final(self).wf(),
            r is Ok <==> old(self).can_create(),
            match r {
                Result::Ok(u) => u@.id matches Some(id) && {
                    &&& is_oid_seq(id)
                    &&& !old(self)@.contains_key(id)
                    &&& u@.name == user@.name
                    &&& u@.location == user@.location
                    &&& u@.title == user@.title
                    &&& final(self)@ == old(self)@.insert(id, profile_of_user(user@))
                },
                Result::Err(_) => *final(self) == *old(self),
            },
    {
        if self.next == u64::MAX {
            return Result::Err(String::from_str("user store exhausted"));
        }
        let ghost u0 = user@;
        let key = self.next;
        let id = oid_string(key);
        proof {
            lemma_oid_seq_valid(key);
            lemma_map_of_contains(self.records@, oid_seq(key));
            if self@.contains_key(oid_seq(key)) {
                let i = choose|i: int| 0 <= i < self.records@.len()
                    && (#[trigger] self.records@[i]).id@ == oid_seq(key);
                lemma_oid_seq_injective(self.records@[i].key, key);
            }
        }
        let User { id: _, name, location, title } = user;
        let rec = StoredUser {
            key,
            id: id.clone(),
            name: name.clone(),
            location: location.clone(),
            title: title.clone(),
        };
        proof {
            assert(self.records@.push(rec).drop_last() =~= self.records@);
        }
        self.records.push(rec);
        self.next = key + 1;
        Result::Ok(User { id: Option::Some(id), name, location, title })
    }

    /// Looks a document up by its external identifier string. A malformed
    /// identifier is reported as `InvalidId`; absence as `NotFound`, distinct
    /// from a data-access failure.
    pub fn get_user(&self, id: &String) -> (r: FetchOutcome)
        requires
            self.wf(),
        ensures
            !is_oid_seq(id@) ==> r is InvalidId,
            is_oid_seq(id@) && self@.contains_key(id@) ==> (r matches FetchOutcome::Found(u) && {
                &&& u@.id == Some(id@)
                &&& u@.name == self@[id@].name
                &&& u@.location == self@[id@].location
                &&& u@.title == self@[id@].title
            }),
            is_oid_seq(id@) && !self@.contains_key(id@) ==> r is NotFound,
    {
        if !is_valid_object_id(id.as_str()) {
            return FetchOutcome::InvalidId;
        }
        match self.find_index(id) {
            Option::Some(i) => {
                proof {
                    self.lemma_distinct();
                    lemma_map_of_get(self.records@, i as int);
                }
                let rec = &self.records[i];
                FetchOutcome::Found(User {
                    id: Option::Some(rec.id.clone()),
                    name: rec.name.clone(),
                    location: rec.location.clone(),
                    title: rec.title.clone(),
                })
            },
            Option::None => {
                proof {
                    lemma_map_of_contains(self.records@, id@);
                }
                FetchOutcome::NotFound
            },
        }
    }

    /// Replaces the fields of the document matching `id` with the incoming
    /// record's fields; the stored identifier is kept and any identifier on
    /// the incoming record is ignored. Reports how many documents matched.
    pub fn update_user(&mut self, id: &String, user: User) -> (r: UpdateResult)
        requires
            old(self).wf(),
        ensures
            final(self).wf(),
            old(self)@.contains_key(id@) ==> {
                &&& r.matched_count == 1
                &&& r.modified_count == 1
                &&& final(self)@ == old(self)@.insert(id@, profile_of_user(user@))
            },
            !old(self)@.contains_key(id@) ==> {
                &&& r.matched_count == 0
                &&& r.modified_count == 0
                &&& *final(self) == *old(self)
            },
    {
        let ghost u0 = user@;
        match self.find_index(id) {
            Option::Some(i) => {
                proof {
                    self.lemma_distinct();
                    lemma_map_of_get(self.records@, i as int);
                }
                let key = self.records[i].key;
                let stored_id = self.records[i].id.clone();
                let User { id: _, name, location, title } = user;
                let rec = StoredUser { key, id: stored_id, name, location, title };
                proof {
                    lemma_map_of_update(self.records@, i as int, rec);
                }
                self.records.set(i, rec);
                UpdateResult { matched_count: 1, modified_count: 1 }
            },
            Option::None => {
                proof {
                    lemma_map_of_contains(self.records@, id@);
                }
                UpdateResult { matched_count: 0, modified_count: 0 }
            },
        }
    }

    /// Removes the document matching `id` and reports how many documents were
    /// removed.
    pub fn delete_user(&mut self, id: &String) -> (r: DeleteResult)
        requires
            old(self).wf(),
        ensures
            final(self).wf(),
            old(self)@.contains_key(id@) ==> {
                &&& r.deleted_count == 1
                &&& final(self)@ == old(self)@.remove(id@)
            },
            !old(self)@.contains_key(id@) ==> {
                &&& r.deleted_count == 0
                &&& *final(self) == *old(self)
            },
    {
        match self.find_index(id) {
            Option::Some(i) => {
                proof {
                    self.lemma_distinct();
                    lemma_map_of_get(self.records@, i as int);
                    lemma_map_of_remove(self.records@, i as int);
                }
                let _ = self.records.remove(i);
                proof {
                    let s = old(self).records@;
                    let s2 = self.records@;
                    assert forall|p: int, q: int| 0 <= p < q < s2.len()
                        implies (#[trigger] s2[p]).key != (#[trigger] s2[q]).key by {
                        let p0 = if p < i as int { p } else { p + 1 };
                        let q0 = if q < i as int { q } else { q + 1 };
                        assert(s2[p] == s[p0]);
                        assert(s2[q] == s[q0]);
                    }
                }
                DeleteResult { deleted_count: 1 }
            },
            Option::None => {
                proof {
                    lemma_map_of_contains(self.records@, id@);
                }
                DeleteResult { deleted_count: 0 }
            },
        }
    }
}

} // verus!
