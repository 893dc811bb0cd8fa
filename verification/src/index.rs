//! The session index: which sessions exist, where their files are and how old
//! they are.
//!
//! The index is a table keyed by identifier. Its contracts are stated over a
//! [`Map`] from identifier to [`SessionModel`], the view of the index.

use vstd::prelude::*;
use crate::error::MigrateError;
use crate::text::texts;

verus! {

/// One row of the index: a finished migration that waits to be fetched.
#[derive(Debug, PartialEq, Eq)]
pub struct Session {
    /// The token under which the session is fetched.
    pub identifier: String,
    /// The directory that holds the session's files.
    pub path: String,
    /// What the conversion tool printed.
    pub log: String,
    /// When the session was registered, in seconds since the epoch.
    pub created_at: u64,
}

/// What the index records under an identifier.
pub struct SessionModel {
    pub path: Seq<char>,
    pub log: Seq<char>,
    pub created_at: u64,
}

impl View for Session {
    type V = SessionModel;

    open spec fn view(&self) -> SessionModel {
        SessionModel { path: self.path@, log: self.log@, created_at: self.created_at }
    }
}

/// No identifier occurs in two rows.
pub open spec fn distinct_identifiers(rows: Seq<Session>) -> bool {
    forall|i: int, j: int|
        0 <= i < j < rows.len() ==> (#[trigger] rows[i]).identifier@ != (
        #[trigger] rows[j]).identifier@
}

/// Some row carries the identifier.
pub open spec fn has_row(rows: Seq<Session>, identifier: Seq<char>) -> bool {
    exists|i: int| 0 <= i < rows.len() && (#[trigger] rows[i]).identifier@ == identifier
}

/// The position of a row that carries the identifier.
pub open spec fn row_position(rows: Seq<Session>, identifier: Seq<char>) -> int {
    choose|i: int| 0 <= i < rows.len() && (#[trigger] rows[i]).identifier@ == identifier
}

/// The table that a list of rows stands for.
pub open spec fn table(rows: Seq<Session>) -> Map<Seq<char>, SessionModel> {
    Map::new(
        |identifier: Seq<char>| has_row(rows, identifier),
        |identifier: Seq<char>| rows[row_position(rows, identifier)]@,
    )
}

/// The identifiers whose sessions were registered before `cutoff`.
pub open spec fn registered_before(index: Map<Seq<char>, SessionModel>, cutoff: int) -> Set<
    Seq<char>,
> {
    Set::new(
        |identifier: Seq<char>|
            index.contains_key(identifier) && index[identifier].created_at < cutoff,
    )
}

/// In a list without repeated identifiers, the table holds each row under its
/// identifier.
pub proof fn lemma_table_row(rows: Seq<Session>, i: int)
    requires
        distinct_identifiers(rows),
        0 <= i < rows.len(),
    ensures
        table(rows).contains_key(rows[i].identifier@),
        table(rows)[rows[i].identifier@] == rows[i]@,
{
    let identifier = rows[i].identifier@;
    assert(has_row(rows, identifier));
    let j: int = row_position(rows, identifier);
    assert(0 <= j < rows.len() && rows[j].identifier@ == identifier);
    assert(i == j);
}

/// The session index.
pub struct SessionIndex {
    rows: Vec<Session>,
}

impl View for SessionIndex {
    type V = Map<Seq<char>, SessionModel>;

    closed spec fn view(&self) -> Map<Seq<char>, SessionModel> {
        table(self.rows@)
    }
}

impl SessionIndex {
    #[verifier::type_invariant]
    spec fn well_formed(&self) -> bool {
        distinct_identifiers(self.rows@)
    }

    /// An index without sessions.
    pub fn new() -> (index: SessionIndex)
        ensures
            index@ == Map::<Seq<char>, SessionModel>::empty(),
    {
        let index = SessionIndex { rows: Vec::new() };
        assert(index@ =~= Map::<Seq<char>, SessionModel>::empty());
        index
    }

    /// Moves the rows out and leaves the index empty.
    fn take_rows(&mut self) -> (rows: Vec<Session>)
        ensures
            rows@ == old(self).rows@,
            distinct_identifiers(rows@),
    {
        proof {
            use_type_invariant(&*self);
        }
        let mut taken = SessionIndex { rows: Vec::new() };
        core::mem::swap(self, &mut taken);
        taken.rows
    }

    /// The position of the row with the identifier, if there is one.
    fn position(&self, identifier: &String) -> (found: Option<usize>)
        ensures
            match found {
                Some(i) => i < self.rows@.len() && self.rows@[i as int].identifier@ == identifier@,
                None => !has_row(self.rows@, identifier@),
            },
    {
        let mut i: usize = 0;
        while i < self.rows.len()
            invariant
                i <= self.rows@.len(),
                forall|k: int| 0 <= k < i ==> (#[trigger] self.rows@[k]).identifier@ != identifier@,
            decreases self.rows@.len() - i,
        {
            if self.rows[i].identifier == *identifier {
                return Some(i);
            }
            i += 1;
        }
        None
    }

    /// Whether a session is registered under the identifier.
    pub fn contains(&self, identifier: &str) -> (found: bool)
        ensures
            found == self@.contains_key(identifier@),
    {
        let key = String::from_str(identifier);
        self.position(&key).is_some()
    }

    /// Registers a session. An identifier can be registered once: a second
    /// row under the same identifier is refused as a fault of the storage
    /// layer and leaves the index as it was.
    pub fn insert(
        &mut self,
        identifier: String,
        path: String,
        log: String,
        created_at: u64,
    ) -> (result: Result<(), MigrateError>)
        ensures
            match result {
                Ok(()) => {
                    &&& !old(self)@.contains_key(identifier@)
                    &&& final(self)@ == old(self)@.insert(
                        identifier@,
                        SessionModel { path: path@, log: log@, created_at },
                    )
                },
                Err(e) => {
                    &&& old(self)@.contains_key(identifier@)
                    &&& final(self)@ == old(self)@
                    &&& e is ServerError
                },
            },
    {
        proof {
            use_type_invariant(&*self);
        }
        match self.position(&identifier) {
            Some(_) => Err(
                MigrateError::ServerError(String::from_str("identifier is already registered")),
            ),
            None => {
                let ghost before = self.rows@;
                let ghost key = identifier@;
                let ghost row = SessionModel { path: path@, log: log@, created_at };
                let mut rows = self.take_rows();
                rows.push(Session { identifier, path, log, created_at });
                proof {
                    let after = rows@;
                    assert(distinct_identifiers(after));
                    assert forall|k: Seq<char>| #[trigger]
                        table(after).contains_key(k) <==> table(before).insert(
                            key,
                            row,
                        ).contains_key(k) by {
                        if has_row(after, k) {
                            let i: int = row_position(after, k);
                            if i < before.len() {
                                assert(before[i].identifier@ == k);
                            }
                        }
                        if has_row(before, k) {
                            let i: int = row_position(before, k);
                            assert(after[i].identifier@ == k);
                        }
                        if k == key {
                            assert(after[before.len() as int].identifier@ == k);
                        }
                    }
                    assert forall|k: Seq<char>| #[trigger]
                        table(after).contains_key(k) implies table(after)[k] == table(
                        before,
                    ).insert(key, row)[k] by {
                        let i: int = row_position(after, k);
                        lemma_table_row(after, i);
                        if i < before.len() {
                            lemma_table_row(before, i);
                        }
                    }
                    assert(table(after) =~= table(before).insert(key, row));
                }
                *self = SessionIndex { rows };
                Ok(())
            },
        }
    }

    /// Looks a session up and returns its directory and its log.
    pub fn lookup(&self, identifier: &str) -> (result: Result<(String, String), MigrateError>)
        ensures
            match result {
                Ok((path, log)) => {
                    &&& self@.contains_key(identifier@)
                    &&& path@ == self@[identifier@].path
                    &&& log@ == self@[identifier@].log
                },
                Err(e) => !self@.contains_key(identifier@) && e is NotFound,
            },
    {
        proof {
            use_type_invariant(self);
        }
        let key = String::from_str(identifier);
        match self.position(&key) {
            Some(i) => {
                proof {
                    lemma_table_row(self.rows@, i as int);
                }
                let row = &self.rows[i];
                Ok((row.path.clone(), row.log.clone()))
            },
            None => Err(MigrateError::NotFound),
        }
    }

    /// Removes the session under the identifier and hands its row back. Where
    /// no such session is registered the index stays as it was.
    pub fn remove(&mut self, identifier: &str) -> (removed: Option<Session>)
        ensures
            final(self)@ == old(self)@.remove(identifier@),
            match removed {
                Some(session) => {
                    &&& old(self)@.contains_key(identifier@)
                    &&& session.identifier@ == identifier@
                    &&& session@ == old(self)@[identifier@]
                },
                None => !old(self)@.contains_key(identifier@),
            },
    {
        proof {
            use_type_invariant(&*self);
        }
        let key = String::from_str(identifier);
        match self.position(&key) {
            Some(i) => {
                let ghost before = self.rows@;
                let mut rows = self.take_rows();
                let session = rows.remove(i);
                proof {
                    let after = rows@;
                    let at: int = i as int;
                    lemma_table_row(before, at);
                    assert(distinct_identifiers(after)) by {
                        assert forall|a: int, b: int| 0 <= a < b < after.len() implies (
                        #[trigger] after[a]).identifier@ != (#[trigger] after[b]).identifier@ by {
                            let a0: int = if a < at { a } else { a + 1 };
                            let b0: int = if b < at { b } else { b + 1 };
                            assert(after[a] == before[a0] && after[b] == before[b0]);
                        }
                    }
                    assert forall|k: Seq<char>| #[trigger]
                        table(after).contains_key(k) <==> table(before).remove(
                            identifier@,
                        ).contains_key(k) by {
                        if has_row(after, k) {
                            let a: int = row_position(after, k);
                            let a0: int = if a < at { a } else { a + 1 };
                            assert(before[a0].identifier@ == k);
                        }
                        if has_row(before, k) && k != identifier@ {
                            let b: int = row_position(before, k);
                            let b1: int = if b < at { b } else { b - 1 };
                            assert(after[b1].identifier@ == k);
                        }
                    }
                    assert forall|k: Seq<char>| #[trigger]
                        table(after).contains_key(k) implies table(after)[k] == table(
                        before,
                    ).remove(identifier@)[k] by {
                        let a: int = row_position(after, k);
                        let a0: int = if a < at { a } else { a + 1 };
                        assert(after[a] == before[a0]);
                        lemma_table_row(after, a);
                        lemma_table_row(before, a0);
                    }
                    assert(table(after) =~= table(before).remove(identifier@));
                }
                *self = SessionIndex { rows };
                Some(session)
            },
            None => {
                assert(self@ =~= self@.remove(identifier@));
                None
            },
        }
    }

    /// The identifiers of all sessions registered before `cutoff`, each once.
    pub fn select_expired(&self, cutoff: u64) -> (identifiers: Vec<String>)
        ensures
            texts(identifiers@).no_duplicates(),
            texts(identifiers@).to_set() == registered_before(self@, cutoff as int),
    {
        proof {
            use_type_invariant(self);
        }
        let mut identifiers: Vec<String> = Vec::new();
        let ghost mut picked: Seq<int> = Seq::empty();
        let mut i: usize = 0;
        while i < self.rows.len()
            invariant
                i <= self.rows@.len(),
                distinct_identifiers(self.rows@),
                identifiers@.len() == picked.len(),
                forall|k: int|
                    0 <= k < picked.len() ==> {
                        &&& 0 <= #[trigger] picked[k] < i
                        &&& self.rows@[picked[k]].created_at < cutoff
                        &&& identifiers@[k]@ == self.rows@[picked[k]].identifier@
                    },
                forall|a: int, b: int|
                    0 <= a < b < picked.len() ==> #[trigger] picked[a] < #[trigger] picked[b],
                forall|j: int|
                    0 <= j < i && (#[trigger] self.rows@[j]).created_at < cutoff
                        ==> picked.contains(j),
            decreases self.rows@.len() - i,
        {
            if self.rows[i].created_at < cutoff {
                identifiers.push(self.rows[i].identifier.clone());
                proof {
                    let earlier = picked;
                    picked = picked.push(i as int);
                    assert(picked[earlier.len() as int] == i);
                    assert forall|j: int|
                        0 <= j < i + 1 && (#[trigger] self.rows@[j]).created_at
                            < cutoff implies picked.contains(j) by {
                        if j < i {
                            assert(earlier.contains(j));
                            let k: int = choose|k: int| 0 <= k < earlier.len() && earlier[k] == j;
                            assert(picked[k] == j);
                        }
                    }
                }
            }
            i += 1;
        }
        proof {
            let names = texts(identifiers@);
            let rows = self.rows@;
            assert forall|a: int, b: int| 0 <= a < names.len() && 0 <= b < names.len() && a
                != b implies names[a] != names[b] by {
                if a < b {
                    assert(picked[a] < picked[b]);
                } else {
                    assert(picked[b] < picked[a]);
                }
            }
            assert forall|id: Seq<char>| #[trigger]
                names.to_set().contains(id) <==> registered_before(
                    self@,
                    cutoff as int,
                ).contains(id) by {
                if names.contains(id) {
                    let k: int = choose|k: int| 0 <= k < names.len() && names[k] == id;
                    lemma_table_row(rows, picked[k]);
                }
                if self@.contains_key(id) && self@[id].created_at < cutoff {
                    let j: int = row_position(rows, id);
                    lemma_table_row(rows, j);
                    assert(picked.contains(j));
                    let k: int = choose|k: int| 0 <= k < picked.len() && picked[k] == j;
                    assert(names[k] == id);
                }
            }
            assert(names.to_set() =~= registered_before(self@, cutoff as int));
        }
        identifiers
    }
}

} // verus!
