//! The session store: how sessions are created, fetched once, and reclaimed
//! when they have grown old.
//!
//! A store owns its index. Every operation takes the store by `&mut`, so two
//! operations never overlap: whichever runs first finishes before the other
//! sees the index. The laws at the end of this module say what follows for a
//! session that is fetched and reclaimed at about the same time.

use vstd::prelude::*;
use crate::error::MigrateError;
use crate::index::{Session, SessionIndex, SessionModel};
use crate::text::texts;

verus! {

/// For how many seconds a session that nobody fetches is kept.
pub const FILE_EXPIRATION_IN_SEC: u64 = 300;

/// How many seconds pass between two rounds of reclamation.
pub const CLEANUP_INTERVAL_IN_SEC: u64 = 15;

/// How a run of the conversion tool ended.
#[derive(Debug, PartialEq, Eq)]
pub struct ConversionOutcome {
    /// Whether the tool reported success.
    pub success: bool,
    /// What the tool printed as diagnostics.
    pub log: String,
}

/// One thing that is left to do outside the store for a session that has left
/// the index.
#[derive(Debug, PartialEq, Eq)]
pub enum Disposal {
    /// Delete the row under this identifier from durable storage.
    ForgetRow(String),
    /// Delete the directory at this path with all it holds.
    DeleteWorkspace(String),
}

/// A session is expired once more than [`FILE_EXPIRATION_IN_SEC`] seconds
/// have passed since it was registered.
pub open spec fn expired(session: SessionModel, now: u64) -> bool {
    session.created_at + FILE_EXPIRATION_IN_SEC < now
}

/// The identifiers of the sessions that are expired at `now`.
pub open spec fn expired_identifiers(index: Map<Seq<char>, SessionModel>, now: u64) -> Set<
    Seq<char>,
> {
    Set::new(
        |identifier: Seq<char>| index.contains_key(identifier) && expired(index[identifier], now),
    )
}

/// What a fetch finds under an identifier.
pub open spec fn found(index: Map<Seq<char>, SessionModel>, identifier: Seq<char>) -> Option<
    SessionModel,
> {
    if index.contains_key(identifier) {
        Some(index[identifier])
    } else {
        None
    }
}

/// The index after a session has been registered.
pub open spec fn after_register(
    index: Map<Seq<char>, SessionModel>,
    identifier: Seq<char>,
    session: SessionModel,
) -> Map<Seq<char>, SessionModel> {
    index.insert(identifier, session)
}

/// The index after a fetch of `identifier`.
pub open spec fn after_take(index: Map<Seq<char>, SessionModel>, identifier: Seq<char>) -> Map<
    Seq<char>,
    SessionModel,
> {
    index.remove(identifier)
}

/// The index after a round of reclamation at `now`.
pub open spec fn after_reclaim(index: Map<Seq<char>, SessionModel>, now: u64) -> Map<
    Seq<char>,
    SessionModel,
> {
    index.remove_keys(expired_identifiers(index, now))
}

/// The identifiers of a list of rows.
pub open spec fn identifiers(rows: Seq<Session>) -> Seq<Seq<char>> {
    rows.map_values(|s: Session| s.identifier@)
}

/// The rows are the sessions that `index` holds under `wanted`, each once.
pub open spec fn rows_of(
    rows: Seq<Session>,
    index: Map<Seq<char>, SessionModel>,
    wanted: Set<Seq<char>>,
) -> bool {
    &&& identifiers(rows).no_duplicates()
    &&& identifiers(rows).to_set() == wanted
    &&& forall|i: int|
        0 <= i < rows.len() ==> index.contains_key((#[trigger] rows[i]).identifier@) && rows[i]@
            == index[rows[i].identifier@]
}

/// An identifier as this store issues it: 36 characters, five groups of 8, 4,
/// 4, 4 and 12 lower-case hexadecimal digits with a hyphen between them. The
/// third group begins with `4` and the fourth with `8`, `9`, `a` or `b`, which
/// marks the identifier as a random one.
pub open spec fn is_identifier(text: Seq<char>) -> bool {
    &&& text.len() == 36
    &&& forall|i: int|
        0 <= i < 36 ==> if i == 8 || i == 13 || i == 18 || i == 23 {
            #[trigger] text[i] == '-'
        } else {
            ('0' <= text[i] <= '9') || ('a' <= text[i] <= 'f')
        }
    &&& text[14] == '4'
    &&& text[19] == '8' || text[19] == '9' || text[19] == 'a' || text[19] == 'b'
}

/// Some session is registered under a text of the shape of an identifier.
/// Only then can a freshly drawn identifier be in use already.
pub open spec fn identifier_in_use(index: Map<Seq<char>, SessionModel>) -> bool {
    exists|identifier: Seq<char>|
        is_identifier(identifier) && #[trigger] index.contains_key(identifier)
}

/// `uuid::Uuid::new_v4` draws a random identifier of version 4, and its
/// `to_string` prints it in the hyphenated lower-case form. Two calls may give
/// different results; only the shape of the text is promised. The draw
/// panics where the operating system hands out no random bytes.
#[verifier::external_body]
fn fresh_identifier() -> (identifier: String)
    ensures
        is_identifier(identifier@),
{
    uuid::Uuid::new_v4().to_string()
}

/// What is left to do for a session that has left the index, in the order in
/// which it is done: the row goes first and the directory second, so that a
/// crash in between leaves a directory without a row and never a row without
/// a directory.
pub fn disposal(session: &Session) -> (steps: Vec<Disposal>)
    ensures
        steps@.len() == 2,
        steps@[0] matches Disposal::ForgetRow(identifier) && identifier@ == session.identifier@,
        steps@[1] matches Disposal::DeleteWorkspace(path) && path@ == session.path@,
{
    let mut steps: Vec<Disposal> = Vec::new();
    steps.push(Disposal::ForgetRow(session.identifier.clone()));
    steps.push(Disposal::DeleteWorkspace(session.path.clone()));
    steps
}

/// The session store.
pub struct SessionStore {
    index: SessionIndex,
}

impl View for SessionStore {
    type V = Map<Seq<char>, SessionModel>;

    closed spec fn view(&self) -> Map<Seq<char>, SessionModel> {
        self.index@
    }
}

impl SessionStore {
    /// A store without sessions.
    pub fn new() -> (store: SessionStore)
        ensures
            store@ == Map::<Seq<char>, SessionModel>::empty(),
    {
        SessionStore { index: SessionIndex::new() }
    }

    /// A store over an index that already holds sessions.
    pub fn with_index(index: SessionIndex) -> (store: SessionStore)
        ensures
            store@ == index@,
    {
        SessionStore { index }
    }

    /// The index of the store.
    pub fn index(&self) -> (index: &SessionIndex)
        ensures
            index@ == self@,
    {
        &self.index
    }

    /// Registers a finished conversion under `identifier`, with `now` as its
    /// time of creation, and returns the identifier. An identifier that is
    /// already in use is refused and the store stays as it was.
    pub fn register(
        &mut self,
        identifier: String,
        workspace: String,
        log: String,
        now: u64,
    ) -> (result: Result<String, MigrateError>)
        ensures
            match result {
                Ok(issued) => {
                    &&& issued@ == identifier@
                    &&& !old(self)@.contains_key(identifier@)
                    &&& final(self)@ == after_register(
                        old(self)@,
                        identifier@,
                        SessionModel { path: workspace@, log: log@, created_at: now },
                    )
                },
                Err(e) => {
                    &&& old(self)@.contains_key(identifier@)
                    &&& final(self)@ == old(self)@
                    &&& e is ServerError
                },
            },
    {
        let issued = identifier.clone();
        match self.index.insert(identifier, workspace, log, now) {
            Ok(()) => Ok(issued),
            Err(e) => Err(e),
        }
    }

    /// Ends the creation of a session once the conversion tool has run on the
    /// files in `workspace`.
    ///
    /// A failed conversion registers nothing and is reported with the tool's
    /// diagnostics, unchanged. A successful one is registered under a fresh
    /// random identifier, which is returned; should that identifier be in use
    /// already, nothing is registered and a server fault is reported. That
    /// is the only way in which a successful conversion is not registered:
    /// on a store that holds no identifier, creation succeeds.
    pub fn create(&mut self, workspace: String, outcome: ConversionOutcome, now: u64) -> (result:
        Result<String, MigrateError>)
        ensures
            match result {
                Ok(issued) => {
                    &&& outcome.success
                    &&& is_identifier(issued@)
                    &&& !old(self)@.contains_key(issued@)
                    &&& final(self)@ == after_register(
                        old(self)@,
                        issued@,
                        SessionModel { path: workspace@, log: outcome.log@, created_at: now },
                    )
                },
                Err(e) => {
                    &&& final(self)@ == old(self)@
                    &&& if outcome.success {
                        e is ServerError && identifier_in_use(old(self)@)
                    } else {
                        e matches MigrateError::MigrationError(log) && log@ == outcome.log@
                    }
                },
            },
    {
        if !outcome.success {
            return Err(MigrateError::MigrationError(outcome.log));
        }
        let identifier = fresh_identifier();
        self.register(identifier, workspace, outcome.log, now)
    }

    /// Ends a creation once the caller has tried to write the new session to
    /// durable storage. Where that went well the identifier is handed on.
    /// Where it failed, with `detail` as the reason, the session is forgotten
    /// again and the failure is reported as a fault of the server.
    pub fn confirm(&mut self, identifier: String, stored: Result<(), String>) -> (result: Result<
        String,
        MigrateError,
    >)
        ensures
            match stored {
                Ok(()) => result == Ok::<String, MigrateError>(identifier) && final(self)@ == old(
                    self,
                )@,
                Err(detail) => {
                    &&& result == Err::<String, MigrateError>(MigrateError::ServerError(detail))
                    &&& final(self)@ == after_take(old(self)@, identifier@)
                },
            },
    {
        match stored {
            Ok(()) => Ok(identifier),
            Err(detail) => {
                let _ = self.index.remove(identifier.as_str());
                Err(MigrateError::ServerError(detail))
            },
        }
    }

    /// Fetches a session and forgets it: the row is removed from the index
    /// and handed to the caller, who reads the session's files and then
    /// disposes of the session as [`disposal`] says. The caller learns the
    /// directory only here, so no directory is deleted while the index still
    /// points at it. An identifier without a session is reported as not found.
    pub fn take(&mut self, identifier: &str) -> (result: Result<Session, MigrateError>)
        ensures
            final(self)@ == after_take(old(self)@, identifier@),
            match result {
                Ok(session) => {
                    &&& found(old(self)@, identifier@) == Some(session@)
                    &&& session.identifier@ == identifier@
                },
                Err(e) => found(old(self)@, identifier@) is None && e is NotFound,
            },
    {
        match self.index.remove(identifier) {
            Some(session) => Ok(session),
            None => Err(MigrateError::NotFound),
        }
    }

    /// Removes every session that is expired at `now` and hands the removed
    /// rows to the caller, who disposes of each as [`disposal`] says. The
    /// rows come in no particular order, each once.
    pub fn reclaim_expired(&mut self, now: u64) -> (reclaimed: Vec<Session>)
        ensures
            final(self)@ == after_reclaim(old(self)@, now),
            rows_of(reclaimed@, old(self)@, expired_identifiers(old(self)@, now)),
    {
        let cutoff: u64 = now.saturating_sub(FILE_EXPIRATION_IN_SEC);
        let due = self.index.select_expired(cutoff);
        let ghost before = self@;
        let ghost names = texts(due@);
        assert(names.to_set() =~= expired_identifiers(before, now));
        let mut reclaimed: Vec<Session> = Vec::new();
        let mut k: usize = 0;
        assert(before.remove_keys(names.subrange(0, 0).to_set()) =~= before);
        while k < due.len()
            invariant
                k <= due@.len(),
                names == texts(due@),
                names.no_duplicates(),
                names.to_set() == expired_identifiers(before, now),
                self@ == before.remove_keys(names.subrange(0, k as int).to_set()),
                reclaimed@.len() == k,
                forall|j: int|
                    0 <= j < k ==> {
                        &&& (#[trigger] reclaimed@[j]).identifier@ == names[j]
                        &&& reclaimed@[j]@ == before[names[j]]
                    },
            decreases due@.len() - k,
        {
            let ghost name = names[k as int];
            let ghost head = names.subrange(0, k as int);
            let ghost longer = names.subrange(0, k + 1);
            proof {
                assert(names.to_set().contains(name));
                assert(!head.contains(name)) by {
                    if head.contains(name) {
                        let j: int = choose|j: int| 0 <= j < head.len() && head[j] == name;
                        assert(names[j] == names[k as int]);
                    }
                }
                assert(longer.to_set() =~= head.to_set().insert(name)) by {
                    assert forall|id: Seq<char>| #[trigger]
                        longer.to_set().contains(id) <==> head.to_set().insert(name).contains(
                            id,
                        ) by {
                        if longer.contains(id) {
                            let j: int = choose|j: int| 0 <= j < longer.len() && longer[j] == id;
                            if j < k {
                                assert(head[j] == id);
                            }
                        }
                        if head.contains(id) {
                            let j: int = choose|j: int| 0 <= j < head.len() && head[j] == id;
                            assert(longer[j] == id);
                        }
                        if id == name {
                            assert(longer[k as int] == id);
                        }
                    }
                }
                assert(before.remove_keys(head.to_set()).remove(name) =~= before.remove_keys(
                    head.to_set().insert(name),
                ));
            }
            match self.index.remove(due[k].as_str()) {
                Some(session) => {
                    reclaimed.push(session);
                },
                None => {
                    assert(false);
                },
            }
            k += 1;
        }
        proof {
            assert(names.subrange(0, k as int) =~= names);
            assert(identifiers(reclaimed@) =~= names);
            assert forall|i: int| 0 <= i < reclaimed@.len() implies before.contains_key(
                (#[trigger] reclaimed@[i]).identifier@,
            ) && reclaimed@[i]@ == before[reclaimed@[i].identifier@] by {
                assert(names.to_set().contains(names[i]));
            }
        }
        reclaimed
    }
}

/// A store without sessions holds no identifier, so that the creation of a
/// session from a successful conversion cannot fail on it.
pub proof fn lemma_no_identifier_in_use_in_an_empty_index()
    ensures
        !identifier_in_use(Map::<Seq<char>, SessionModel>::empty()),
{
}

/// A session that was created can be fetched exactly once: the first fetch
/// finds what was registered and leaves the index as it was before the
/// creation; a second fetch finds nothing.
pub proof fn lemma_created_session_is_fetched_once(
    index: Map<Seq<char>, SessionModel>,
    identifier: Seq<char>,
    session: SessionModel,
)
    requires
        !index.contains_key(identifier),
    ensures
        found(after_register(index, identifier, session), identifier) == Some(session),
        after_take(after_register(index, identifier, session), identifier) == index,
        found(after_take(after_register(index, identifier, session), identifier), identifier)
            is None,
{
    assert(index.insert(identifier, session).remove(identifier) =~= index);
}

/// A round of reclamation removes exactly the expired sessions: an expired
/// session is among those handed out for deletion and cannot be fetched any
/// more; every other session stays as it is.
pub proof fn lemma_reclaim_removes_the_expired(
    index: Map<Seq<char>, SessionModel>,
    identifier: Seq<char>,
    now: u64,
)
    ensures
        index.contains_key(identifier) && expired(index[identifier], now) ==> {
            &&& expired_identifiers(index, now).contains(identifier)
            &&& found(after_reclaim(index, now), identifier) is None
        },
        !(index.contains_key(identifier) && expired(index[identifier], now)) ==> found(
            after_reclaim(index, now),
            identifier,
        ) == found(index, identifier),
{
}

/// A fetch and a round of reclamation that meet on one expired session do not
/// both get it, and one of them does. If the fetch runs first it finds the
/// session, and no later reclamation sees it; if the reclamation runs first
/// it removes the session and the fetch finds nothing.
pub proof fn lemma_fetch_and_reclaim_exclude_each_other(
    index: Map<Seq<char>, SessionModel>,
    identifier: Seq<char>,
    now: u64,
)
    requires
        index.contains_key(identifier),
        expired(index[identifier], now),
    ensures
        found(index, identifier) is Some,
        forall|later: u64| !(#[trigger] expired_identifiers(
            after_take(index, identifier),
            later,
        )).contains(identifier),
        expired_identifiers(index, now).contains(identifier),
        found(after_reclaim(index, now), identifier) is None,
{
}

} // verus!
