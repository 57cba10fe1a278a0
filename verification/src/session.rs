//! Session information.
//!
//! Initially created from database client and used through server, sql-processor, and storage-engine.
//!
//! A session holds these information:
//!
//! - Open database (0/1)
//! - Beginning transaction (0/1 if a database is open; 0 if any database isn't open)
//!
//! Only storage-engine has direct access to database and transaction.
//! Other components create/modify/get database and transaction through access methods' call with session.
//!
//! Note that session is free from physical connection implementation.
//! Therefore, for example, client-server's transport is independent from Session and can be any of TCP,
//! direct method call, and so on.
use vstd::prelude::*;
use vstd::std_specs::convert::FromSpecImpl;

use crate::names::DatabaseName;
use crate::random::random_u64;

verus! {

/// Session ID.
#[derive(Copy, Clone, Eq, PartialEq, Ord, PartialOrd, Hash, Debug, Structural)]
pub struct SessionId(u64);

impl View for SessionId {
    type V = u64;

    closed spec fn view(&self) -> u64 {
        self.0
    }
}

impl SessionId {
    /// Generate a random session ID.
    pub fn new() -> Self {
        Self(random_u64())
    }

    /// The number behind this ID.
    pub fn as_u64(&self) -> (r: u64)
        ensures
            r == self@,
    {
        self.0
    }
}

impl Default for SessionId {
    /// Generate a random session ID.
    fn default() -> Self {
        Self::new()
    }
}

/// Session without open database.
///
/// Only limited SQL commands (`CREATE DATABASE`, for example) are executed via this type of session.
#[derive(Hash, Debug)]
pub struct SessionWithoutDb {
    id: SessionId,
}

/// Session with open database.
///
/// This session means there is no open transaction.
/// Only limited SQLs are valid for this type of session (auto-commit is work for query-processor.
/// It must create this kind of session to realize auto-commit).
#[derive(Hash, Debug)]
pub struct SessionWithDb {
    id: SessionId,
    db: DatabaseName,
}

/// Session with open transaction.
///
/// Most SQL commands are executed via this type of session.
#[derive(Hash, Debug)]
pub struct SessionWithTx {
    id: SessionId,
    db: DatabaseName,
}

/// Session types.
#[derive(Hash, Debug)]
pub enum Session {
    /// session without open database
    WithoutDb(SessionWithoutDb),
    /// session with open database
    WithDb(SessionWithDb),
    /// session with open transaction
    WithTx(SessionWithTx),
}

impl Default for SessionWithoutDb {
    /// A new session with a random ID.
    fn default() -> Self {
        Self { id: SessionId::new() }
    }
}

impl SessionWithoutDb {
    /// The ID of this session.
    pub closed spec fn spec_id(&self) -> SessionId {
        self.id
    }

    /// Get session ID.
    pub fn get_id(&self) -> (r: &SessionId)
        ensures
            *r == self.spec_id(),
    {
        &self.id
    }

    /// Upgrade to `SessionWithDb`: the same session, with `db` open.
    pub fn upgrade(self, db: DatabaseName) -> (r: SessionWithDb)
        ensures
            r.spec_id() == self.spec_id(),
            r.spec_db() == db@,
    {
        SessionWithDb::new(self.id, db)
    }
}

impl SessionWithDb {
    /// The ID of this session.
    pub closed spec fn spec_id(&self) -> SessionId {
        self.id
    }

    /// The name of the open database.
    pub closed spec fn spec_db(&self) -> Seq<char> {
        self.db@
    }

    /// Construct a session with open database.
    fn new(sid: SessionId, db: DatabaseName) -> (r: Self)
        ensures
            r.spec_id() == sid,
            r.spec_db() == db@,
    {
        Self { id: sid, db }
    }

    /// Upgrade to `SessionWithTx`: the same session and database, with a transaction open.
    pub fn upgrade(self) -> (r: SessionWithTx)
        ensures
            r.spec_id() == self.spec_id(),
            r.spec_db() == self.spec_db(),
    {
        SessionWithTx::new(self.id, self.db)
    }

    /// Get session ID.
    pub fn get_id(&self) -> (r: &SessionId)
        ensures
            *r == self.spec_id(),
    {
        &self.id
    }

    /// Get database name.
    pub fn database_name(&self) -> (r: &DatabaseName)
        ensures
            r@ == self.spec_db(),
    {
        &self.db
    }
}

impl SessionWithTx {
    /// The ID of this session.
    pub closed spec fn spec_id(&self) -> SessionId {
        self.id
    }

    /// The name of the open database.
    pub closed spec fn spec_db(&self) -> Seq<char> {
        self.db@
    }

    /// Construct a session with open transaction.
    fn new(sid: SessionId, db: DatabaseName) -> (r: Self)
        ensures
            r.spec_id() == sid,
            r.spec_db() == db@,
    {
        Self { id: sid, db }
    }

    /// Get session ID.
    pub fn get_id(&self) -> (r: &SessionId)
        ensures
            *r == self.spec_id(),
    {
        &self.id
    }

    /// Get database name.
    pub fn get_db_name(&self) -> (r: &DatabaseName)
        ensures
            r@ == self.spec_db(),
    {
        &self.db
    }
}

impl Session {
    /// The ID of this session, whatever its state.
    pub open spec fn spec_id(&self) -> SessionId {
        match self {
            Session::WithoutDb(s) => s.spec_id(),
            Session::WithDb(s) => s.spec_id(),
            Session::WithTx(s) => s.spec_id(),
        }
    }

    /// Get session ID.
    pub fn get_id(&self) -> (r: &SessionId)
        ensures
            *r == self.spec_id(),
    {
        match self {
            Session::WithoutDb(s) => s.get_id(),
            Session::WithDb(s) => s.get_id(),
            Session::WithTx(s) => s.get_id(),
        }
    }
}

impl From<SessionWithoutDb> for Session {
    fn from(s: SessionWithoutDb) -> (r: Self) {
        Session::WithoutDb(s)
    }
}

impl FromSpecImpl<SessionWithoutDb> for Session {
    open spec fn obeys_from_spec() -> bool {
        true
    }

    open spec fn from_spec(s: SessionWithoutDb) -> Self {
        Session::WithoutDb(s)
    }
}

impl From<SessionWithDb> for Session {
    fn from(s: SessionWithDb) -> (r: Self) {
        Session::WithDb(s)
    }
}

impl FromSpecImpl<SessionWithDb> for Session {
    open spec fn obeys_from_spec() -> bool {
        true
    }

    open spec fn from_spec(s: SessionWithDb) -> Self {
        Session::WithDb(s)
    }
}

impl From<SessionWithTx> for Session {
    fn from(s: SessionWithTx) -> (r: Self) {
        Session::WithTx(s)
    }
}

impl FromSpecImpl<SessionWithTx> for Session {
    open spec fn obeys_from_spec() -> bool {
        true
    }

    open spec fn from_spec(s: SessionWithTx) -> Self {
        Session::WithTx(s)
    }
}

/// Law: a session keeps its ID when it opens a database and then a transaction.
pub proof fn lemma_upgrades_keep_id(s: SessionWithoutDb, with_db: SessionWithDb, with_tx: SessionWithTx)
    requires
        with_db.spec_id() == s.spec_id(),
        with_tx.spec_id() == with_db.spec_id(),
    ensures
        Session::WithTx(with_tx).spec_id() == Session::WithoutDb(s).spec_id(),
{
}

} // verus!
