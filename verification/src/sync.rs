//! Locks and condition variables of the parking_lot crate.
use vstd::prelude::*;
use std::collections::VecDeque;
use ort::session::Session;
use crate::runtime::LoadedSession;

verus! {

/// A mutual-exclusion lock of the parking_lot crate.
#[verifier::external_type_specification]
#[verifier::external_body]
#[verifier::reject_recursive_types(R)]
#[verifier::reject_recursive_types(T)]
pub struct ExLockMutex<R, T: ?Sized>(parking_lot::lock_api::Mutex<R, T>);

/// The raw lock under parking_lot's `Mutex`.
#[verifier::external_type_specification]
#[verifier::external_body]
pub struct ExRawMutex(parking_lot::RawMutex);

/// A condition variable of the parking_lot crate.
#[verifier::external_type_specification]
#[verifier::external_body]
pub struct ExCondvar(parking_lot::Condvar);

/// What `parking_lot::Mutex::new` returns for a session: a lock created holding it.
pub uninterp spec fn session_lock(session: Session) -> parking_lot::Mutex<Session>;

/// What `parking_lot::Mutex::new` returns for a pool of sessions: a lock created
/// holding it.
pub uninterp spec fn pool_lock(pool: VecDeque<LoadedSession>) -> parking_lot::Mutex<VecDeque<LoadedSession>>;

/// Calls `parking_lot::Mutex::new` on a session. Claimed: the lock is `session_lock`
/// of the session, the lock created holding it. (A name cannot be generic, so each
/// locked type has its own name and wrapper.)
#[verifier::external_body]
pub(crate) fn new_session_lock(session: Session) -> (r: parking_lot::Mutex<Session>)
    ensures
        r == session_lock(session),
{
    parking_lot::Mutex::new(session)
}

/// Calls `parking_lot::Mutex::new` on a pool of sessions. Claimed: the lock is
/// `pool_lock` of the pool, the lock created holding it.
#[verifier::external_body]
pub(crate) fn new_pool_lock(pool: VecDeque<LoadedSession>) -> (r: parking_lot::Mutex<VecDeque<LoadedSession>>)
    ensures
        r == pool_lock(pool),
{
    parking_lot::Mutex::new(pool)
}

/// Calls `parking_lot::Condvar::new`.
#[verifier::external_body]
pub(crate) fn new_condvar() -> (r: parking_lot::Condvar) {
    parking_lot::Condvar::new()
}

} // verus!
