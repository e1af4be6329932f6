//! The registry behind a reader-writer lock, for use from many tasks at once.
//!
//! Every operation here takes the lock, runs one operation of
//! [`Registry`] and lets the lock go before it returns, so no caller ever
//! holds the lock across its own work. What another task does between two
//! calls is unknown, so the contracts speak only of the snapshot that a call
//! returns: it was taken under the same write lock as the change, and so
//! shows that change.

use vstd::prelude::*;
use crate::address::Address;
use crate::node::{Node, NodeId, RegisterTime};
use crate::registry::{holds_address, well_keyed, Registry, Snapshot};

verus! {

/// `parking_lot::RawRwLock`, the lock word of `parking_lot::RwLock`. Nothing
/// is claimed of it.
#[verifier::external_type_specification]
#[verifier::external_body]
pub struct ExRawRwLock(parking_lot::RawRwLock);

/// `lock_api::RwLock`, of which `parking_lot::RwLock<T>` is the instance
/// with `parking_lot::RawRwLock`. Nothing is claimed of what it holds.
#[verifier::external_type_specification]
#[verifier::external_body]
#[verifier::reject_recursive_types(R)]
#[verifier::reject_recursive_types(T)]
pub struct ExRwLock<R, T: ?Sized>(parking_lot::lock_api::RwLock<R, T>);

/// Shared access to the registry, held until this value is dropped. It holds
/// a `parking_lot::RwLockReadGuard`.
#[verifier::external_body]
struct ReadGuard<'a> {
    guard: parking_lot::RwLockReadGuard<'a, Registry>,
}

/// Exclusive access to the registry, held until this value is dropped. It
/// holds a `parking_lot::RwLockWriteGuard`.
#[verifier::external_body]
struct WriteGuard<'a> {
    guard: parking_lot::RwLockWriteGuard<'a, Registry>,
}

/// `parking_lot::RwLock::new`: a lock around `registry`. Nothing is claimed
/// of the result.
#[verifier::external_body]
fn lock_new(registry: Registry) -> (lock: parking_lot::RwLock<Registry>) {
    parking_lot::RwLock::new(registry)
}

/// `parking_lot::RwLock::read`: waits until no writer holds the lock, then
/// returns shared access. Nothing is claimed of what the lock holds at that
/// moment. It may wait for ever if the calling thread holds a guard of the
/// same lock; this module never calls it with one alive.
#[verifier::external_body]
fn lock_read<'a>(lock: &'a parking_lot::RwLock<Registry>) -> (guard: ReadGuard<'a>) {
    ReadGuard { guard: lock.read() }
}

/// `parking_lot::RwLock::write`: waits until nobody else holds the lock,
/// then returns exclusive access. Nothing is claimed of what the lock holds
/// at that moment. It waits for ever if the calling thread holds a guard of
/// the same lock; this module never calls it with one alive.
#[verifier::external_body]
fn lock_write<'a>(lock: &'a parking_lot::RwLock<Registry>) -> (guard: WriteGuard<'a>) {
    WriteGuard { guard: lock.write() }
}

/// `Deref::deref` of `parking_lot::RwLockReadGuard`: the registry that the
/// guard gives access to. Nothing is claimed of its contents.
#[verifier::external_body]
fn read_access<'a, 'b>(guard: &'b ReadGuard<'a>) -> (registry: &'b Registry) {
    &*guard.guard
}

/// `DerefMut::deref_mut` of `parking_lot::RwLockWriteGuard`: the registry
/// that the guard gives access to, for writing. Nothing is claimed of its
/// contents.
#[verifier::external_body]
fn write_access<'a, 'b>(guard: &'b mut WriteGuard<'a>) -> (registry: &'b mut Registry) {
    &mut *guard.guard
}

/// A registry that many tasks share by reference.
pub struct SharedRegistry {
    lock: parking_lot::RwLock<Registry>,
}

impl SharedRegistry {
    /// An empty shared registry.
    pub fn new() -> SharedRegistry {
        SharedRegistry { lock: lock_new(Registry::new()) }
    }

    /// A shared registry that starts out as `registry`.
    pub fn from_registry(registry: Registry) -> SharedRegistry {
        SharedRegistry { lock: lock_new(registry) }
    }

    /// Registers `node` under the write lock and returns the snapshot to
    /// publish, taken under the same lock: it shows `node` on file.
    pub fn register(&self, node: Node) -> (snapshot: Snapshot)
        ensures
            snapshot@.contains_key(node.id),
            snapshot@[node.id] == node@,
            well_keyed(snapshot@),
    {
        let mut guard = lock_write(&self.lock);
        let registry = write_access(&mut guard);
        registry.register(node)
    }

    /// Whether a heartbeat of `id` from `addr` brings news, asked under the
    /// read lock.
    fn brings_news(&self, id: NodeId, addr: Address) -> bool {
        let guard = lock_read(&self.lock);
        let registry = read_access(&guard);
        registry.address_differs(id, addr)
    }

    /// Handles a heartbeat of `id` seen to come from `addr`.
    ///
    /// The common case, a node that repeats the address on file, is settled
    /// under the read lock and returns `None`, as does an unknown `id`. Only
    /// where the address is new is the write lock taken; if `id` is still
    /// registered by then, its record takes the address and the snapshot to
    /// publish is returned: it shows `id` at `addr`.
    pub fn heartbeat(&self, id: NodeId, addr: Address) -> (published: Option<Snapshot>)
        ensures
            published matches Some(snapshot) ==> holds_address(snapshot@, id, addr) && well_keyed(
                snapshot@,
            ),
    {
        if self.brings_news(id, addr) {
            let mut guard = lock_write(&self.lock);
            let registry = write_access(&mut guard);
            registry.refresh_address(id, addr)
        } else {
            None
        }
    }

    /// Tears down the registration `register_time` of `id` under the write
    /// lock. Returns the snapshot to publish if the record was removed: it
    /// shows `id` gone. Where the record stems from another registration,
    /// it stays and `None` is returned.
    pub fn deregister(&self, id: NodeId, register_time: RegisterTime) -> (published: Option<
        Snapshot,
    >)
        ensures
            published matches Some(snapshot) ==> !snapshot@.contains_key(id) && well_keyed(
                snapshot@,
            ),
    {
        let mut guard = lock_write(&self.lock);
        let registry = write_access(&mut guard);
        registry.deregister(id, register_time)
    }

    /// A copy of the record of `id`, read under the read lock.
    pub fn get(&self, id: NodeId) -> (found: Option<Node>)
        ensures
            found matches Some(node) ==> node.id == id,
    {
        let guard = lock_read(&self.lock);
        let registry = read_access(&guard);
        match registry.get(id) {
            Some(node) => Some(node.clone()),
            None => None,
        }
    }

    /// A copy of the registry, taken under the read lock.
    pub fn snapshot(&self) -> (snapshot: Snapshot)
        ensures
            well_keyed(snapshot@),
    {
        let guard = lock_read(&self.lock);
        let registry = read_access(&guard);
        registry.snapshot()
    }
}

} // verus!
