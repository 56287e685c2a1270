//! A shared, mutually-exclusive data handle: a reference-counted pointer
//! to a cell that can be locked for exclusive mutation or for concurrent
//! read access. Handles compare by identity, not by value, and the last
//! surviving handle can consume the cell and recover the value. The cell
//! itself is a verified state machine ([`cell::Core`]); between guards it
//! rests inside a verified reader-writer spinlock, which enforces the
//! exclusion that the state machine describes.

pub mod armc_guard;
pub mod armc_ref_guard;
pub mod cell;

use std::sync::Arc;
use std::sync::Mutex;

use vstd::prelude::*;
use vstd::rwlock::RwLock;
use vstd::std_specs::cmp::PartialEqSpec;

use crate::armc_guard::ArmcGuard;
use crate::armc_ref_guard::ArmcRefGuard;
use crate::cell::Core;
use crate::cell::Unlocked;

verus! {

/// Relies on std's Arc::as_ptr: yields the address of the shared
/// allocation, which is stable for the allocation's lifetime. Captured
/// once at construction as a handle's identity token.
#[verifier::external_body]
fn get_address<T>(shared: &Arc<T>) -> usize {
    Arc::as_ptr(shared) as usize
}

/// Relies on std's Arc clone: the returned handle refers to the same
/// allocation, so it holds the same value.
#[verifier::external_body]
fn clone_arc<T>(shared: &Arc<T>) -> (out: Arc<T>)
    ensures
        out == *shared,
{
    Arc::clone(shared)
}

/// Relies on std's Arc::try_unwrap: when the argument is the last Arc for
/// its allocation the inner value is returned; otherwise the same Arc
/// comes back unchanged.
#[verifier::external_body]
fn try_unwrap_arc<T>(shared: Arc<T>) -> (out: Result<T, Arc<T>>)
    ensures
        match out {
            Ok(value) => value == shared,
            Err(same) => same == shared,
        },
{
    Arc::try_unwrap(shared)
}

/// Declares std's Mutex, which is opaque to the verifier, so that it can
/// stand in the conversion signatures below.
#[verifier::external_type_specification]
#[verifier::external_body]
#[verifier::reject_recursive_types(T)]
pub struct ExMutex<T: ?Sized>(Mutex<T>);

/// Relies on std's Mutex::new: wraps the value in a fresh mutex.
#[verifier::external_body]
fn new_mutex<T>(value: T) -> Mutex<T> {
    Mutex::new(value)
}

/// A clonable owner of one lock-protected cell. Clones share the cell:
/// a change made under one clone's exclusive guard is seen through every
/// other. Equality between handles is identity, not value, equality: two
/// handles are equal exactly when they were cloned from one another.
pub struct Armc<T> {
    ptr: usize,
    core: Arc<RwLock<Core<T>, Unlocked>>,
}

impl<T> Armc<T> {
    /// The identity token captured at construction and kept by clones.
    pub closed spec fn id(&self) -> usize {
        self.ptr
    }

    /// The lock-protected cell this handle shares with its clones.
    pub closed spec fn cell_lock(&self) -> RwLock<Core<T>, Unlocked> {
        *self.core
    }

    /// Create a handle owning a fresh cell that holds `data`. The cell
    /// starts at rest, and every value ever stored back into it is at
    /// rest again, so any later acquisition finds it available.
    pub fn new(data: T) -> Self {
        let core = Core::new(data);
        let lock = RwLock::new(core, Ghost(Unlocked));
        let shared = Arc::new(lock);
        let ptr = get_address(&shared);
        Armc { ptr, core: shared }
    }

    /// Acquire the exclusive lock on the shared cell, waiting until no
    /// other guard is outstanding. The guard releases into this handle's
    /// own lock, so clones of the handle see what it publishes.
    pub fn lock(&self) -> (guard: ArmcGuard<'_, T>)
        ensures
            guard.lock_of() == self.cell_lock(),
    {
        let (mut core, handle) = self.core.acquire_write();
        core.lock();
        ArmcGuard::new(core, handle)
    }

    /// Acquire a shared read claim on the cell, waiting while an
    /// exclusive guard is outstanding. The cell the readers observe is at
    /// rest: no writer flag is set while any read guard exists.
    pub fn lock_ref(&self) -> (guard: ArmcRefGuard<'_, T>)
        ensures
            guard.lock_of() == self.cell_lock(),
            guard.cell().at_rest(),
    {
        let handle = self.core.acquire_read();
        ArmcRefGuard::new(handle)
    }

    /// Recover the stored value. Succeeds exactly when this is the last
    /// surviving handle for the cell; otherwise the very handle that was
    /// passed in comes back unchanged, with the same identity and the
    /// same shared cell, and nothing has been modified.
    pub fn try_unwrap(a: Self) -> (out: Result<T, Self>)
        ensures
            out matches Err(handle) ==> handle == a,
    {
        let Armc { ptr, core } = a;
        match try_unwrap_arc(core) {
            Ok(lock) => Ok(Core::unwrap(lock.into_inner())),
            Err(same) => Err(Armc { ptr, core: same }),
        }
    }
}

impl<T: Clone> Armc<T> {
    /// Duplicate the current value into a fresh standard shared pointer.
    /// The value is duplicated logically, through its own clone, never by
    /// copying memory, which is why the value type must support cloning.
    pub fn into_arc(self) -> (out: Arc<T>)
        ensures
            exists|source: T| #[trigger] cloned::<T>(source, *out),
    {
        let guard = self.lock_ref();
        let current = guard.read();
        let ghost source = *current;
        let value = current.clone();
        guard.release();
        let out = Arc::new(value);
        proof {
            assert(cloned::<T>(source, *out));
        }
        out
    }

    /// Duplicate the current value into a fresh standard shared pointer
    /// wrapping a standard mutex, under the same cloning rule as
    /// `into_arc`.
    pub fn into_arc_mutex(self) -> Arc<Mutex<T>> {
        let guard = self.lock_ref();
        let value = guard.read().clone();
        guard.release();
        Arc::new(new_mutex(value))
    }
}

impl<T> Clone for Armc<T> {
    /// A clone shares the same cell and carries the same identity token.
    fn clone(&self) -> (other: Self)
        ensures
            other == *self,
    {
        Armc { ptr: self.ptr, core: clone_arc(&self.core) }
    }
}

impl<T> PartialEq for Armc<T> {
    fn eq(&self, other: &Self) -> bool {
        self.ptr == other.ptr
    }
}

impl<T> vstd::std_specs::cmp::PartialEqSpecImpl for Armc<T> {
    open spec fn obeys_eq_spec() -> bool {
        true
    }

    open spec fn eq_spec(&self, other: &Self) -> bool {
        self.id() == other.id()
    }
}

/// Law: a handle produced as clones are, equal as a value to the
/// original, is equal to it under handle equality and shares its cell:
/// cloning preserves the identity token, handle equality compares nothing
/// else, and guards taken through either handle release into one lock.
pub proof fn law_clones_are_equal<T>(original: Armc<T>, copy: Armc<T>)
    requires
        copy == original,
    ensures
        copy.eq_spec(&original),
        copy.cell_lock() == original.cell_lock(),
{
}

} // verus!
