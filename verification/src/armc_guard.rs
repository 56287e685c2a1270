use vstd::prelude::*;
use vstd::rwlock::RwLock;
use vstd::rwlock::WriteHandle;

use crate::cell::Core;
use crate::cell::Unlocked;

verus! {

/// Token for exclusive access to a handle's cell. While it exists, no
/// other guard can be obtained on the same cell. It holds the cell with
/// its writer flag set; `release` clears the flag and publishes the
/// guarded value. The lock is not released by merely dropping the guard:
/// call `release`, or every later acquisition will wait forever.
pub struct ArmcGuard<'a, T> {
    cell: Core<T>,
    handle: WriteHandle<'a, Core<T>, Unlocked>,
}

impl<'a, T> ArmcGuard<'a, T> {
    #[verifier::type_invariant]
    spec fn wf(self) -> bool {
        self.cell@.locked && self.cell@.readers == 0
    }

    /// The lock this guard took the cell from and will release it into.
    pub closed spec fn lock_of(&self) -> RwLock<Core<T>, Unlocked> {
        self.handle.rwlock()
    }

    pub(crate) fn new(cell: Core<T>, handle: WriteHandle<'a, Core<T>, Unlocked>) -> (guard: Self)
        requires
            cell@.locked,
            cell@.readers == 0,
        ensures
            guard.lock_of() == handle.rwlock(),
            guard@ == cell@.value,
    {
        ArmcGuard { cell, handle }
    }

    /// Read the guarded value.
    pub fn read(&self) -> (value: &T)
        ensures
            *value == self@,
    {
        self.cell.get()
    }

    /// Replace the guarded value; the change is published on release.
    pub fn write(&mut self, value: T)
        ensures
            final(self)@ == value,
            final(self).lock_of() == old(self).lock_of(),
    {
        proof {
            use_type_invariant(&*self);
        }
        self.cell.set(value);
    }

    /// Release the exclusive lock, returning the cell, at rest and holding
    /// the guarded value, to the lock it was taken from.
    pub fn release(self) {
        proof {
            use_type_invariant(&self);
        }
        let ArmcGuard { mut cell, handle } = self;
        cell.unlock();
        handle.release_write(cell);
    }
}

impl<'a, T> View for ArmcGuard<'a, T> {
    type V = T;

    closed spec fn view(&self) -> T {
        self.cell@.value
    }
}

} // verus!
