use vstd::prelude::*;
use vstd::rwlock::ReadHandle;
use vstd::rwlock::RwLock;

use crate::cell::CellState;
use crate::cell::Core;
use crate::cell::Unlocked;

verus! {

/// Token for shared read access to a handle's cell. Any number of these
/// may coexist, and none may coexist with an exclusive guard. The lock is
/// not released by merely dropping the guard: call `release`, or every
/// later exclusive acquisition will wait forever.
pub struct ArmcRefGuard<'a, T> {
    handle: ReadHandle<'a, Core<T>, Unlocked>,
}

impl<'a, T> ArmcRefGuard<'a, T> {
    /// The lock this guard holds its shared claim on.
    pub closed spec fn lock_of(&self) -> RwLock<Core<T>, Unlocked> {
        self.handle.rwlock()
    }

    /// The cell state that every reader of this lock currently observes.
    pub closed spec fn cell(&self) -> CellState<T> {
        self.handle.view()@
    }

    pub(crate) fn new(handle: ReadHandle<'a, Core<T>, Unlocked>) -> (guard: Self)
        ensures
            guard.lock_of() == handle.rwlock(),
            guard.cell() == handle.view()@,
    {
        ArmcRefGuard { handle }
    }

    /// Read the guarded value.
    pub fn read(&self) -> (value: &T)
        ensures
            *value == self@,
    {
        self.handle.borrow().get()
    }

    /// Release this shared claim on the cell.
    pub fn release(self) {
        self.handle.release_read();
    }
}

impl<'a, T> View for ArmcRefGuard<'a, T> {
    type V = T;

    closed spec fn view(&self) -> T {
        self.handle.view()@.value
    }
}

} // verus!
