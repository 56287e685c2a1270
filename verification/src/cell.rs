use vstd::prelude::*;
use vstd::rwlock::RwLockPredicate;

verus! {

/// Abstract state of one cell: the exclusive-lock flag, the number of
/// registered readers, and the stored value. Contracts and laws about
/// [`Core`] are stated over this model.
pub struct CellState<T> {
    pub locked: bool,
    pub readers: nat,
    pub value: T,
}

impl<T> CellState<T> {
    /// No guard is outstanding: the cell may be locked exclusively,
    /// consumed, or handed to new readers.
    pub open spec fn at_rest(self) -> bool {
        !self.locked && self.readers == 0
    }

    /// The cell invariant: an exclusive holder excludes every reader.
    /// Together with `at_rest` this describes the three legal shapes of
    /// the state: idle, one writer and no readers, or readers and no
    /// writer.
    pub open spec fn well_formed(self) -> bool {
        self.locked ==> self.readers == 0
    }
}

/// State after creation: unlocked, no readers, holding `value`.
pub open spec fn spec_new<T>(value: T) -> CellState<T> {
    CellState { locked: false, readers: 0, value }
}

/// State after acquiring the exclusive lock.
pub open spec fn spec_lock<T>(s: CellState<T>) -> CellState<T> {
    CellState { locked: true, ..s }
}

/// State after releasing the exclusive lock.
pub open spec fn spec_unlock<T>(s: CellState<T>) -> CellState<T> {
    CellState { locked: false, ..s }
}

/// State after registering one more reader.
pub open spec fn spec_lock_ref<T>(s: CellState<T>) -> CellState<T> {
    CellState { readers: s.readers + 1, ..s }
}

/// State after releasing one reader.
pub open spec fn spec_unlock_ref<T>(s: CellState<T>) -> CellState<T> {
    CellState { readers: (s.readers - 1) as nat, ..s }
}

/// State after storing `value` under the exclusive lock.
pub open spec fn spec_write<T>(s: CellState<T>, value: T) -> CellState<T> {
    CellState { value, ..s }
}

/// The storage unit behind a handle: one value together with its lock
/// state. The locking protocol is a state machine over [`CellState`]; each
/// transition below is guarded by the condition a spinning acquirer would
/// wait for, so a caller shows that the transition is enabled instead of
/// busy-waiting for it.
pub struct Core<T> {
    locked: bool,
    readers: usize,
    value: T,
}

impl<T> View for Core<T> {
    type V = CellState<T>;

    closed spec fn view(&self) -> CellState<T> {
        CellState { locked: self.locked, readers: self.readers as nat, value: self.value }
    }
}

impl<T> Core<T> {
    #[verifier::type_invariant]
    spec fn wf(self) -> bool {
        self@.well_formed()
    }

    /// Create a cell at rest, holding `value`.
    pub fn new(value: T) -> (cell: Self)
        ensures
            cell@ == spec_new(value),
    {
        Core { locked: false, readers: 0, value }
    }

    /// Acquire the exclusive lock. Enabled only when no exclusive guard
    /// and no reader is outstanding; exclusive access excludes all.
    pub fn lock(&mut self)
        requires
            old(self)@.at_rest(),
        ensures
            final(self)@ == spec_lock(old(self)@),
    {
        self.locked = true;
    }

    /// Release the exclusive lock. Called exactly once per acquisition.
    pub fn unlock(&mut self)
        requires
            old(self)@.locked,
        ensures
            final(self)@ == spec_unlock(old(self)@),
    {
        proof {
            use_type_invariant(&*self);
        }
        self.locked = false;
    }

    /// Register a reader. Enabled only while no exclusive guard is
    /// outstanding; readers exclude the writer but not each other.
    pub fn lock_ref(&mut self)
        requires
            !old(self)@.locked,
            old(self)@.readers < usize::MAX,
        ensures
            final(self)@ == spec_lock_ref(old(self)@),
    {
        self.readers = self.readers + 1;
    }

    /// Release one reader. Called exactly once per registered reader.
    pub fn unlock_ref(&mut self)
        requires
            old(self)@.readers > 0,
        ensures
            final(self)@ == spec_unlock_ref(old(self)@),
    {
        proof {
            use_type_invariant(&*self);
        }
        self.readers = self.readers - 1;
    }

    /// Read the stored value.
    pub fn get(&self) -> (value: &T)
        ensures
            *value == self@.value,
    {
        &self.value
    }

    /// Replace the stored value. Allowed only under the exclusive lock.
    pub fn set(&mut self, value: T)
        requires
            old(self)@.locked,
        ensures
            final(self)@ == spec_write(old(self)@, value),
        no_unwind
    {
        proof {
            use_type_invariant(&*self);
        }
        self.value = value;
    }

    /// Consume the cell, returning the stored value. The sole-ownership
    /// condition is enforced by the handle layer.
    pub fn unwrap(a: Self) -> (value: T)
        ensures
            value == a@.value,
    {
        let Core { value, .. } = a;
        value
    }
}

/// The resting predicate of a handle's shared cell: between guards the
/// stored cell has neither its writer flag set nor any registered reader.
pub struct Unlocked;

impl<T> RwLockPredicate<Core<T>> for Unlocked {
    open spec fn inv(self, cell: Core<T>) -> bool {
        cell@.at_rest()
    }
}

/// Law: a freshly created cell is at rest, and acquiring the exclusive
/// lock right away exposes exactly the initial value.
pub proof fn law_new_then_lock_reads_initial<T>(value: T)
    ensures
        spec_new(value).at_rest(),
        spec_lock(spec_new(value)).value == value,
{
}

/// Law: a value written under the exclusive lock survives the release and
/// is the one exposed to every later acquisition, exclusive or shared.
pub proof fn law_write_visible_to_later_guards<T>(s: CellState<T>, value: T)
    requires
        s.at_rest(),
    ensures
        ({
            let released = spec_unlock(spec_write(spec_lock(s), value));
            &&& released.at_rest()
            &&& spec_lock(released).value == value
            &&& spec_lock_ref(released).value == value
        }),
{
}

/// The cell state after `rounds` read-modify-write rounds, each of which
/// acquires the exclusive lock, adds `amount` to the stored value, and
/// releases the lock.
pub open spec fn spec_add_rounds(s: CellState<int>, rounds: nat, amount: int) -> CellState<int>
    decreases rounds,
{
    if rounds == 0 {
        s
    } else {
        let prev = spec_add_rounds(s, (rounds - 1) as nat, amount);
        spec_unlock(spec_write(spec_lock(prev), prev.value + amount))
    }
}

/// Law: guarded increments serialize and accumulate. Starting from a cell
/// at rest, every round finds the cell at rest again, each acquisition is
/// enabled, and after `rounds` rounds the stored value has grown by
/// exactly `rounds * amount`: no update is lost.
pub proof fn law_updates_accumulate(s: CellState<int>, rounds: nat, amount: int)
    requires
        s.at_rest(),
    ensures
        spec_add_rounds(s, rounds, amount).at_rest(),
        spec_add_rounds(s, rounds, amount).value == s.value + rounds * amount,
    decreases rounds,
{
    if rounds > 0 {
        let before: nat = (rounds - 1) as nat;
        law_updates_accumulate(s, before, amount);
        assert(before * amount + amount == rounds * amount) by (nonlinear_arith)
            requires
                before == rounds - 1,
        ;
    }
}

/// Law: every enabled transition preserves the cell invariant, so at no
/// point do an exclusive holder and a reader coexist.
pub proof fn law_transitions_preserve_invariant<T>(s: CellState<T>, value: T)
    requires
        s.well_formed(),
    ensures
        s.at_rest() ==> spec_lock(s).well_formed(),
        s.locked ==> spec_unlock(s).well_formed(),
        !s.locked ==> spec_lock_ref(s).well_formed(),
        s.readers > 0 ==> spec_unlock_ref(s).well_formed(),
        s.locked ==> spec_write(s, value).well_formed(),
{
}

} // verus!
