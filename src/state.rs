use vstd::prelude::*;

use crate::error::Error;

verus! {

/// What a shared cell holds, as a mathematical value.
pub ghost struct CellState {
    /// The stored string.
    pub value: Seq<char>,
    /// Whether an earlier holder of the cell's lock ended abnormally.
    pub poisoned: bool,
}

/// The state in which every cell starts: empty and usable.
pub open spec fn initial_cell() -> CellState {
    CellState { value: Seq::empty(), poisoned: false }
}

/// The state after a write of `v` to a cell in state `s`.
///
/// A poisoned cell refuses the write and stays as it was.
pub open spec fn after_write(s: CellState, v: Seq<char>) -> CellState {
    if s.poisoned {
        s
    } else {
        CellState { value: v, ..s }
    }
}

/// The single mutable string of the plugin.
///
/// Whoever holds the cell has it exclusively: a reader copies the value out, a
/// writer replaces it whole. A cell whose lock was poisoned refuses both.
pub struct SharedData {
    value: String,
    poisoned: bool,
}

impl View for SharedData {
    type V = CellState;

    closed spec fn view(&self) -> CellState {
        CellState { value: self.value@, poisoned: self.poisoned }
    }
}

impl SharedData {
    /// A new cell holding the empty string.
    pub fn new() -> (r: SharedData)
        ensures
            r@ == initial_cell(),
    {
        SharedData { value: String::new(), poisoned: false }
    }

    /// Records that a holder of the cell's lock ended abnormally.
    pub fn poison(&mut self)
        ensures
            final(self)@ == (CellState { poisoned: true, ..old(self)@ }),
    {
        self.poisoned = true;
    }

    /// A copy of the current value.
    pub fn read(&self) -> (r: Result<String, Error>)
        ensures
            self@.poisoned ==> r matches Err(Error::LockPoisoned),
            !self@.poisoned ==> (r matches Ok(v) && v@ == self@.value),
    {
        if self.poisoned {
            Err(Error::LockPoisoned)
        } else {
            Ok(self.value.clone())
        }
    }

    /// Replaces the value with `v`.
    pub fn write(&mut self, v: String) -> (r: Result<(), Error>)
        ensures
            final(self)@ == after_write(old(self)@, v@),
            old(self)@.poisoned ==> r matches Err(Error::LockPoisoned),
            !old(self)@.poisoned ==> r is Ok,
    {
        if self.poisoned {
            Err(Error::LockPoisoned)
        } else {
            self.value = v;
            Ok(())
        }
    }
}

} // verus!
