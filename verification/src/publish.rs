//! A cell that is filled once and read many times.
//!
//! The handle of the device is made on one path of control and used on
//! another, such as an interrupt handler. The first path publishes the
//! handle and only then lets the second run; the second asks the cell for
//! the handle and is told when there is none yet.

use vstd::prelude::*;

verus! {

/// Nothing has been published yet.
#[derive(Clone, Copy, Debug, PartialEq, Eq, Structural)]
pub struct Unpublished;

/// A place for one value: empty at first, filled by the first `publish`,
/// and never emptied or filled again.
pub struct PublishCell<T> {
    slot: Option<T>,
}

impl<T> PublishCell<T> {
    /// What the cell holds, if anything has been published.
    pub closed spec fn value(self) -> Option<T> {
        self.slot
    }

    /// An empty cell.
    pub fn new() -> (cell: Self)
        ensures
            cell.value().is_none(),
    {
        PublishCell { slot: None }
    }

    /// Whether a value has been published.
    pub fn is_published(&self) -> (published: bool)
        ensures
            published == self.value().is_some(),
    {
        self.slot.is_some()
    }

    /// Publishes a value in an empty cell. A cell that holds a value keeps
    /// it and hands the new one back.
    pub fn publish(&mut self, value: T) -> (refused: Result<(), T>)
        ensures
            old(self).value().is_none() ==> refused.is_ok() && final(self).value() == Some(value),
            old(self).value().is_some() ==> refused == Err::<(), T>(value) && final(self).value()
                == old(self).value(),
    {
        if self.slot.is_some() {
            Err(value)
        } else {
            self.slot = Some(value);
            Ok(())
        }
    }

    /// The published value, for use. An empty cell is reported, not read.
    pub fn get_mut(&mut self) -> (access: Result<&mut T, Unpublished>)
        ensures
            old(self).value().is_none() ==> access.is_err() && final(self).value().is_none(),
            old(self).value() matches Some(held) ==> access matches Ok(value) && *value == held
                && final(self).value() == Some(*final(value)),
    {
        match &mut self.slot {
            Some(value) => Ok(value),
            None => Err(Unpublished),
        }
    }
}

} // verus!
