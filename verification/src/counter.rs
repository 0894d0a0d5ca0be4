//! The counter that issues identifiers: a durable number that only grows.

use crate::durable::{cell_get, cell_init, cell_set, cell_value, IdCell, Partition};
use ic_stable_structures::cell::{InitError, ValueError};
use vstd::prelude::*;

verus! {

/// A durable counter. Its value is the identifier that it issued last, or
/// zero if it has issued none.
pub struct IdCounter {
    cell: IdCell,
}

impl View for IdCounter {
    type V = u64;

    closed spec fn view(&self) -> u64 {
        cell_value(self.cell)
    }
}

/// The identifier that a counter issues when it stands at `current` and the
/// durable write ends as `written` says: the next number if the write was
/// done, none if it was not.
pub fn issued_id(current: u64, written: &Result<u64, ValueError>) -> (issued: Option<u64>)
    requires
        current < u64::MAX,
    ensures
        issued == (if written is Ok {
            Some((current + 1) as u64)
        } else {
            None
        }),
{
    match written {
        Ok(_) => Some(current + 1),
        Err(_) => None,
    }
}

impl IdCounter {
    /// The counter that an attempt to open the durable cell gives: one over
    /// the cell, or none if the cell could not be opened.
    pub fn from_cell(opened: Result<IdCell, InitError>) -> (counter: Option<IdCounter>)
        ensures
            match opened {
                Ok(cell) => counter matches Some(c) && c@ == cell_value(cell),
                Err(_) => counter is None,
            },
    {
        match opened {
            Ok(cell) => Some(IdCounter { cell }),
            Err(_) => None,
        }
    }

    /// Opens the counter that the partition holds; a partition that holds
    /// none gets a counter that stands at zero. The value of the counter
    /// depends on what the partition held, so nothing is promised of it:
    /// `current` tells.
    pub(crate) fn open(memory: Partition) -> (counter: Option<IdCounter>) {
        IdCounter::from_cell(cell_init(memory, 0))
    }

    /// The identifier that was issued last, or zero.
    pub fn current(&self) -> (value: u64)
        ensures
            value == self@,
    {
        cell_get(&self.cell)
    }

    /// Issues the next identifier: one more than the last, so the first is
    /// 1. The counter moves only if the identifier is issued. None is
    /// issued once the counter stands at the largest number, or when the
    /// durable write fails.
    pub fn next(&mut self) -> (issued: Option<u64>)
        ensures
            match issued {
                Some(id) => old(self)@ < u64::MAX && id == old(self)@ + 1 && final(self)@ == id,
                None => final(self)@ == old(self)@,
            },
    {
        let current = cell_get(&self.cell);
        if current == u64::MAX {
            return None;
        }
        let written = cell_set(&mut self.cell, current + 1);
        issued_id(current, &written)
    }
}

} // verus!
