//! The harness processes of the supervisor, per platform: their command
//! lines, and the one active harness whose process tree a shutdown kills.

pub mod unix;
pub mod windows;

use vstd::prelude::*;

verus! {

/// The slot of the active harness: at most one at a time.
pub struct ActiveSlot<T> {
    pub current: Option<T>,
}

/// An empty slot.
pub fn empty_slot<T>() -> (r: ActiveSlot<T>)
    ensures
        r.current is None,
{
    ActiveSlot { current: None }
}

/// Takes the active harness out of the slot.
pub fn take_active<T>(slot: &mut ActiveSlot<T>) -> (r: Option<T>)
    ensures
        r == old(slot).current,
        final(slot).current is None,
{
    let mut taken: Option<T> = None;
    std::mem::swap(&mut taken, &mut slot.current);
    taken
}

/// Makes a harness the active one; the previous one, returned, must be killed.
pub fn replace_active<T>(slot: &mut ActiveSlot<T>, harness: T) -> (r: Option<T>)
    ensures
        r == old(slot).current,
        final(slot).current == Some(harness),
{
    let previous = take_active(slot);
    slot.current = Some(harness);
    previous
}

} // verus!
