//! The two-phase read: ask for the required length, then fill a buffer of
//! exactly that length and keep what the service says it wrote.

use vstd::prelude::*;

verus! {

/// What a fill call delivered.
///
/// The call was made with a buffer of `capacity` elements. The service
/// answered whether it accepted the call and how many elements it wrote.
/// Data is delivered only when the service accepted the call and the count it
/// reports fits both the capacity it was given and the buffer that came back.
/// The data is then the first `written` elements: nothing behind them is read.
pub open spec fn written_prefix<T>(
    capacity: u32,
    accepted: bool,
    written: u32,
    buffer: Seq<T>,
) -> Option<Seq<T>> {
    if accepted && written <= capacity && written <= buffer.len() {
        Some(buffer.take(written as int))
    } else {
        None
    }
}

/// Cuts a filled buffer down to the elements that the service wrote.
pub fn take_written<T>(capacity: u32, accepted: bool, written: u32, buffer: Vec<T>) -> (data:
    Option<Vec<T>>)
    ensures
        data is Some <==> written_prefix(capacity, accepted, written, buffer@) is Some,
        data matches Some(kept) ==> Some(kept@) == written_prefix(
            capacity,
            accepted,
            written,
            buffer@,
        ),
{
    if !accepted || written > capacity {
        return None;
    }
    let count: usize = written as usize;
    if count > buffer.len() {
        return None;
    }
    let mut kept = buffer;
    kept.truncate(count);
    assert(kept@ =~= buffer@.take(written as int));
    Some(kept)
}

/// A count that phase two reports never exceeds the length that was
/// allocated after phase one, and the data is exactly as long as that count.
pub proof fn written_prefix_is_bounded<T>(
    capacity: u32,
    accepted: bool,
    written: u32,
    buffer: Seq<T>,
)
    ensures
        written_prefix(capacity, accepted, written, buffer) matches Some(kept) ==> {
            &&& accepted
            &&& kept.len() == written
            &&& kept.len() <= capacity
            &&& kept.len() <= buffer.len()
            &&& forall|i: int| 0 <= i < kept.len() ==> kept[i] == buffer[i]
        },
        !accepted ==> written_prefix(capacity, accepted, written, buffer) is None,
        written > capacity ==> written_prefix(capacity, accepted, written, buffer) is None,
        written > buffer.len() ==> written_prefix(capacity, accepted, written, buffer) is None,
{
}

} // verus!
