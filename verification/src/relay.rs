//! The two relays' per-read decisions: what one terminal read or one hook
//! datagram contributes to its queue, and whether the relay stops.

use vstd::prelude::*;
use vstd::slice::{slice_subrange, slice_to_vec};
use crate::router::{bytes_to_text, lossy_text};

verus! {

/// The byte relay's decision for one terminal read into `buf`: `outcome` is
/// the byte count, or `None` on a read error.  A positive read publishes
/// that prefix of the buffer and goes on; a zero-length read and an error
/// are both the exhaustion sentinel, published once as the empty chunk
/// before the relay stops.
pub fn relay_chunk(buf: &[u8], outcome: Option<usize>) -> (r: (Vec<u8>, bool))
    requires
        outcome matches Some(n) ==> n <= buf@.len(),
    ensures
        match outcome {
            Some(n) => if n > 0 {
                r.0@ == buf@.subrange(0, n as int) && !r.1
            } else {
                r.0@ == Seq::<u8>::empty() && r.1
            },
            None => r.0@ == Seq::<u8>::empty() && r.1,
        },
{
    match outcome {
        Some(n) => {
            if n > 0 {
                (slice_to_vec(slice_subrange(buf, 0, n)), false)
            } else {
                (Vec::new(), true)
            }
        },
        None => (Vec::new(), true),
    }
}

/// The event relay's decision for one hook datagram of `n` bytes in `buf`:
/// a zero-length datagram is ignored (the event source is not a stream, so
/// it is no end marker); anything else is published as best-effort text.
pub fn relay_event(buf: &[u8], n: usize) -> (r: Option<String>)
    requires
        n <= buf@.len(),
    ensures
        n == 0 ==> r is None,
        n > 0 ==> (r matches Some(s) && s@ == lossy_text(buf@.subrange(0, n as int))),
{
    if n == 0 {
        None
    } else {
        Some(bytes_to_text(slice_subrange(buf, 0, n)))
    }
}

} // verus!
