//! The bytes of one request, and the test of one round trip.

use vstd::prelude::*;

verus! {

/// The byte that ends every request: a line feed.
pub const TERMINATOR: u8 = 10;

/// The request of a given length: zeros, then the terminator as last byte.
pub open spec fn request_bytes(length: nat) -> Seq<u8> {
    Seq::new(
        length,
        |i: int|
            if i == length - 1 {
                TERMINATOR
            } else {
                0u8
            },
    )
}

/// Builds the request that a worker sends in every round trip.
///
/// With `length == 1` the request is the terminator alone.
pub fn build_request(length: usize) -> (request: Vec<u8>)
    requires
        length >= 1,
    ensures
        request@ == request_bytes(length as nat),
        request@.len() == length,
        request@.last() == TERMINATOR,
{
    let mut request: Vec<u8> = Vec::with_capacity(length);
    let mut i: usize = 0;
    while i < length - 1
        invariant
            length >= 1,
            i <= length - 1,
            request@.len() == i,
            forall|j: int| 0 <= j < i ==> request@[j] == 0u8,
        decreases length - 1 - i,
    {
        request.push(0);
        i += 1;
    }
    request.push(TERMINATOR);
    assert(request@ =~= request_bytes(length as nat));
    request
}

/// A zeroed buffer for the reply to a request of the given length.
pub fn reply_buffer(length: usize) -> (buffer: Vec<u8>)
    ensures
        buffer@ == Seq::new(length as nat, |i: int| 0u8),
{
    let mut buffer: Vec<u8> = Vec::with_capacity(length);
    let mut i: usize = 0;
    while i < length
        invariant
            i <= length,
            buffer@.len() == i,
            forall|j: int| 0 <= j < i ==> buffer@[j] == 0u8,
        decreases length - i,
    {
        buffer.push(0);
        i += 1;
    }
    assert(buffer@ =~= Seq::new(length as nat, |i: int| 0u8));
    buffer
}

/// Whether a transfer moved the whole message: it ended without an error and
/// moved exactly `length` bytes. Fewer bytes are a failure, not a part of a
/// success.
pub open spec fn transfer_complete(length: usize, moved: Option<usize>) -> bool {
    moved == Some(length)
}

/// Tests one transfer against the message length.
pub fn is_transfer_complete(length: usize, moved: Option<usize>) -> (complete: bool)
    ensures
        complete == transfer_complete(length, moved),
{
    match moved {
        Some(n) => n == length,
        None => false,
    }
}

/// Whether a request and its reply make one round trip: both transfers moved
/// exactly `length` bytes.
pub open spec fn round_trip_complete(
    length: usize,
    sent: Option<usize>,
    received: Option<usize>,
) -> bool {
    transfer_complete(length, sent) && transfer_complete(length, received)
}

} // verus!
