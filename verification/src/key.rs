//! The random bytes behind a `Sec-WebSocket-Key`.
use vstd::prelude::*;

verus! {

/// Calls `rand::random::<[u8; 16]>()`, which samples rand's thread-local
/// generator. Nothing is claimed of the bytes: they are random.
#[verifier::external_body]
fn random_16_bytes() -> (res: [u8; 16]) {
    rand::random::<[u8; 16]>()
}

/// The bytes of a drawn key, in order, as a `Vec`.
pub fn key_bytes_from_draw(bytes: [u8; 16]) -> (res: Vec<u8>)
    ensures
        res@ == bytes@,
{
    let mut res: Vec<u8> = Vec::new();
    let mut i: usize = 0;
    while i < 16
        invariant
            i <= 16,
            res@.len() == i,
            forall|j: int| 0 <= j < i ==> res@[j] == bytes@[j],
        decreases 16 - i,
    {
        res.push(bytes[i]);
        i = i + 1;
    }
    assert(res@ =~= bytes@);
    res
}

/// The 16 random bytes of a new `Sec-WebSocket-Key` (before base64 encoding):
/// a fresh draw from rand each time, copied as `key_bytes_from_draw` states.
/// Only their number is fixed.
pub fn generate_websocket_key_bytes() -> (res: Vec<u8>)
    ensures
        res@.len() == 16,
{
    key_bytes_from_draw(random_16_bytes())
}

} // verus!
