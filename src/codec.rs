use vstd::prelude::*;

verus! {

/// The wire frame of an impulse identifier: its two bytes, low byte first.
pub open spec fn impulse_frame(id: u16) -> Seq<u8> {
    seq![(id % 256) as u8, (id / 256) as u8]
}

/// What a datagram decodes to: the identifier in its two leading bytes, low
/// byte first, or nothing when it is shorter than two bytes. Bytes after the
/// second are ignored.
pub open spec fn decoded_impulse(bytes: Seq<u8>) -> Option<u16> {
    if bytes.len() >= 2 {
        Some((bytes[0] as int + 256 * bytes[1] as int) as u16)
    } else {
        None
    }
}

/// Relies on bincode::serialize (fixed-width, little-endian integers, no size
/// limit): a u16 becomes its two bytes, low byte first, and writing into a
/// `Vec` cannot fail.
#[verifier::external_body]
fn serialize_impulse(id: &u16) -> (r: Result<Vec<u8>, Box<bincode::ErrorKind>>)
    ensures
        r is Ok,
        r matches Ok(v) ==> v@ == impulse_frame(*id),
{
    bincode::serialize(id)
}

/// Relies on bincode::deserialize_from (fixed-width, little-endian integers,
/// trailing bytes allowed): a u16 is read from the first two bytes, and
/// fewer than two bytes is an end-of-input error.
#[verifier::external_body]
fn deserialize_impulse(bytes: &[u8]) -> (r: Result<u16, Box<bincode::ErrorKind>>)
    ensures
        r is Ok <==> decoded_impulse(bytes@) is Some,
        r matches Ok(id) ==> decoded_impulse(bytes@) == Some(id),
{
    bincode::deserialize_from(bytes)
}

/// Encodes an impulse identifier as one wire frame. Never fails.
pub fn encode(id: u16) -> (r: Result<Vec<u8>, Box<bincode::ErrorKind>>)
    ensures
        r is Ok,
        r matches Ok(v) ==> v@ == impulse_frame(id),
{
    serialize_impulse(&id)
}

/// Decodes the identifier that a datagram carries; fails exactly when the
/// datagram is shorter than one frame.
pub fn decode(bytes: &[u8]) -> (r: Result<u16, Box<bincode::ErrorKind>>)
    ensures
        r is Ok <==> bytes@.len() >= 2,
        r matches Ok(id) ==> decoded_impulse(bytes@) == Some(id),
{
    deserialize_impulse(bytes)
}

/// Decoding the frame of an identifier gives that identifier back, for every
/// u16 value.
pub proof fn lemma_round_trip(id: u16)
    ensures
        decoded_impulse(impulse_frame(id)) == Some(id),
{
    let f = impulse_frame(id);
    assert(f[0] as int + 256 * f[1] as int == id as int);
}

} // verus!
