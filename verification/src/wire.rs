//! The protocol frames the cleanup path submits: one Close frame for the
//! statement, followed by one Sync frame so the action group ends in a
//! synchronization point.
//!
//! The byte-level encoders live in an outside protocol crate; the two
//! trusted wrappers below state exactly which bytes each call appends.

use vstd::prelude::*;

use vstd::string::StringSliceAdditionalSpecFns;

verus! {

/// Kind byte of a Close frame that names a prepared statement (as opposed
/// to a portal).
pub const STATEMENT_KIND: u8 = 83;

/// The four big-endian bytes of a 32-bit length.
pub open spec fn be32(n: u32) -> Seq<u8> {
    seq![
        ((n >> 24u32) & 0xFFu32) as u8,
        ((n >> 16u32) & 0xFFu32) as u8,
        ((n >> 8u32) & 0xFFu32) as u8,
        (n & 0xFFu32) as u8,
    ]
}

/// Whether `name` can stand in a Close frame: the name is written as a
/// C string, so it may hold no NUL byte, and the frame length (the name,
/// the kind byte, its own four bytes and the terminator) must fit the
/// protocol's signed 32-bit length field.
pub open spec fn wire_name_ok(name: Seq<u8>) -> bool {
    !name.contains(0u8) && name.len() + 6 <= 0x7FFF_FFFF
}

/// One Close frame: tag byte `C`, the length, the kind byte, then the name
/// as a NUL-terminated string.
pub open spec fn close_frame(kind: u8, name: Seq<u8>) -> Seq<u8> {
    seq![67u8] + be32((name.len() + 6) as u32) + seq![kind] + name + seq![0u8]
}

/// One Sync frame: tag byte `S` and an empty body.
pub open spec fn sync_frame() -> Seq<u8> {
    seq![83u8, 0u8, 0u8, 0u8, 4u8]
}

/// Relies on `postgres_protocol::message::frontend::close`: appends one
/// Close frame for `name` with the given kind byte, and fails exactly when
/// the name holds a NUL byte or the frame length overflows the length
/// field, leaving the buffer unchanged.
#[verifier::external_body]
fn close_into(kind: u8, name: &str, out: &mut Vec<u8>) -> (ok: bool)
    ensures
        ok == wire_name_ok(name.spec_bytes()),
        ok ==> final(out)@ == old(out)@ + close_frame(kind, name.spec_bytes()),
        !ok ==> final(out)@ == old(out)@,
{
    let mut buf = bytes::BytesMut::new();
    match postgres_protocol::message::frontend::close(kind, name, &mut buf) {
        Ok(()) => {
            out.extend_from_slice(&buf);
            true
        },
        Err(_) => false,
    }
}

/// Relies on `postgres_protocol::message::frontend::sync`: appends one Sync
/// frame, a tag byte and an empty body.
#[verifier::external_body]
fn sync_into(out: &mut Vec<u8>)
    ensures
        final(out)@ == old(out)@ + sync_frame(),
{
    let mut buf = bytes::BytesMut::new();
    postgres_protocol::message::frontend::sync(&mut buf);
    out.extend_from_slice(&buf);
}

/// Whether `name` can stand in a Close frame; the executable counterpart of
/// [`wire_name_ok`].
pub fn name_fits_close_frame(name: &str) -> (b: bool)
    ensures
        b == wire_name_ok(name.spec_bytes()),
{
    let bytes = name.as_bytes();
    if bytes.len() > 0x7FFF_FFF9usize {
        return false;
    }
    let mut i: usize = 0;
    while i < bytes.len()
        invariant
            i <= bytes.len(),
            bytes@ == name.spec_bytes(),
            forall|j: int| 0 <= j < i ==> bytes@[j] != 0u8,
        decreases bytes.len() - i,
    {
        if bytes[i] == 0 {
            return false;
        }
        i += 1;
    }
    true
}

/// The exact bytes of one statement-release submission: a Close frame for
/// `name` followed by a Sync frame.
pub fn close_and_sync(name: &str) -> (r: Vec<u8>)
    requires
        wire_name_ok(name.spec_bytes()),
    ensures
        r@ == close_frame(STATEMENT_KIND, name.spec_bytes()) + sync_frame(),
{
    let mut out: Vec<u8> = Vec::new();
    // The precondition is exactly the encoder's success condition.
    let _ok = close_into(STATEMENT_KIND, name, &mut out);
    sync_into(&mut out);
    assert(out@ =~= close_frame(STATEMENT_KIND, name.spec_bytes()) + sync_frame());
    out
}

} // verus!
