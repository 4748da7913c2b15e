//! Plain values for what the operating system answers the runtime.

use vstd::endian::{endianness, Endian};
use vstd::prelude::*;

verus! {

/// The error numbers that the runtime's decisions tell apart; every other
/// one is carried through as its raw number.
#[derive(Clone, Copy, Debug, PartialEq, Eq, Structural)]
pub enum SysError {
    /// The operation was started and completes later (EINPROGRESS).
    InProgress,
    /// Nothing can be done without blocking now (EAGAIN).
    WouldBlock,
    /// The descriptor is already registered (EEXIST).
    AlreadyExists,
    /// Any other error number.
    Other(i32),
}

/// The outcome of reading from a descriptor: end of input (zero bytes),
/// an error, or what was read.
#[derive(Debug, PartialEq, Eq)]
pub enum FdRead<T> {
    Closed,
    Failed(SysError),
    Read(T),
}

/// The number that `bytes` stand for, least significant byte first.
pub open spec fn le_value(bytes: Seq<u8>) -> nat
    decreases bytes.len(),
{
    if bytes.len() == 0 {
        0
    } else {
        (bytes[0] + 256 * le_value(bytes.drop_first())) as nat
    }
}

/// The number that `bytes` stand for, most significant byte first.
pub open spec fn be_value(bytes: Seq<u8>) -> nat
    decreases bytes.len(),
{
    if bytes.len() == 0 {
        0
    } else {
        (be_value(bytes.drop_last()) * 256 + bytes.last()) as nat
    }
}

/// The number that `bytes` stand for in the byte order of the machine.
pub open spec fn native_value(bytes: Seq<u8>) -> nat {
    match endianness() {
        Endian::Little => le_value(bytes),
        Endian::Big => be_value(bytes),
    }
}

/// Calls `u64::from_ne_bytes` on the first eight bytes. Claimed, as std
/// documents it: the result is the number those bytes stand for in the
/// machine's byte order (vstd's `endianness()`, which no proof here fixes).
#[verifier::external_body]
fn u64_from_ne_bytes(bytes: &[u8]) -> (r: u64)
    requires
        bytes@.len() >= 8,
    ensures
        r as nat == native_value(bytes@.take(8)),
{
    u64::from_ne_bytes(
        [bytes[0], bytes[1], bytes[2], bytes[3], bytes[4], bytes[5], bytes[6], bytes[7]],
    )
}

/// The counter value read from an eventfd: the first eight bytes in the
/// machine's byte order; `None` where fewer than eight bytes were read.
pub fn eventfd_value(bytes: &[u8]) -> (r: Option<u64>)
    ensures
        r is None <==> bytes@.len() < 8,
        r matches Some(v) ==> v as nat == native_value(bytes@.take(8)),
{
    if bytes.len() < 8 {
        None
    } else {
        Some(u64_from_ne_bytes(bytes))
    }
}

} // verus!

verus! {

/// The two byte orders read the same bytes back to front: the number that
/// bytes stand for least significant first is the number their reversal
/// stands for most significant first.
pub proof fn lemma_byte_orders_mirror(bytes: Seq<u8>)
    ensures
        le_value(bytes) == be_value(bytes.reverse()),
    decreases bytes.len(),
{
    if bytes.len() > 0 {
        let rest = bytes.drop_first();
        lemma_byte_orders_mirror(rest);
        let r = bytes.reverse();
        assert(r.drop_last() =~= rest.reverse());
        assert(r.last() == bytes[0]);
    }
}

/// Appending a byte at the most significant end adds it at the next power
/// of 256: for least significant first, `bytes + [x]` stands for
/// `le_value(bytes) + x * 256^len`; for most significant first, appending
/// at the least significant end shifts by one byte.
pub proof fn lemma_byte_order_steps(bytes: Seq<u8>, x: u8)
    ensures
        be_value(bytes.push(x)) == be_value(bytes) * 256 + x,
        le_value(seq![x] + bytes) == x + 256 * le_value(bytes),
{
    assert(bytes.push(x).drop_last() =~= bytes);
    assert((seq![x] + bytes).drop_first() =~= bytes);
}

} // verus!
