//! Adler-32 checksums of watched files.

use vstd::prelude::*;

verus! {

/// The two running sums `(a, b)` of Adler-32 after reading `bytes`:
/// `a` starts at 1, `b` at 0, and for every byte
/// `a = (a + byte) % 65521` and then `b = (b + a) % 65521`.
pub open spec fn adler_sums(bytes: Seq<u8>) -> (nat, nat)
    decreases bytes.len(),
{
    if bytes.len() == 0 {
        (1, 0)
    } else {
        let (a, b) = adler_sums(bytes.drop_last());
        let a2 = ((a + bytes.last()) % 65521) as nat;
        (a2, ((b + a2) % 65521) as nat)
    }
}

/// The Adler-32 checksum of `bytes`: `b * 65536 + a`.
pub open spec fn adler32(bytes: Seq<u8>) -> u32 {
    (adler_sums(bytes).1 * 65536 + adler_sums(bytes).0) as u32
}

/// `adler::adler32_slice`: the crate documents the running sums above and
/// returns `(b << 16) | a`; this contract states exactly that checksum.
#[verifier::external_body]
fn adler32_slice(data: &[u8]) -> (sum: u32)
    ensures
        sum == adler32(data@),
{
    adler::adler32_slice(data)
}

/// The checksum the watcher stores for a file whose contents are `contents`.
pub fn file_checksum(contents: &[u8]) -> (sum: u32)
    ensures
        sum == adler32(contents@),
{
    adler32_slice(contents)
}

} // verus!
