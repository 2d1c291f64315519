//! Magic-byte sniffing of candidate input files, delegated to goblin's
//! format peeker on the first 16 bytes of a file.

use vstd::prelude::*;
use crate::layout::{DOS_MAGIC_0, DOS_MAGIC_1};

verus! {

/// Relies on goblin::peek_bytes: it answers `Ok(Hint::PE)` for a 16-byte
/// prefix exactly when the prefix begins with the DOS magic `MZ`
/// (`0x4D 0x5A`, the little-endian `DOS_MAGIC` it compares against); the
/// ELF and archive magics it examines first begin with `0x7F` and `0x21`.
#[verifier::external_body]
fn peek_is_pe(prefix: &[u8; 16]) -> (r: bool)
    ensures
        r <==> (prefix@[0] == DOS_MAGIC_0 && prefix@[1] == DOS_MAGIC_1),
{
    matches!(goblin::peek_bytes(prefix), Ok(goblin::Hint::PE))
}

/// Does this 16-byte file prefix look like a PE image? True exactly when the
/// prefix opens with the DOS magic `MZ`.
pub fn is_pe(prefix: &[u8; 16]) -> (r: bool)
    ensures
        r <==> (prefix@[0] == DOS_MAGIC_0 && prefix@[1] == DOS_MAGIC_1),
{
    peek_is_pe(prefix)
}

} // verus!
