//! The on-disk layout of the Portable Executable headers, as far as the
//! certificate table is concerned: the DOS header's pointer to the PE
//! signature, the optional-header magic that decides 32-bit versus 64-bit,
//! and the data-directory table holding the Load Config and Certificate
//! Table entries.

use vstd::prelude::*;
use crate::le::{u16_le_at, u32_le_at, read_u16_le, read_u32_le};

verus! {

/// First byte of the DOS magic `MZ`.
pub const DOS_MAGIC_0: u8 = 0x4D;

/// Second byte of the DOS magic `MZ`.
pub const DOS_MAGIC_1: u8 = 0x5A;

/// Fixed file offset of the DOS header field holding the PE-signature offset.
pub const PE_POINTER_OFFSET: usize = 0x3C;

/// Optional-header magic of a 32-bit (PE32) image.
pub const OPTIONAL_MAGIC_32: u16 = 0x10B;

/// Optional-header magic of a 64-bit (PE32+) image.
pub const OPTIONAL_MAGIC_64: u16 = 0x20B;

/// Bytes from the PE signature to the optional header: the 4-byte signature
/// itself plus the 20-byte COFF file header.
pub const OPTIONAL_HEADER_DELTA: usize = 24;

/// Bytes from the start of a PE32 optional header to its data-directory
/// table.
pub const DIRECTORY_TABLE_DELTA_32: usize = 96;

/// Bytes from the start of a PE32+ optional header to its data-directory
/// table; the 64-bit format widens four fields by 4 bytes each.
pub const DIRECTORY_TABLE_DELTA_64: usize = 112;

/// The data-directory count field sits in the 4 bytes just before the table.
pub const DIRECTORY_COUNT_DELTA_32: usize = 92;

/// The data-directory count field of a PE32+ optional header.
pub const DIRECTORY_COUNT_DELTA_64: usize = 108;

/// A data directory never holds more than 16 entries.
pub const DIRECTORY_COUNT_MAX: u32 = 16;

/// Index of the Certificate Table entry in the data-directory table.
pub const CERTIFICATE_TABLE_INDEX: u32 = 4;

/// Index of the Load Config Table entry in the data-directory table.
pub const LOAD_CONFIG_TABLE_INDEX: u32 = 10;

/// Size in bytes of one data-directory entry: a 4-byte address and a
/// 4-byte size.
pub const DIRECTORY_ENTRY_SIZE: usize = 8;

/// Certificate Table entry offset from the PE signature in a 32-bit image:
/// signature (4) + COFF header (20) + optional-header prefix (96) + four
/// 8-byte entries before it.
pub const CERTIFICATE_ENTRY_DELTA_32: usize = 0x98;

/// Certificate Table entry offset from the PE signature in a 64-bit image:
/// signature (4) + COFF header (20) + optional-header prefix (112) + four
/// 8-byte entries before it.
pub const CERTIFICATE_ENTRY_DELTA_64: usize = 0xA8;

/// File offset of the PE signature, read from the DOS header.
pub open spec fn pe_sig_offset(s: Seq<u8>) -> int {
    u32_le_at(s, PE_POINTER_OFFSET as int) as int
}

/// The buffer begins with a DOS header: the `MZ` magic, and room up to the
/// PE-signature pointer.
pub open spec fn has_dos_header(s: Seq<u8>) -> bool {
    &&& s.len() >= PE_POINTER_OFFSET + 4
    &&& s[0] == DOS_MAGIC_0
    &&& s[1] == DOS_MAGIC_1
}

/// The DOS header points at a proper `PE\0\0` signature.
pub open spec fn has_pe_signature(s: Seq<u8>) -> bool {
    &&& has_dos_header(s)
    &&& pe_sig_offset(s) + 4 <= s.len()
    &&& s[pe_sig_offset(s)] == 0x50
    &&& s[pe_sig_offset(s) + 1] == 0x45
    &&& s[pe_sig_offset(s) + 2] == 0x00
    &&& s[pe_sig_offset(s) + 3] == 0x00
}

/// File offset of the optional header.
pub open spec fn opt_header_offset(s: Seq<u8>) -> int {
    pe_sig_offset(s) + OPTIONAL_HEADER_DELTA
}

/// The optional-header magic field.
pub open spec fn spec_opt_magic(s: Seq<u8>) -> u16 {
    u16_le_at(s, opt_header_offset(s))
}

/// Whether the image is 64-bit (PE32+); decided by the optional-header magic.
pub open spec fn spec_is_64(s: Seq<u8>) -> bool {
    spec_opt_magic(s) == OPTIONAL_MAGIC_64
}

/// An optional header is present: the COFF header declares a nonzero
/// optional-header size and the magic names one of the two known formats.
pub open spec fn has_optional_header(s: Seq<u8>) -> bool {
    &&& has_pe_signature(s)
    &&& opt_header_offset(s) + 2 <= s.len()
    &&& u16_le_at(s, pe_sig_offset(s) + 20) != 0
    &&& (spec_opt_magic(s) == OPTIONAL_MAGIC_32 || spec_opt_magic(s) == OPTIONAL_MAGIC_64)
}

/// File offset of the data-directory count field.
pub open spec fn dir_count_offset(s: Seq<u8>) -> int {
    opt_header_offset(s) + if spec_is_64(s) {
        DIRECTORY_COUNT_DELTA_64 as int
    } else {
        DIRECTORY_COUNT_DELTA_32 as int
    }
}

/// File offset of the data-directory table.
pub open spec fn dir_table_offset(s: Seq<u8>) -> int {
    opt_header_offset(s) + if spec_is_64(s) {
        DIRECTORY_TABLE_DELTA_64 as int
    } else {
        DIRECTORY_TABLE_DELTA_32 as int
    }
}

/// The declared number of data-directory entries.
pub open spec fn spec_dir_count(s: Seq<u8>) -> u32 {
    u32_le_at(s, dir_count_offset(s))
}

/// The data-directory table is well formed: its count field is readable and
/// sane, and the declared entries all lie inside the buffer.
pub open spec fn wf_directories(s: Seq<u8>) -> bool {
    &&& has_optional_header(s)
    &&& dir_count_offset(s) + 4 <= s.len()
    &&& spec_dir_count(s) <= DIRECTORY_COUNT_MAX
    &&& dir_table_offset(s) + DIRECTORY_ENTRY_SIZE * spec_dir_count(s) <= s.len()
}

/// File offset of data-directory entry `idx`.
pub open spec fn dir_entry_offset(s: Seq<u8>, idx: int) -> int {
    dir_table_offset(s) + DIRECTORY_ENTRY_SIZE * idx
}

/// The address field of data-directory entry `idx`.
pub open spec fn spec_dir_va(s: Seq<u8>, idx: int) -> u32 {
    u32_le_at(s, dir_entry_offset(s, idx))
}

/// The size field of data-directory entry `idx`.
pub open spec fn spec_dir_size(s: Seq<u8>, idx: int) -> u32 {
    u32_le_at(s, dir_entry_offset(s, idx) + 4)
}

/// Data-directory entry `idx` is present: it lies within the declared count
/// and is not the all-zero entry that the format uses for "no such table".
pub open spec fn dir_entry_present(s: Seq<u8>, idx: int) -> bool {
    &&& wf_directories(s)
    &&& 0 <= idx < spec_dir_count(s)
    &&& (spec_dir_va(s, idx) != 0 || spec_dir_size(s, idx) != 0)
}

/// The image carries a Load Config Table entry. Both operations require it
/// before trusting the certificate-table offset arithmetic.
pub open spec fn has_load_config(s: Seq<u8>) -> bool {
    dir_entry_present(s, LOAD_CONFIG_TABLE_INDEX as int)
}

/// File offset of the Certificate Table data-directory entry, as the fixed
/// distance from the PE signature that the bitness dictates.
pub open spec fn cert_entry_offset(s: Seq<u8>) -> int {
    pe_sig_offset(s) + if spec_is_64(s) {
        CERTIFICATE_ENTRY_DELTA_64 as int
    } else {
        CERTIFICATE_ENTRY_DELTA_32 as int
    }
}

/// The address field of the Certificate Table entry: for this entry the
/// format stores a raw file offset, not a virtual address.
pub open spec fn spec_cert_va(s: Seq<u8>) -> u32 {
    u32_le_at(s, cert_entry_offset(s))
}

/// The size field of the Certificate Table entry.
pub open spec fn spec_cert_size(s: Seq<u8>) -> u32 {
    u32_le_at(s, cert_entry_offset(s) + 4)
}

/// The fixed certificate-entry offsets are exactly the position of
/// data-directory entry 4, whichever bitness the image has.
pub proof fn lemma_cert_entry_offset(s: Seq<u8>)
    ensures
        cert_entry_offset(s) == dir_entry_offset(s, CERTIFICATE_TABLE_INDEX as int),
        !spec_is_64(s) ==> cert_entry_offset(s) == pe_sig_offset(s) + 0x98,
        spec_is_64(s) ==> cert_entry_offset(s) == pe_sig_offset(s) + 0xA8,
{
}

/// With a Load Config entry present the whole Certificate Table entry lies
/// inside the buffer: the table holds at least 11 entries and entry 4 ends
/// 48 bytes before entry 10 does.
pub proof fn lemma_cert_entry_in_bounds(s: Seq<u8>)
    requires
        has_load_config(s),
    ensures
        0x40 <= cert_entry_offset(s),
        cert_entry_offset(s) + 8 <= s.len(),
{
    lemma_cert_entry_offset(s);
}

/// A machine-readable account of one image's header layout: everything the
/// transplant logic needs to know about where its certificate table lives.
pub struct PeLayout {
    /// Whether the optional-header magic names the 64-bit format.
    pub is_64: bool,
    /// File offset of the PE signature.
    pub pe_sig_offset: usize,
    /// File offset of the Certificate Table data-directory entry.
    pub cert_entry_offset: usize,
    /// Address field of the Certificate Table entry (a raw file offset).
    pub cert_va: u32,
    /// Size field of the Certificate Table entry.
    pub cert_size: u32,
}

/// Reads the header layout of `buf`. Returns `None` exactly when `buf` is
/// not a structurally sound PE image with a Load Config Table entry; a
/// `Some` result reports the fields the model ascribes to `buf`.
pub fn parse_layout(buf: &[u8]) -> (r: Option<PeLayout>)
    ensures
        r is Some <==> has_load_config(buf@),
        r matches Some(l) ==> ({
            &&& l.is_64 == spec_is_64(buf@)
            &&& l.pe_sig_offset == pe_sig_offset(buf@)
            &&& l.cert_entry_offset == cert_entry_offset(buf@)
            &&& 0x40 <= l.cert_entry_offset
            &&& l.cert_entry_offset + 8 <= buf@.len()
            &&& l.cert_va == spec_cert_va(buf@)
            &&& l.cert_size == spec_cert_size(buf@)
        }),
{
    let n: usize = buf.len();
    if n < PE_POINTER_OFFSET + 4 {
        return None;
    }
    if buf[0] != DOS_MAGIC_0 || buf[1] != DOS_MAGIC_1 {
        return None;
    }
    let p = read_u32_le(buf, PE_POINTER_OFFSET) as usize;
    if p > n || n - p < OPTIONAL_HEADER_DELTA + 2 {
        return None;
    }
    let rem: usize = n - p;
    if buf[p] != 0x50 || buf[p + 1] != 0x45 || buf[p + 2] != 0x00 || buf[p + 3] != 0x00 {
        return None;
    }
    if read_u16_le(buf, p + 20) == 0 {
        return None;
    }
    let magic = read_u16_le(buf, p + OPTIONAL_HEADER_DELTA);
    let is_64 = magic == OPTIONAL_MAGIC_64;
    if !is_64 && magic != OPTIONAL_MAGIC_32 {
        return None;
    }
    let count_delta: usize = if is_64 {
        DIRECTORY_COUNT_DELTA_64
    } else {
        DIRECTORY_COUNT_DELTA_32
    };
    if rem < OPTIONAL_HEADER_DELTA + count_delta + 4 {
        return None;
    }
    let count = read_u32_le(buf, p + OPTIONAL_HEADER_DELTA + count_delta);
    if count > DIRECTORY_COUNT_MAX {
        return None;
    }
    let table_delta: usize = if is_64 {
        DIRECTORY_TABLE_DELTA_64
    } else {
        DIRECTORY_TABLE_DELTA_32
    };
    if rem < OPTIONAL_HEADER_DELTA + table_delta + DIRECTORY_ENTRY_SIZE * (count as usize) {
        return None;
    }
    if count <= LOAD_CONFIG_TABLE_INDEX {
        return None;
    }
    let table: usize = p + OPTIONAL_HEADER_DELTA + table_delta;
    let lc: usize = table + DIRECTORY_ENTRY_SIZE * (LOAD_CONFIG_TABLE_INDEX as usize);
    let lc_va = read_u32_le(buf, lc);
    let lc_size = read_u32_le(buf, lc + 4);
    if lc_va == 0 && lc_size == 0 {
        return None;
    }
    let cert: usize = table + DIRECTORY_ENTRY_SIZE * (CERTIFICATE_TABLE_INDEX as usize);
    let cert_va = read_u32_le(buf, cert);
    let cert_size = read_u32_le(buf, cert + 4);
    proof {
        lemma_cert_entry_offset(buf@);
    }
    Some(
        PeLayout {
            is_64,
            pe_sig_offset: p,
            cert_entry_offset: cert,
            cert_va,
            cert_size,
        },
    )
}

} // verus!
