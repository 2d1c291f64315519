//! The two transplant operations: extracting the Authenticode blob that a
//! signed image's certificate table points at, and implanting such a blob
//! into another image by patching its certificate-table entry and appending
//! the blob at end of file.

use vstd::prelude::*;
use crate::le::{u32_le_at, store_u32_le, lemma_store_u32_le, write_u32_le};
use crate::layout::{
    has_load_config, spec_is_64, pe_sig_offset, cert_entry_offset, spec_cert_va, spec_cert_size,
    lemma_cert_entry_offset, lemma_cert_entry_in_bounds, parse_layout, has_pe_signature,
    has_optional_header, spec_opt_magic, dir_count_offset, spec_dir_count, wf_directories,
    dir_table_offset, spec_dir_va, spec_dir_size,
};

verus! {

/// Why an operation refused an image.
#[derive(Clone, Copy, Debug, PartialEq, Eq, Structural)]
pub enum PeError {
    /// The image has no optional header or no Load Config Table entry, so
    /// the certificate-table offset arithmetic cannot be trusted.
    UnsupportedImage,
    /// A declared offset or size leaves the buffer, or would overflow.
    MalformedDirectoryEntry,
}

/// A certificate table is declared: the image is structurally sound, carries
/// the Load Config gate entry, and its Certificate Table entry has a nonzero
/// size. A zero size means "no signature", never an empty-but-present one.
pub open spec fn signature_declared(s: Seq<u8>) -> bool {
    &&& has_load_config(s)
    &&& spec_cert_size(s) != 0
}

/// The declared certificate-table range lies inside the buffer.
pub open spec fn signature_bounds_ok(s: Seq<u8>) -> bool {
    spec_cert_va(s) + spec_cert_size(s) <= s.len()
}

/// The bytes the certificate table points at: the half-open range starting
/// at the entry's address field (a raw file offset) of its size field's
/// length.
pub open spec fn spec_signature(s: Seq<u8>) -> Seq<u8> {
    s.subrange(spec_cert_va(s) as int, spec_cert_va(s) + spec_cert_size(s))
}

/// What `extract` returns on `s`: the declared signature bytes, `None` when
/// no signature is declared, an error when the declared range leaves the
/// buffer.
pub open spec fn spec_extract(s: Seq<u8>) -> Result<Option<Seq<u8>>, PeError> {
    if !signature_declared(s) {
        Ok(None)
    } else if !signature_bounds_ok(s) {
        Err(PeError::MalformedDirectoryEntry)
    } else {
        Ok(Some(spec_signature(s)))
    }
}

/// `t` with its Certificate Table entry overwritten to point just past the
/// original end of file with the blob's length, and the blob appended.
pub open spec fn spec_implant_image(t: Seq<u8>, g: Seq<u8>) -> Seq<u8> {
    store_u32_le(
        store_u32_le(t, cert_entry_offset(t), t.len() as u32),
        cert_entry_offset(t) + 4,
        g.len() as u32,
    ) + g
}

/// What `implant` returns on target `t` and blob `g`: the patched image, or
/// the error naming what stopped it.
pub open spec fn spec_implant(t: Seq<u8>, g: Seq<u8>) -> Result<Seq<u8>, PeError> {
    if !has_load_config(t) {
        Err(PeError::UnsupportedImage)
    } else if t.len() > u32::MAX || g.len() > u32::MAX {
        Err(PeError::MalformedDirectoryEntry)
    } else {
        Ok(spec_implant_image(t, g))
    }
}

/// Appends `src[start .. end]` to `out`.
fn push_range(out: &mut Vec<u8>, src: &[u8], start: usize, end: usize)
    requires
        start <= end,
        end <= src@.len(),
    ensures
        final(out)@ == old(out)@ + src@.subrange(start as int, end as int),
{
    let mut i: usize = start;
    proof {
        assert(out@ =~= out@ + src@.subrange(start as int, start as int));
    }
    while i < end
        invariant
            start <= i <= end,
            end <= src@.len(),
            out@ == old(out)@ + src@.subrange(start as int, i as int),
        decreases end - i,
    {
        out.push(src[i]);
        i = i + 1;
        proof {
            assert(out@ =~= old(out)@ + src@.subrange(start as int, i as int));
        }
    }
}

/// Locates the certificate table of `buf` and hands back a copy of the bytes
/// it points at. Absence — a buffer that is not a sound PE image, has no
/// Load Config Table entry, or declares a zero-size certificate table — is
/// the `Ok(None)` outcome, not an error; a declared range that leaves the
/// buffer is refused instead of being read.
pub fn extract(buf: &[u8]) -> (r: Result<Option<Vec<u8>>, PeError>)
    ensures
        match r {
            Ok(None) => spec_extract(buf@) == Ok::<Option<Seq<u8>>, PeError>(None),
            Ok(Some(sig)) => spec_extract(buf@) == Ok::<Option<Seq<u8>>, PeError>(Some(sig@)),
            Err(e) => spec_extract(buf@) == Err::<Option<Seq<u8>>, PeError>(e),
        },
        r matches Ok(Some(sig)) ==> sig@.len() > 0,
{
    let n: usize = buf.len();
    match parse_layout(buf) {
        None => Ok(None),
        Some(l) => {
            if l.cert_size == 0 {
                return Ok(None);
            }
            let start = l.cert_va as usize;
            let size = l.cert_size as usize;
            if start > n || n - start < size {
                return Err(PeError::MalformedDirectoryEntry);
            }
            let mut out: Vec<u8> = Vec::new();
            push_range(&mut out, buf, start, start + size);
            Ok(Some(out))
        },
    }
}

/// Implants blob `g` into target image `t`: the result is `t` with its
/// Certificate Table entry rewritten to `{ address: t.len(), size: g.len() }`
/// and `g` appended, so the signature lives at the very end of the new file.
/// The target buffer itself is never modified.
pub fn implant(target: &[u8], signature: &[u8]) -> (r: Result<Vec<u8>, PeError>)
    ensures
        match r {
            Ok(out) => spec_implant(target@, signature@) == Ok::<Seq<u8>, PeError>(out@),
            Err(e) => spec_implant(target@, signature@) == Err::<Seq<u8>, PeError>(e),
        },
        r matches Ok(out) ==> ({
            &&& out@.len() == target@.len() + signature@.len()
            &&& u32_le_at(out@, cert_entry_offset(target@)) == target@.len()
            &&& u32_le_at(out@, cert_entry_offset(target@) + 4) == signature@.len()
            &&& out@.subrange(target@.len() as int, out@.len() as int) == signature@
            &&& forall|j: int|
                0 <= j < target@.len() && !(cert_entry_offset(target@) <= j < cert_entry_offset(
                    target@,
                ) + 8) ==> out@[j] == target@[j]
        }),
{
    let n: usize = target.len();
    let m: usize = signature.len();
    match parse_layout(target) {
        None => Err(PeError::UnsupportedImage),
        Some(l) => {
            if n > u32::MAX as usize || m > u32::MAX as usize {
                return Err(PeError::MalformedDirectoryEntry);
            }
            let mut out: Vec<u8> = Vec::new();
            push_range(&mut out, target, 0, n);
            proof {
                assert(out@ =~= target@);
            }
            write_u32_le(&mut out, l.cert_entry_offset, n as u32);
            write_u32_le(&mut out, l.cert_entry_offset + 4, m as u32);
            push_range(&mut out, signature, 0, m);
            proof {
                let t = target@;
                let g = signature@;
                let co = cert_entry_offset(t);
                assert(g.subrange(0, m as int) =~= g);
                assert(out@ =~= spec_implant_image(t, g));
                lemma_cert_entry_in_bounds(t);
                lemma_store_u32_le(t, co, t.len() as u32);
                lemma_store_u32_le(store_u32_le(t, co, t.len() as u32), co + 4, g.len() as u32);
                lemma_implant_image_fields(t, g);
            }
            Ok(out)
        },
    }
}

/// The certificate-table entry of an implanted image reads back as the
/// original length and the blob's length, every byte outside that entry and
/// below the original end is kept, and the blob sits at the very end.
pub proof fn lemma_implant_image_fields(t: Seq<u8>, g: Seq<u8>)
    requires
        has_load_config(t),
        t.len() <= u32::MAX,
        g.len() <= u32::MAX,
    ensures
        spec_implant_image(t, g).len() == t.len() + g.len(),
        u32_le_at(spec_implant_image(t, g), cert_entry_offset(t)) == t.len(),
        u32_le_at(spec_implant_image(t, g), cert_entry_offset(t) + 4) == g.len(),
        spec_implant_image(t, g).subrange(t.len() as int, (t.len() + g.len()) as int) == g,
        forall|j: int|
            0 <= j < t.len() && !(cert_entry_offset(t) <= j < cert_entry_offset(t) + 8)
                ==> spec_implant_image(t, g)[j] == t[j],
{
    let co = cert_entry_offset(t);
    lemma_cert_entry_in_bounds(t);
    let s1 = store_u32_le(t, co, t.len() as u32);
    let s2 = store_u32_le(s1, co + 4, g.len() as u32);
    let out = s2 + g;
    lemma_store_u32_le(t, co, t.len() as u32);
    lemma_store_u32_le(s1, co + 4, g.len() as u32);
    assert(u32_le_at(out, co) == u32_le_at(s2, co));
    assert(u32_le_at(s2, co) == u32_le_at(s1, co));
    assert(out.subrange(t.len() as int, (t.len() + g.len()) as int) =~= g);
    assert forall|j: int|
        0 <= j < t.len() && !(co <= j < co + 8) implies spec_implant_image(t, g)[j] == t[j] by {
        assert(s1[j] == t[j]);
        assert(s2[j] == s1[j]);
        assert(out[j] == s2[j]);
    }
}

/// The round trip: implanting a nonempty blob into any image that passes
/// the Load Config gate succeeds, and extracting from the implanted image
/// yields exactly the blob that went in — same bytes, not merely the same
/// length.
pub proof fn lemma_signature_round_trip(t: Seq<u8>, g: Seq<u8>)
    requires
        has_load_config(t),
        t.len() <= u32::MAX,
        0 < g.len() <= u32::MAX,
    ensures
        spec_implant(t, g) == Ok::<Seq<u8>, PeError>(spec_implant_image(t, g)),
        spec_extract(spec_implant_image(t, g)) == Ok::<Option<Seq<u8>>, PeError>(Some(g)),
{
    let co = cert_entry_offset(t);
    let p = pe_sig_offset(t);
    let out = spec_implant_image(t, g);
    lemma_cert_entry_in_bounds(t);
    lemma_cert_entry_offset(t);
    lemma_implant_image_fields(t, g);

    // Every header field either operation reads lies below the rewritten
    // entry or beyond it, so the implanted image parses as the target did.
    assert(pe_sig_offset(out) == p);
    assert(has_pe_signature(out));
    assert(spec_opt_magic(out) == spec_opt_magic(t));
    assert(spec_is_64(out) == spec_is_64(t));
    assert(has_optional_header(out));
    assert(dir_count_offset(out) == dir_count_offset(t));
    assert(spec_dir_count(out) == spec_dir_count(t));
    assert(wf_directories(out));
    assert(dir_table_offset(out) == dir_table_offset(t));
    assert(spec_dir_va(out, 10) == spec_dir_va(t, 10));
    assert(spec_dir_size(out, 10) == spec_dir_size(t, 10));
    assert(has_load_config(out));
    assert(cert_entry_offset(out) == co);

    assert(spec_cert_va(out) == t.len());
    assert(spec_cert_size(out) == g.len());
    assert(signature_declared(out));
    assert(signature_bounds_ok(out));
    assert(spec_signature(out) == g);
}

} // verus!
