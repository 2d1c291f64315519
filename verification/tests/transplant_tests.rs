use sigtransplant::layout::parse_layout;
use sigtransplant::sniff::is_pe;
use sigtransplant::transplant::{extract, implant, PeError};

fn put_u16(v: &mut Vec<u8>, off: usize, val: u16) {
    let b = val.to_le_bytes();
    v[off] = b[0];
    v[off + 1] = b[1];
}

fn put_u32(v: &mut Vec<u8>, off: usize, val: u32) {
    let b = val.to_le_bytes();
    v[off] = b[0];
    v[off + 1] = b[1];
    v[off + 2] = b[2];
    v[off + 3] = b[3];
}

fn get_u32(v: &[u8], off: usize) -> u32 {
    u32::from_le_bytes([v[off], v[off + 1], v[off + 2], v[off + 3]])
}

/// Builds a minimal image that the layout model accepts: DOS magic, a PE
/// signature at `pe_off`, an optional header of the requested bitness, a
/// 16-entry data directory, and the given Load Config and Certificate Table
/// entries (`None` leaves the 8 bytes zero, the format's "absent").
fn make_pe(
    is_64: bool,
    total: usize,
    pe_off: u32,
    dir_count: u32,
    load_config: Option<(u32, u32)>,
    cert: Option<(u32, u32)>,
) -> Vec<u8> {
    let mut v = vec![0u8; total];
    v[0] = 0x4D;
    v[1] = 0x5A;
    put_u32(&mut v, 0x3C, pe_off);
    let p = pe_off as usize;
    v[p] = 0x50;
    v[p + 1] = 0x45;
    put_u16(&mut v, p + 20, 0xF0);
    put_u16(&mut v, p + 24, if is_64 { 0x20B } else { 0x10B });
    let (count_off, table_off) = if is_64 {
        (p + 24 + 108, p + 24 + 112)
    } else {
        (p + 24 + 92, p + 24 + 96)
    };
    put_u32(&mut v, count_off, dir_count);
    if let Some((va, sz)) = load_config {
        put_u32(&mut v, table_off + 80, va);
        put_u32(&mut v, table_off + 84, sz);
    }
    if let Some((va, sz)) = cert {
        put_u32(&mut v, table_off + 32, va);
        put_u32(&mut v, table_off + 36, sz);
    }
    v
}

fn sample_blob(len: usize) -> Vec<u8> {
    let mut g = Vec::with_capacity(len);
    for i in 0..len {
        g.push((i % 251) as u8);
    }
    g
}

#[test]
fn round_trip_64() {
    let target = make_pe(true, 1024, 0x80, 16, Some((0x300, 0x40)), None);
    let blob = sample_blob(200);
    let out = implant(&target, &blob).unwrap();
    assert_eq!(out.len(), 1024 + 200);
    let back = extract(&out).unwrap().unwrap();
    assert_eq!(back, blob);
}

#[test]
fn round_trip_32() {
    let target = make_pe(false, 1024, 0x80, 16, Some((0x300, 0x40)), None);
    let blob = sample_blob(200);
    let out = implant(&target, &blob).unwrap();
    assert_eq!(out.len(), 1024 + 200);
    let back = extract(&out).unwrap().unwrap();
    assert_eq!(back, blob);
}

#[test]
fn length_invariant() {
    let target = make_pe(true, 2048, 0x40, 16, Some((1, 0)), None);
    for len in [1usize, 7, 512] {
        let blob = sample_blob(len);
        let out = implant(&target, &blob).unwrap();
        assert_eq!(out.len(), target.len() + blob.len());
    }
}

#[test]
fn directory_entry_bytes_64() {
    let target = make_pe(true, 1024, 0x80, 16, Some((0x300, 0x40)), None);
    let blob = sample_blob(96);
    let out = implant(&target, &blob).unwrap();
    let entry = 0x80 + 0xA8;
    assert_eq!(get_u32(&out, entry), 1024);
    assert_eq!(get_u32(&out, entry + 4), 96);
}

#[test]
fn directory_entry_bytes_32() {
    let target = make_pe(false, 1024, 0x80, 16, Some((0x300, 0x40)), None);
    let blob = sample_blob(96);
    let out = implant(&target, &blob).unwrap();
    let entry = 0x80 + 0x98;
    assert_eq!(get_u32(&out, entry), 1024);
    assert_eq!(get_u32(&out, entry + 4), 96);
}

#[test]
fn bitness_picks_one_offset() {
    // Implanting writes only at the offset of the image's own bitness: the
    // other constant's location keeps its original bytes.
    let t32 = make_pe(false, 1024, 0x80, 16, Some((0x300, 0x40)), None);
    let out32 = implant(&t32, &sample_blob(64)).unwrap();
    assert_eq!(get_u32(&out32, 0x80 + 0x98), 1024);
    assert_eq!(get_u32(&out32, 0x80 + 0xA8), 0);
    assert_eq!(get_u32(&out32, 0x80 + 0xA8 + 4), 0);

    let t64 = make_pe(true, 1024, 0x80, 16, Some((0x300, 0x40)), None);
    let out64 = implant(&t64, &sample_blob(64)).unwrap();
    assert_eq!(get_u32(&out64, 0x80 + 0xA8), 1024);
    assert_eq!(get_u32(&out64, 0x80 + 0x98), 0);
    assert_eq!(get_u32(&out64, 0x80 + 0x98 + 4), 0);
}

#[test]
fn implant_keeps_other_bytes() {
    let mut target = make_pe(true, 1024, 0x80, 16, Some((0x300, 0x40)), None);
    for i in 600..1024 {
        target[i] = (i % 157) as u8;
    }
    let blob = sample_blob(32);
    let out = implant(&target, &blob).unwrap();
    let entry = 0x80 + 0xA8;
    for i in 0..1024 {
        if !(entry <= i && i < entry + 8) {
            assert_eq!(out[i], target[i]);
        }
    }
    assert_eq!(&out[1024..], &blob[..]);
}

#[test]
fn extract_absent_when_no_certificate_entry() {
    let buf = make_pe(true, 1024, 0x80, 16, Some((0x300, 0x40)), None);
    assert_eq!(extract(&buf), Ok(None));
}

#[test]
fn extract_absent_when_size_zero() {
    // A zero size field is "no signature", never an empty-but-present blob.
    let buf = make_pe(true, 1024, 0x80, 16, Some((0x300, 0x40)), Some((512, 0)));
    assert_eq!(extract(&buf), Ok(None));
}

#[test]
fn extract_absent_on_non_pe_input() {
    assert_eq!(extract(&[]), Ok(None));
    assert_eq!(extract(&vec![0u8; 100]), Ok(None));
    let mut short = vec![0u8; 10];
    short[0] = 0x4D;
    short[1] = 0x5A;
    assert_eq!(extract(&short), Ok(None));
    let mut bad_magic = make_pe(true, 1024, 0x80, 16, Some((0x300, 0x40)), Some((512, 16)));
    put_u16(&mut bad_magic, 0x80 + 24, 0x30B);
    assert_eq!(extract(&bad_magic), Ok(None));
}

#[test]
fn extract_absent_without_load_config() {
    // No Load Config entry at all.
    let buf = make_pe(true, 1024, 0x80, 16, None, Some((512, 16)));
    assert_eq!(extract(&buf), Ok(None));
    // The directory count stops short of the Load Config index.
    let buf = make_pe(true, 1024, 0x80, 10, Some((0x300, 0x40)), Some((512, 16)));
    assert_eq!(extract(&buf), Ok(None));
}

#[test]
fn extract_rejects_out_of_bounds_range() {
    let buf = make_pe(true, 1024, 0x80, 16, Some((0x300, 0x40)), Some((1000, 100)));
    assert_eq!(extract(&buf), Err(PeError::MalformedDirectoryEntry));
    let buf = make_pe(true, 1024, 0x80, 16, Some((0x300, 0x40)), Some((0xFFFF_FF00, 0x200)));
    assert_eq!(extract(&buf), Err(PeError::MalformedDirectoryEntry));
}

#[test]
fn extract_in_bounds_content() {
    let mut buf = make_pe(true, 1024, 0x80, 16, Some((0x300, 0x40)), Some((900, 100)));
    for i in 900..1000 {
        buf[i] = (i % 201) as u8;
    }
    let sig = extract(&buf).unwrap().unwrap();
    assert_eq!(&sig[..], &buf[900..1000]);
}

#[test]
fn implant_refuses_unsupported_image() {
    assert_eq!(
        implant(&vec![0u8; 512], &sample_blob(16)),
        Err(PeError::UnsupportedImage)
    );
    let no_lc = make_pe(true, 1024, 0x80, 16, None, None);
    assert_eq!(implant(&no_lc, &sample_blob(16)), Err(PeError::UnsupportedImage));
    let short_count = make_pe(true, 1024, 0x80, 10, Some((0x300, 0x40)), None);
    assert_eq!(
        implant(&short_count, &sample_blob(16)),
        Err(PeError::UnsupportedImage)
    );
}

#[test]
fn end_to_end_scenario() {
    // A signed donor with a 4096-byte certificate table at file offset
    // 102400, and a 40960-byte 64-bit unsigned target.
    let mut signed = make_pe(true, 106496, 0x80, 16, Some((0x300, 0x40)), Some((102400, 4096)));
    for i in 102400..106496 {
        signed[i] = (i % 251) as u8;
    }
    let unsigned = make_pe(true, 40960, 0x80, 16, Some((0x300, 0x40)), None);

    let sig = extract(&signed).unwrap().unwrap();
    assert_eq!(sig.len(), 4096);
    assert_eq!(&sig[..], &signed[102400..106496]);

    let out = implant(&unsigned, &sig).unwrap();
    assert_eq!(out.len(), 45056);
    assert_eq!(&out[40960..45056], &signed[102400..106496]);
    let entry = 0x80 + 0xA8;
    assert_eq!(get_u32(&out, entry), 40960);
    assert_eq!(get_u32(&out, entry + 4), 4096);

    let back = extract(&out).unwrap().unwrap();
    assert_eq!(back, sig);
}

#[test]
fn parse_layout_reports_fields() {
    let buf = make_pe(true, 1024, 0x80, 16, Some((0x300, 0x40)), Some((900, 100)));
    let l = parse_layout(&buf).unwrap();
    assert!(l.is_64);
    assert_eq!(l.pe_sig_offset, 0x80);
    assert_eq!(l.cert_entry_offset, 0x80 + 0xA8);
    assert_eq!(l.cert_va, 900);
    assert_eq!(l.cert_size, 100);
    assert!(parse_layout(&vec![0u8; 64]).is_none());
}

#[test]
fn sniff_accepts_dos_magic_only() {
    let mut pe = [0u8; 16];
    pe[0] = 0x4D;
    pe[1] = 0x5A;
    assert!(is_pe(&pe));

    let elf = [0x7F, 0x45, 0x4C, 0x46, 2, 1, 1, 0, 0, 0, 0, 0, 0, 0, 0, 0];
    assert!(!is_pe(&elf));
    assert!(!is_pe(&[0u8; 16]));
    let mut half = [0u8; 16];
    half[0] = 0x4D;
    assert!(!is_pe(&half));
}
