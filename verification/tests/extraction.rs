use std::io::Write;
use tar_extract::envelope::Envelope;
use tar_extract::extract::{
    extract_archive, extract_tar, extract_tar_bz2, extract_tar_gz, extract_tar_xz, ExtractError,
    PlannedAction, PlannedEntry,
};

fn octal_field(n: u64) -> [u8; 12] {
    let mut f = [b'0'; 12];
    f[11] = 0;
    let mut v = n;
    let mut i = 10usize;
    while i > 0 {
        f[i] = b'0' + (v % 8) as u8;
        v /= 8;
        i -= 1;
    }
    f[0] = b'0' + (v % 8) as u8;
    f
}

fn tar_header(name: &[u8], size: u64, typeflag: u8, link: &[u8]) -> Vec<u8> {
    tar_header_full(name, size, typeflag, link, b"0000755\0", false)
}

fn tar_header_full(
    name: &[u8],
    size: u64,
    typeflag: u8,
    link: &[u8],
    mode_field: &[u8; 8],
    ustar: bool,
) -> Vec<u8> {
    let mut h = vec![0u8; 512];
    h[..name.len()].copy_from_slice(name);
    h[100..108].copy_from_slice(mode_field);
    h[108..116].copy_from_slice(b"0000000\0");
    h[116..124].copy_from_slice(b"0000000\0");
    h[124..136].copy_from_slice(&octal_field(size));
    h[136..148].copy_from_slice(&octal_field(0));
    for b in h[148..156].iter_mut() {
        *b = b' ';
    }
    h[156] = typeflag;
    h[157..157 + link.len()].copy_from_slice(link);
    if ustar {
        h[257..263].copy_from_slice(b"ustar\0");
        h[263..265].copy_from_slice(b"00");
    }
    let sum: u64 = h.iter().map(|&b| b as u64).sum();
    let cks = octal_field(sum);
    h[148..154].copy_from_slice(&cks[5..11]);
    h[154] = 0;
    h[155] = b' ';
    h
}

fn tar_archive(entries: &[(&[u8], u8, &[u8], &[u8])]) -> Vec<u8> {
    let mut out = Vec::new();
    for (name, flag, content, link) in entries {
        out.extend_from_slice(&tar_header(name, content.len() as u64, *flag, link));
        out.extend_from_slice(content);
        let pad = (512 - content.len() % 512) % 512;
        out.extend_from_slice(&vec![0u8; pad]);
    }
    out.extend_from_slice(&[0u8; 1024]);
    out
}

fn gzip(data: &[u8]) -> Vec<u8> {
    let mut enc = flate2::write::GzEncoder::new(Vec::new(), flate2::Compression::default());
    enc.write_all(data).unwrap();
    enc.finish().unwrap()
}

fn xz(data: &[u8]) -> Vec<u8> {
    let mut enc = xz2::write::XzEncoder::new(Vec::new(), 6);
    enc.write_all(data).unwrap();
    enc.finish().unwrap()
}

fn bz2(data: &[u8]) -> Vec<u8> {
    let mut enc = bzip2::write::BzEncoder::new(Vec::new(), bzip2::Compression::default());
    enc.write_all(data).unwrap();
    enc.finish().unwrap()
}

fn sample_archive() -> Vec<u8> {
    tar_archive(&[
        (b"data/", b'5', b"", b""),
        (b"data/readme.txt", b'0', b"hello", b""),
        (b"data/notes.txt", b'0', b"some longer content, spanning one block", b""),
    ])
}

fn assert_sample_plan(plan: &[PlannedEntry]) {
    assert_eq!(plan.len(), 3);
    assert_eq!(plan[0].output_path, "out/data/");
    assert_eq!(plan[0].type_flag, b'5');
    assert_eq!(plan[0].action, PlannedAction::Dir);
    assert_eq!(plan[0].mode, Some(0o755));
    assert_eq!(plan[0].content, b"");
    assert_eq!(plan[0].file_name.as_deref(), Some("data"));
    assert_eq!(plan[1].output_path, "out/data/readme.txt");
    assert_eq!(plan[1].type_flag, b'0');
    assert_eq!(plan[1].action, PlannedAction::File);
    assert_eq!(plan[1].mode, Some(0o755));
    assert_eq!(plan[1].content, b"hello");
    assert_eq!(plan[1].file_name.as_deref(), Some("readme.txt"));
    assert_eq!(plan[2].output_path, "out/data/notes.txt");
    assert_eq!(plan[2].action, PlannedAction::File);
    assert_eq!(plan[2].content, b"some longer content, spanning one block");
}

#[test]
fn extracts_plain_tar_scenario() {
    let plan = extract_tar(&sample_archive(), "out").unwrap();
    assert_sample_plan(&plan);
}

#[test]
fn extracts_all_envelopes() {
    let raw = sample_archive();
    assert_sample_plan(&extract_tar(&raw, "out").unwrap());
    assert_sample_plan(&extract_tar_gz(&gzip(&raw), "out").unwrap());
    assert_sample_plan(&extract_tar_xz(&xz(&raw), "out").unwrap());
    assert_sample_plan(&extract_tar_bz2(&bz2(&raw), "out").unwrap());
}

#[test]
fn extract_archive_dispatches_by_envelope() {
    let raw = sample_archive();
    assert_sample_plan(&extract_archive(Envelope::Plain, &raw, "out").unwrap());
    assert_sample_plan(&extract_archive(Envelope::Gzip, &gzip(&raw), "out").unwrap());
    assert_sample_plan(&extract_archive(Envelope::Xz, &xz(&raw), "out").unwrap());
    assert_sample_plan(&extract_archive(Envelope::Bzip2, &bz2(&raw), "out").unwrap());
}

#[test]
fn empty_archive_yields_no_entries() {
    let empty = vec![0u8; 1024];
    let plan = extract_tar(&empty, "out").unwrap();
    assert_eq!(plan.len(), 0);
}

#[test]
fn non_utf8_path_is_extracted() {
    let name: &[u8] = b"f\xFFile.txt";
    let archive = tar_archive(&[(name, b'0', b"x", b"")]);
    let plan = extract_tar(&archive, "out").unwrap();
    assert_eq!(plan.len(), 1);
    assert!(!plan[0].output_path.is_empty());
    assert!(plan[0].output_path.starts_with("out/"));
    assert_eq!(plan[0].output_path, "out/f\u{FF}ile.txt");
    assert_eq!(plan[0].file_name.as_deref(), Some("f\u{FF}ile.txt"));
    assert_eq!(plan[0].content, b"x");
}

#[test]
fn truncated_archive_fails() {
    let good = sample_archive();
    let mut bad = vec![0u8; good.len()];
    bad[..10].copy_from_slice(&good[..10]);
    let r = extract_tar(&bad, "out");
    assert_eq!(r.unwrap_err(), ExtractError::Archive);
}

#[test]
fn gzip_of_non_tar_fails_with_archive_error() {
    let not_tar = gzip(b"this payload is valid gzip but in no way a tar stream");
    let r = extract_tar_gz(&not_tar, "out");
    assert_eq!(r.unwrap_err(), ExtractError::Archive);
}

#[test]
fn non_gzip_fails_with_codec_error() {
    let r = extract_tar_gz(b"definitely not gzip data", "out");
    assert_eq!(r.unwrap_err(), ExtractError::Codec);
}

#[test]
fn non_xz_fails_with_codec_error() {
    let r = extract_tar_xz(b"definitely not xz data", "out");
    assert_eq!(r.unwrap_err(), ExtractError::Codec);
}

#[test]
fn non_bzip2_fails_with_codec_error() {
    let r = extract_tar_bz2(b"definitely not bzip2 data", "out");
    assert_eq!(r.unwrap_err(), ExtractError::Codec);
}

#[test]
fn later_duplicate_entry_is_planned_after_earlier_one() {
    let archive = tar_archive(&[
        (b"same.txt", b'0', b"first", b""),
        (b"same.txt", b'0', b"second", b""),
    ]);
    let plan = extract_tar(&archive, "out").unwrap();
    assert_eq!(plan.len(), 2);
    assert_eq!(plan[0].output_path, plan[1].output_path);
    assert_eq!(plan[0].content, b"first");
    assert_eq!(plan[1].content, b"second");
}

#[test]
fn symlink_entry_carries_decoded_target() {
    let archive = tar_archive(&[(b"ln", b'2', b"", b"data/readme.txt")]);
    let plan = extract_tar(&archive, "out").unwrap();
    assert_eq!(plan.len(), 1);
    assert_eq!(plan[0].type_flag, b'2');
    assert_eq!(plan[0].action, PlannedAction::Symlink);
    assert_eq!(plan[0].link_target.as_deref(), Some("data/readme.txt"));
}

#[test]
fn hard_link_entry_is_planned_as_hard_link() {
    let archive = tar_archive(&[(b"copy.txt", b'1', b"", b"data/readme.txt")]);
    let plan = extract_tar(&archive, "out").unwrap();
    assert_eq!(plan.len(), 1);
    assert_eq!(plan[0].action, PlannedAction::HardLink);
    assert_eq!(plan[0].link_target.as_deref(), Some("data/readme.txt"));
}

#[test]
fn pax_global_header_is_skipped() {
    let archive = tar_archive(&[
        (b"pax_global_header", b'g', b"52 comment=0123456789abcdef\n", b""),
        (b"real.txt", b'0', b"payload", b""),
    ]);
    let plan = extract_tar(&archive, "out").unwrap();
    assert_eq!(plan.len(), 2);
    assert_eq!(plan[0].action, PlannedAction::Skip);
    assert_eq!(plan[1].action, PlannedAction::File);
    assert_eq!(plan[1].output_path, "out/real.txt");
    assert_eq!(plan[1].content, b"payload");
}

#[test]
fn old_style_trailing_slash_entry_is_a_directory() {
    let archive = tar_archive(&[(b"olddir/", b'0', b"", b"")]);
    let plan = extract_tar(&archive, "out").unwrap();
    assert_eq!(plan.len(), 1);
    assert_eq!(plan[0].action, PlannedAction::Dir);
    assert_eq!(plan[0].output_path, "out/olddir/");
}

#[test]
fn ustar_trailing_slash_regular_entry_stays_a_file() {
    let mut archive = tar_header_full(b"notdir/", 1, b'0', b"", b"0000644\0", true);
    archive.extend_from_slice(b"x");
    archive.extend_from_slice(&vec![0u8; 511]);
    archive.extend_from_slice(&[0u8; 1024]);
    let plan = extract_tar(&archive, "out").unwrap();
    assert_eq!(plan.len(), 1);
    assert_eq!(plan[0].action, PlannedAction::File);
    assert_eq!(plan[0].mode, Some(0o644));
}

#[test]
fn unrecognized_type_flag_is_planned_as_file() {
    let archive = tar_archive(&[(b"odd.bin", b'Z', b"zz", b"")]);
    let plan = extract_tar(&archive, "out").unwrap();
    assert_eq!(plan.len(), 1);
    assert_eq!(plan[0].action, PlannedAction::File);
    assert_eq!(plan[0].content, b"zz");
}

#[test]
fn setuid_bits_are_masked_from_planned_mode() {
    let mut archive = tar_header_full(b"tool", 0, b'0', b"", b"0004755\0", false);
    archive.extend_from_slice(&[0u8; 1024]);
    let plan = extract_tar(&archive, "out").unwrap();
    assert_eq!(plan.len(), 1);
    assert_eq!(plan[0].mode, Some(0o755));
}

#[test]
fn unparseable_mode_field_yields_no_planned_mode() {
    let mut archive = tar_header_full(b"noperm", 0, b'0', b"", b"zzzzzzz\0", false);
    archive.extend_from_slice(&[0u8; 1024]);
    let plan = extract_tar(&archive, "out").unwrap();
    assert_eq!(plan.len(), 1);
    assert_eq!(plan[0].mode, None);
    assert_eq!(plan[0].action, PlannedAction::File);
}

#[test]
fn message_keys_per_envelope() {
    assert_eq!(Envelope::Plain.message_key(), "progress.extracting_tar");
    assert_eq!(Envelope::Gzip.message_key(), "progress.extracting_tar_gz");
    assert_eq!(Envelope::Xz.message_key(), "progress.extracting_tar_xz");
    assert_eq!(Envelope::Bzip2.message_key(), "progress.extracting_tar_bz2");
}
