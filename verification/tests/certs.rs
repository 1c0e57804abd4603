use std::io::Write;

use protoglot::certs::CertKey;
use protoglot::certs::ProvisionError;
use protoglot::certs::decode_bundle;
use protoglot::certs::extract_bundle;
use protoglot::certs::gen_private_ca;
use protoglot::certs::gen_self_signed;
use protoglot::certs::validity_interval;

#[test]
fn validity_window_is_one_day_back_one_year_ahead() {
    let (start, end) = validity_interval(1_000_000);
    assert_eq!(start, 913_600);
    assert_eq!(end, 32_536_000);
}

#[test]
fn bundle_extraction_picks_the_named_entries() {
    let entries = vec![
        ("privkey.pem".to_string(), "KEY".to_string()),
        ("unrelated.txt".to_string(), "x".to_string()),
        ("fullchain.pem".to_string(), "CERT".to_string()),
    ];
    let ck: CertKey = extract_bundle(&entries);
    assert_eq!(ck.key_pem, "KEY");
    assert_eq!(ck.cert_pem, "CERT");
}

#[test]
fn bundle_extraction_leaves_missing_parts_empty() {
    let entries = vec![("fullchain.pem".to_string(), "CERT".to_string())];
    let ck = extract_bundle(&entries);
    assert_eq!(ck.key_pem, "");
    assert_eq!(ck.cert_pem, "CERT");
}

#[test]
fn bundle_extraction_concatenates_repeated_entries() {
    let entries = vec![
        ("privkey.pem".to_string(), "A".to_string()),
        ("privkey.pem".to_string(), "B".to_string()),
    ];
    let ck = extract_bundle(&entries);
    assert_eq!(ck.key_pem, "AB");
}

fn tar_gz_with(entries: &[(&str, &str)]) -> Vec<u8> {
    let mut builder = tar::Builder::new(Vec::new());
    for (name, contents) in entries {
        let mut header = tar::Header::new_gnu();
        header.set_size(contents.len() as u64);
        header.set_cksum();
        builder
            .append_data(&mut header, name, contents.as_bytes())
            .unwrap();
    }
    let tar_bytes = builder.into_inner().unwrap();
    let mut encoder = flate2::write::GzEncoder::new(Vec::new(), flate2::Compression::default());
    encoder.write_all(&tar_bytes).unwrap();
    encoder.finish().unwrap()
}

#[test]
fn bundle_decoding_reads_a_real_archive() {
    let archive = tar_gz_with(&[
        ("privkey.pem", "THE KEY\n"),
        ("fullchain.pem", "THE CHAIN\n"),
        ("readme.txt", "ignored\n"),
    ]);
    let ck = decode_bundle(&archive).unwrap();
    assert_eq!(ck.key_pem, "THE KEY\n");
    assert_eq!(ck.cert_pem, "THE CHAIN\n");
}

#[test]
fn bundle_decoding_rejects_garbage() {
    match decode_bundle(b"not a gzip archive") {
        Err(e) => assert_eq!(e, ProvisionError::BundleDecode),
        Ok(_) => panic!("garbage bytes must not decode"),
    }
}

#[test]
fn self_signed_generation_yields_pem_material() {
    let ck = gen_self_signed(1_720_000_000).unwrap();
    assert!(ck.key_pem.contains("BEGIN PRIVATE KEY"));
    assert!(ck.cert_pem.contains("BEGIN CERTIFICATE"));
}

#[test]
fn private_ca_generation_yields_leaf_and_ca() {
    let (ck, ca_pem) = gen_private_ca(1_720_000_000).unwrap();
    assert!(ck.key_pem.contains("BEGIN PRIVATE KEY"));
    assert!(ck.cert_pem.contains("BEGIN CERTIFICATE"));
    assert!(ca_pem.contains("BEGIN CERTIFICATE"));
}
