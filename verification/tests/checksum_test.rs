use proto::checksum::{to_hex, verify_artifact, verify_checksum};
use proto::error::ProtoError;
use proto::host::sha256;

fn tmp_root() -> (tempfile::TempDir, String) {
    let dir = tempfile::tempdir().unwrap();
    let path = dir.path().to_str().unwrap().to_string();
    (dir, path)
}

#[test]
fn sha256_matches_known_vectors() {
    assert_eq!(
        to_hex(&sha256(&Vec::new())),
        "e3b0c44298fc1c149afbf4c8996fb92427ae41e4649b934ca495991b7852b855"
    );
    assert_eq!(
        to_hex(&sha256(&b"abc".to_vec())),
        "ba7816bf8f01cfea414140de5dae2223b00361a396177a9cb410ff61f20015ad"
    );
}

#[test]
fn to_hex_renders_each_byte_as_two_digits() {
    assert_eq!(to_hex(&vec![0x00, 0x0f, 0xa5, 0xff]), "000fa5ff");
    assert_eq!(to_hex(&Vec::new()), "");
}

#[test]
fn matching_line_verifies() {
    let artifact = b"artifact bytes".to_vec();
    let digest = to_hex(&sha256(&artifact));
    let text = format!("{digest}  node-v18.0.0-linux-x64.tar.xz\n");
    assert!(verify_artifact(
        &artifact,
        &text,
        &"node-v18.0.0-linux-x64.tar.xz".to_string()
    ));
}

#[test]
fn matching_line_among_others_verifies() {
    let artifact = b"artifact bytes".to_vec();
    let digest = to_hex(&sha256(&artifact));
    let other = to_hex(&sha256(&b"something else".to_vec()));
    let text = format!("{other}  other.tar.xz\n{digest}  node.tar.xz\n");
    assert!(verify_artifact(&artifact, &text, &"node.tar.xz".to_string()));
}

#[test]
fn wrong_digest_fails() {
    let artifact = b"artifact bytes".to_vec();
    let other = to_hex(&sha256(&b"tampered".to_vec()));
    let text = format!("{other}  node.tar.xz\n");
    assert!(!verify_artifact(&artifact, &text, &"node.tar.xz".to_string()));
}

#[test]
fn wrong_name_fails() {
    let artifact = b"artifact bytes".to_vec();
    let digest = to_hex(&sha256(&artifact));
    let text = format!("{digest}  other.tar.xz\n");
    assert!(!verify_artifact(&artifact, &text, &"node.tar.xz".to_string()));
}

#[test]
fn empty_checksum_file_always_fails() {
    let artifact = b"whatever content".to_vec();
    assert!(!verify_artifact(&artifact, &String::new(), &"node.tar.xz".to_string()));
}

#[test]
fn corrupt_checksum_file_always_fails() {
    let artifact = b"whatever content".to_vec();
    let text = "not a checksum line at all\n###\n".to_string();
    assert!(!verify_artifact(&artifact, &text, &"node.tar.xz".to_string()));
}

#[test]
#[should_panic(expected = "VerifyInvalidChecksum")]
fn errors_for_checksum_mismatch() {
    let (_keep, root) = tmp_root();
    let download = format!("{root}/node.tar.xz");
    let checksum = format!("{root}/SHASUMS256.txt");
    starbase_utils::fs::write_file(&download, b"artifact").unwrap();
    starbase_utils::fs::write_file(&checksum, b"").unwrap();
    verify_checksum(&download, &checksum, &"node.tar.xz".to_string()).unwrap();
}

#[test]
fn verify_checksum_accepts_a_good_file() {
    let (_keep, root) = tmp_root();
    let download = format!("{root}/node.tar.xz");
    let checksum = format!("{root}/SHASUMS256.txt");
    starbase_utils::fs::write_file(&download, b"artifact").unwrap();
    let digest = to_hex(&sha256(&b"artifact".to_vec()));
    starbase_utils::fs::write_file(&checksum, format!("{digest}  node.tar.xz\n")).unwrap();
    verify_checksum(&download, &checksum, &"node.tar.xz".to_string()).unwrap();
}

#[test]
fn verify_checksum_on_missing_file_is_a_filesystem_error() {
    let (_keep, root) = tmp_root();
    let download = format!("{root}/absent.tar.xz");
    let checksum = format!("{root}/absent.txt");
    let err = verify_checksum(&download, &checksum, &"x".to_string()).unwrap_err();
    assert!(matches!(err, ProtoError::Fs(_, _)));
}
