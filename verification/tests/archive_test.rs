use proto::archive::unpack;
use proto::error::ProtoError;
use std::io::Write;

fn tmp_root() -> (tempfile::TempDir, String) {
    let dir = tempfile::tempdir().unwrap();
    let path = dir.path().to_str().unwrap().to_string();
    (dir, path)
}

fn make_zip_bytes() -> Vec<u8> {
    let cursor = std::io::Cursor::new(Vec::new());
    let mut zip = zip::ZipWriter::new(cursor);
    let options = zip::write::FileOptions::default().unix_permissions(0o755);
    zip.start_file("pkg/bin/tool", options).unwrap();
    zip.write_all(b"#!tool\n").unwrap();
    zip.finish().unwrap().into_inner()
}

fn make_tar_bytes() -> Vec<u8> {
    let mut builder = tar::Builder::new(Vec::new());
    let content = b"#!tool\n";
    let mut header = tar::Header::new_gnu();
    header.set_size(content.len() as u64);
    header.set_mode(0o755);
    header.set_cksum();
    builder
        .append_data(&mut header, "pkg/bin/tool", content.as_slice())
        .unwrap();
    builder.into_inner().unwrap()
}

fn make_targz_bytes() -> Vec<u8> {
    let tar = make_tar_bytes();
    let mut enc = flate2::write::GzEncoder::new(Vec::new(), flate2::Compression::default());
    enc.write_all(&tar).unwrap();
    enc.finish().unwrap()
}

fn make_tarxz_bytes() -> Vec<u8> {
    let tar = make_tar_bytes();
    let mut enc = xz2::write::XzEncoder::new(Vec::new(), 6);
    enc.write_all(&tar).unwrap();
    enc.finish().unwrap()
}

fn on_disk(path: &str) -> bool {
    std::path::Path::new(path).exists()
}

#[test]
fn zip_round_trip_strips_prefix() {
    let (_keep, root) = tmp_root();
    let input = format!("{root}/archive.zip");
    let out = format!("{root}/out");
    starbase_utils::fs::write_file(&input, make_zip_bytes()).unwrap();
    let written = unpack(&input, &out, Some("pkg".to_string())).unwrap().unwrap();
    assert_eq!(written, vec![format!("{out}/bin/tool")]);
    assert!(on_disk(&format!("{out}/bin/tool")));
    assert!(!on_disk(&format!("{out}/pkg/bin/tool")));
    let content = starbase_utils::fs::read_file(format!("{out}/bin/tool")).unwrap();
    assert_eq!(content, "#!tool\n");
}

#[test]
fn targz_round_trip_strips_prefix() {
    let (_keep, root) = tmp_root();
    let input = format!("{root}/archive.tgz");
    let out = format!("{root}/out");
    starbase_utils::fs::write_file(&input, make_targz_bytes()).unwrap();
    let written = unpack(&input, &out, Some("pkg".to_string())).unwrap().unwrap();
    assert_eq!(written, vec![format!("{out}/bin/tool")]);
    assert!(on_disk(&format!("{out}/bin/tool")));
    assert!(!on_disk(&format!("{out}/pkg/bin/tool")));
}

#[test]
fn tarxz_round_trip_strips_prefix() {
    let (_keep, root) = tmp_root();
    let input = format!("{root}/archive.txz");
    let out = format!("{root}/out");
    starbase_utils::fs::write_file(&input, make_tarxz_bytes()).unwrap();
    let written = unpack(&input, &out, Some("pkg".to_string())).unwrap().unwrap();
    assert_eq!(written, vec![format!("{out}/bin/tool")]);
    assert!(on_disk(&format!("{out}/bin/tool")));
}

#[test]
fn prefix_is_not_stripped_recursively() {
    let (_keep, root) = tmp_root();
    let input = format!("{root}/archive.zip");
    let out = format!("{root}/out");
    let cursor = std::io::Cursor::new(Vec::new());
    let mut zip = zip::ZipWriter::new(cursor);
    let options = zip::write::FileOptions::default();
    zip.start_file("pkg/pkg/tool", options).unwrap();
    zip.write_all(b"nested").unwrap();
    let bytes = zip.finish().unwrap().into_inner();
    starbase_utils::fs::write_file(&input, bytes).unwrap();
    let written = unpack(&input, &out, Some("pkg".to_string())).unwrap().unwrap();
    assert_eq!(written, vec![format!("{out}/pkg/tool")]);
    assert!(on_disk(&format!("{out}/pkg/tool")));
}

#[test]
fn unpack_without_prefix_keeps_layout() {
    let (_keep, root) = tmp_root();
    let input = format!("{root}/archive.zip");
    let out = format!("{root}/out");
    starbase_utils::fs::write_file(&input, make_zip_bytes()).unwrap();
    unpack(&input, &out, None).unwrap();
    assert!(on_disk(&format!("{out}/pkg/bin/tool")));
}

#[test]
fn unsupported_extension_is_an_error() {
    let (_keep, root) = tmp_root();
    let input = format!("{root}/archive.rar");
    let out = format!("{root}/out");
    starbase_utils::fs::write_file(&input, b"junk").unwrap();
    let err = unpack(&input, &out, None).unwrap_err();
    assert_eq!(err, ProtoError::UnsupportedArchiveFormat(input, "rar".to_string()));
}

#[test]
fn no_extension_is_not_an_archive() {
    let (_keep, root) = tmp_root();
    let input = format!("{root}/tool");
    let out = format!("{root}/out");
    starbase_utils::fs::write_file(&input, b"binary").unwrap();
    assert!(unpack(&input, &out, None).unwrap().is_none());
}

#[test]
fn exe_is_not_an_archive() {
    let (_keep, root) = tmp_root();
    let input = format!("{root}/tool.exe");
    let out = format!("{root}/out");
    starbase_utils::fs::write_file(&input, b"binary").unwrap();
    assert!(unpack(&input, &out, None).unwrap().is_none());
}

#[test]
fn corrupt_zip_is_a_zip_error() {
    let (_keep, root) = tmp_root();
    let input = format!("{root}/archive.zip");
    let out = format!("{root}/out");
    starbase_utils::fs::write_file(&input, b"this is no zip").unwrap();
    match unpack(&input, &out, None).unwrap_err() {
        ProtoError::Zip(path, _) => assert_eq!(path, input),
        other => panic!("expected a zip error, got {other:?}"),
    }
}

#[test]
fn entries_without_a_sanitized_path_are_skipped() {
    let (_keep, root) = tmp_root();
    let out = format!("{root}/out");
    let entries = vec![
        proto::archive::ArchiveEntry {
            path: None,
            data: b"evil".to_vec(),
            is_dir: false,
            mode: None,
        },
        proto::archive::ArchiveEntry {
            path: Some("ok.txt".to_string()),
            data: b"fine".to_vec(),
            is_dir: false,
            mode: None,
        },
    ];
    let written = proto::archive::extract_entries(&entries, &out, &None).unwrap();
    assert_eq!(written, vec![format!("{out}/ok.txt")]);
    assert!(on_disk(&format!("{out}/ok.txt")));
    let names = starbase_utils::fs::read_dir(&out)
        .unwrap()
        .len();
    assert_eq!(names, 1);
}
