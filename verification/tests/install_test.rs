use proto::error::ProtoError;
use proto::installer::{plan_download, plan_install, Installable, InstallPlan};
use proto::platform::{HostArch, HostOS};
use proto::tool::{NodeLanguage, Proto};
use std::io::Write;

fn tmp_root() -> (tempfile::TempDir, String) {
    let dir = tempfile::tempdir().unwrap();
    let path = dir.path().to_str().unwrap().to_string();
    (dir, path)
}

fn node_at(root: &str) -> NodeLanguage {
    let proto = Proto::from_root(&root.to_string());
    let mut tool = NodeLanguage::new(&proto);
    tool.version = Some("18.0.0".to_string());
    tool
}

fn make_targz_bytes() -> Vec<u8> {
    let mut builder = tar::Builder::new(Vec::new());
    let content = b"#!node\n";
    let mut header = tar::Header::new_gnu();
    header.set_size(content.len() as u64);
    header.set_mode(0o755);
    header.set_cksum();
    builder
        .append_data(&mut header, "pkg/bin/node", content.as_slice())
        .unwrap();
    let tar = builder.into_inner().unwrap();
    let mut enc = flate2::write::GzEncoder::new(Vec::new(), flate2::Compression::default());
    enc.write_all(&tar).unwrap();
    enc.finish().unwrap()
}

fn on_disk(path: &str) -> bool {
    std::path::Path::new(path).exists()
}

#[test]
fn sets_dir_to_tools() {
    let (_keep, root) = tmp_root();
    let tool = node_at(&root);
    assert_eq!(
        tool.get_install_dir().unwrap(),
        format!("{root}/tools/node/18.0.0")
    );
}

#[test]
fn sets_path_to_temp() {
    let (_keep, root) = tmp_root();
    let tool = node_at(&root);
    assert_eq!(
        tool.get_download_path(HostOS::Linux, HostArch::X64).unwrap(),
        format!("{root}/temp/node/node-v18.0.0-linux-x64.tar.xz")
    );
}

#[test]
fn checksum_sets_path_to_temp() {
    let (_keep, root) = tmp_root();
    let tool = node_at(&root);
    assert_eq!(
        tool.get_checksum_path().unwrap(),
        format!("{root}/temp/node/v18.0.0-SHASUMS256.txt")
    );
}

#[test]
fn bin_path_is_under_install_dir() {
    let (_keep, root) = tmp_root();
    let tool = node_at(&root);
    assert_eq!(
        tool.get_bin_path(HostOS::Linux).unwrap(),
        format!("{root}/tools/node/18.0.0/bin/node")
    );
    assert_eq!(
        tool.get_bin_path(HostOS::Windows).unwrap(),
        format!("{root}/tools/node/18.0.0/node.exe")
    );
}

#[test]
#[should_panic(expected = "InstallMissingDownload(\"Node.js\")")]
fn errors_for_missing_download() {
    let (_keep, root) = tmp_root();
    let tool = node_at(&root);
    let dir = tool.get_install_dir().unwrap();
    let download = format!("{root}/temp/node/absent.tar.gz");
    tool.install(&dir, &download, HostOS::Linux).unwrap();
}

#[test]
fn doesnt_install_if_dir_exists() {
    let (_keep, root) = tmp_root();
    let tool = node_at(&root);
    let dir = tool.get_install_dir().unwrap();
    starbase_utils::fs::create_dir_all(&dir).unwrap();
    let download = format!("{root}/temp/node/absent.tar.gz");
    assert_eq!(tool.install(&dir, &download, HostOS::Linux).unwrap(), false);
}

#[test]
fn install_twice_works_only_once() {
    let (_keep, root) = tmp_root();
    let tool = node_at(&root);
    let dir = tool.get_install_dir().unwrap();
    let download = format!("{root}/temp/node/node.tgz");
    starbase_utils::fs::write_file(&download, make_targz_bytes()).unwrap();

    assert_eq!(tool.install(&dir, &download, HostOS::Linux).unwrap(), true);
    let installed = format!("{dir}/pkg/bin/node");
    assert!(on_disk(&installed));
    let before = starbase_utils::fs::read_file_bytes(&installed).unwrap();

    assert_eq!(tool.install(&dir, &download, HostOS::Linux).unwrap(), false);
    let after = starbase_utils::fs::read_file_bytes(&installed).unwrap();
    assert_eq!(before, after);
}

#[test]
fn install_copies_standalone_binary() {
    let (_keep, root) = tmp_root();
    let tool = node_at(&root);
    let dir = tool.get_install_dir().unwrap();
    let download = format!("{root}/temp/node/node-standalone");
    starbase_utils::fs::write_file(&download, b"#!node\n").unwrap();
    assert_eq!(tool.install(&dir, &download, HostOS::Linux).unwrap(), true);
    assert!(on_disk(&format!("{dir}/node")));
    assert!(!on_disk(&download));
}

#[test]
fn uninstall_twice_works_only_once() {
    let (_keep, root) = tmp_root();
    let tool = node_at(&root);
    let dir = tool.get_install_dir().unwrap();
    starbase_utils::fs::write_file(format!("{dir}/bin/node"), b"x").unwrap();
    assert_eq!(tool.uninstall(&dir).unwrap(), true);
    assert!(!on_disk(&dir));
    assert_eq!(tool.uninstall(&dir).unwrap(), false);
}

#[test]
fn install_plan_prefers_existing_dir() {
    assert_eq!(plan_install(true, true, true), InstallPlan::AlreadyInstalled);
    assert_eq!(plan_install(true, false, false), InstallPlan::AlreadyInstalled);
    assert_eq!(plan_install(false, false, true), InstallPlan::MissingDownload);
    assert_eq!(plan_install(false, true, true), InstallPlan::Extract);
    assert_eq!(plan_install(false, true, false), InstallPlan::CopyBinary);
}

#[test]
fn doesnt_download_if_file_exists() {
    let (_keep, root) = tmp_root();
    let artifact = format!("{root}/node.tar.xz");
    assert_eq!(plan_download(on_disk(&artifact)), true);
    starbase_utils::fs::write_file(&artifact, b"bytes").unwrap();
    assert_eq!(plan_download(on_disk(&artifact)), false);
}

#[test]
fn missing_version_is_an_error() {
    let (_keep, root) = tmp_root();
    let proto = Proto::from_root(&root);
    let tool = NodeLanguage::new(&proto);
    assert!(matches!(
        tool.get_download_path(HostOS::Linux, HostArch::X64),
        Err(ProtoError::Message(_))
    ));
    assert!(tool.get_install_dir().is_err());
}
