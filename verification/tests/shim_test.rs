use proto::platform::HostOS;
use proto::shim::{build_shim_script, create_tool_shims, shim_file_name};
use proto::wasm_plugin::create_shims;

fn tmp_root() -> (tempfile::TempDir, String) {
    let dir = tempfile::tempdir().unwrap();
    let path = dir.path().to_str().unwrap().to_string();
    (dir, path)
}

#[test]
fn unix_shim_script_delegates_to_the_target() {
    let script = build_shim_script(HostOS::Linux, &"/root/tools/node/bin/node".to_string(), &None);
    assert_eq!(
        script,
        "#!/usr/bin/env bash\nexec \"/root/tools/node/bin/node\" \"$@\"\n"
    );
}

#[test]
fn unix_shim_script_routes_through_a_parent() {
    let script = build_shim_script(
        HostOS::Linux,
        &"/tools/npm/bin/npm-cli.js".to_string(),
        &Some("node".to_string()),
    );
    assert_eq!(
        script,
        "#!/usr/bin/env bash\nexec \"node\" \"/tools/npm/bin/npm-cli.js\" \"$@\"\n"
    );
}

#[test]
fn windows_shim_script_uses_cmd_conventions() {
    let script = build_shim_script(HostOS::Windows, &"C:/tools/node/node.exe".to_string(), &None);
    assert_eq!(script, "@echo off\n\"C:/tools/node/node.exe\" %*\n");
}

#[test]
fn shim_file_names_follow_the_platform() {
    assert_eq!(shim_file_name(&"node".to_string(), HostOS::Linux, true), "node");
    assert_eq!(shim_file_name(&"node".to_string(), HostOS::Windows, true), "node.cmd");
    assert_eq!(shim_file_name(&"local1".to_string(), HostOS::Windows, false), "local1.ps1");
}

#[test]
fn creates_global_and_local_shims() {
    let (_keep, root) = tmp_root();
    let bin_dir = format!("{root}/bin");
    let install_dir = format!("{root}/tools/wasm/1.0.0");
    let declared = create_shims();
    let written = create_tool_shims(
        &declared,
        &"wasm".to_string(),
        &format!("{install_dir}/bin/node"),
        &bin_dir,
        &install_dir,
        HostOS::Linux,
    )
    .unwrap();
    assert_eq!(written.len(), 4);
    assert!(std::path::Path::new(&format!("{bin_dir}/wasm")).exists());
    assert!(std::path::Path::new(&format!("{bin_dir}/global1")).exists());
    assert!(std::path::Path::new(&format!("{install_dir}/shims/local1")).exists());
    assert!(std::path::Path::new(&format!("{install_dir}/shims/local2")).exists());
    let local1 = starbase_utils::fs::read_file(format!("{install_dir}/shims/local1")).unwrap();
    assert_eq!(
        local1,
        format!("#!/usr/bin/env bash\nexec \"node\" \"{install_dir}/bin/local1\" \"$@\"\n")
    );
}
