use proto::platform::{HostArch, HostOS};
use proto::version::Version;
use proto::wasm_plugin::{
    create_shims, detect_version_files, download_prebuilt, locate_bins, load_versions,
    parse_version_file, register_tool, resolve_version, DownloadPrebuiltInput, Environment,
    LocateBinsInput, ParseVersionFileInput, PluginType, ResolveVersionInput, VerifyChecksumInput,
};

fn env(os: HostOS, version: &str) -> Environment {
    Environment {
        arch: HostArch::X64,
        os,
        version: version.to_string(),
    }
}

#[test]
fn registers_the_tool() {
    let meta = register_tool();
    assert_eq!(meta.name, "WASM Test");
    assert_eq!(meta.type_of, PluginType::CLI);
}

#[test]
fn detects_two_version_files() {
    let out = detect_version_files();
    assert_eq!(out.files, vec![".proto-wasm-version", ".protowasmrc"]);
}

#[test]
fn parses_dedicated_version_file() {
    let out = parse_version_file(&ParseVersionFileInput {
        file: ".proto-wasm-version".to_string(),
        content: "version=1.2.3".to_string(),
    });
    assert_eq!(out.version, Some("1.2.3".to_string()));
}

#[test]
fn rejects_dedicated_file_without_marker() {
    let out = parse_version_file(&ParseVersionFileInput {
        file: ".proto-wasm-version".to_string(),
        content: "1.2.3".to_string(),
    });
    assert_eq!(out.version, None);
}

#[test]
fn other_version_files_are_taken_verbatim() {
    let out = parse_version_file(&ParseVersionFileInput {
        file: ".protowasmrc".to_string(),
        content: "4.5.6\n".to_string(),
    });
    assert_eq!(out.version, Some("4.5.6\n".to_string()));
}

#[test]
fn download_prebuilt_linux() {
    let out = download_prebuilt(&DownloadPrebuiltInput {
        env: env(HostOS::Linux, "18.0.0"),
    });
    assert_eq!(
        out.download_url,
        "https://nodejs.org/dist/v18.0.0/node-v18.0.0-linux-x64.tar.xz"
    );
    assert_eq!(
        out.download_name,
        Some("node-v18.0.0-linux-x64.tar.xz".to_string())
    );
    assert_eq!(out.archive_prefix, Some("node-v18.0.0-linux-x64".to_string()));
    assert_eq!(
        out.checksum_url,
        Some("https://nodejs.org/dist/v18.0.0/SHASUMS256.txt".to_string())
    );
    assert_eq!(out.checksum_name, None);
}

#[test]
fn download_prebuilt_windows_zips() {
    let out = download_prebuilt(&DownloadPrebuiltInput {
        env: env(HostOS::Windows, "18.0.0"),
    });
    assert_eq!(
        out.download_name,
        Some("node-v18.0.0-win-x64.zip".to_string())
    );
}

#[test]
fn locates_bins_per_platform() {
    let unix = locate_bins(&LocateBinsInput {
        env: env(HostOS::Linux, "18.0.0"),
    });
    assert_eq!(unix.bin_path, Some("bin/node".to_string()));
    let win = locate_bins(&LocateBinsInput {
        env: env(HostOS::Windows, "18.0.0"),
    });
    assert_eq!(win.bin_path, Some("node.exe".to_string()));
    assert_eq!(
        unix.globals_lookup_dirs,
        vec!["$WASM_ROOT/bin", "$HOME/.wasm/bin"]
    );
}

#[test]
fn loads_versions_newest_first() {
    let tags = vec!["v18.0.0".to_string(), "v16.14.0".to_string()];
    let out = load_versions(&tags).unwrap();
    assert_eq!(out.versions.len(), 2);
    assert_eq!(out.versions[0], Version { major: 18, minor: 0, patch: 0 });
    assert_eq!(out.latest, Some(Version { major: 18, minor: 0, patch: 0 }));
}

#[test]
fn load_versions_rejects_a_bad_tag() {
    let tags = vec!["v18.0.0".to_string(), "not-a-version".to_string()];
    assert!(load_versions(&tags).is_err());
}

#[test]
fn bare_tool_name_maps_to_latest() {
    let out = resolve_version(&ResolveVersionInput {
        initial: "node".to_string(),
    });
    assert_eq!(out.candidate, Some("latest".to_string()));
    let out = resolve_version(&ResolveVersionInput {
        initial: "18.0.0".to_string(),
    });
    assert_eq!(out.candidate, None);
}

#[test]
fn declares_three_shims() {
    let out = create_shims();
    assert_eq!(out.global_shims.len(), 1);
    assert_eq!(out.global_shims[0].0, "global1");
    assert_eq!(out.global_shims[0].1.bin_path, Some("bin/global1".to_string()));
    assert_eq!(out.local_shims.len(), 2);
    assert_eq!(out.local_shims[0].1.parent_bin, Some("node".to_string()));
    assert_eq!(out.local_shims[1].1.bin_path, Some("local2.js".to_string()));
}

#[test]
fn refuses_the_designated_version() {
    let out = proto::wasm_plugin::verify_checksum(&VerifyChecksumInput {
        checksum_file: "/nonexistent/checksums".to_string(),
        download_file: "/nonexistent/download".to_string(),
        env: env(HostOS::Linux, "19.0.0"),
    });
    assert!(!out.verified);
}
