use proto::bridge::{
    classify_download_status, create_wasm_file_stem, determine_cache_extension,
    extract_prefix_from_slug, extract_suffix_from_slug, move_or_unpack_download, url_file_name,
};
use proto::error::ProtoError;
use std::io::Write;

fn tmp_root() -> (tempfile::TempDir, String) {
    let dir = tempfile::tempdir().unwrap();
    let path = dir.path().to_str().unwrap().to_string();
    (dir, path)
}

#[test]
fn slug_prefix_and_suffix() {
    assert_eq!(extract_prefix_from_slug("moonrepo/node"), "moonrepo");
    assert_eq!(extract_suffix_from_slug("moonrepo/node"), "node");
    assert_eq!(extract_prefix_from_slug("solo"), "solo");
    assert_eq!(extract_suffix_from_slug("owner/repo/extra"), "repo");
}

#[test]
fn cache_extension_prefers_manifest_formats() {
    assert_eq!(determine_cache_extension("plugin.toml"), ".toml");
    assert_eq!(determine_cache_extension("plugin.json"), ".json");
    assert_eq!(determine_cache_extension("plugin.yaml"), ".yaml");
    assert_eq!(determine_cache_extension("plugin.yml"), ".yml");
    assert_eq!(determine_cache_extension("plugin.wasm"), ".wasm");
    assert_eq!(determine_cache_extension("anything-else"), ".wasm");
}

#[test]
fn wasm_file_stem_is_normalised() {
    assert_eq!(create_wasm_file_stem("My-Tool"), "my_tool_plugin");
    assert_eq!(create_wasm_file_stem("node_plugin"), "node_plugin");
    assert_eq!(create_wasm_file_stem("NODE"), "node_plugin");
    assert_eq!(create_wasm_file_stem("\u{c9}clair"), "\u{e9}clair_plugin");
}

#[test]
fn cached_fetch_decision() {
    assert!(proto::bridge::plan_cached_fetch(false, 0, 600));
    assert!(!proto::bridge::plan_cached_fetch(true, 0, 600));
    assert!(!proto::bridge::plan_cached_fetch(true, 600, 600));
    assert!(proto::bridge::plan_cached_fetch(true, 601, 600));
}

#[test]
fn url_file_name_takes_the_last_segment() {
    let url = "https://nodejs.org/dist/v18.0.0/node-v18.0.0-linux-x64.tar.xz".to_string();
    assert_eq!(
        url_file_name(&url).unwrap(),
        "node-v18.0.0-linux-x64.tar.xz"
    );
    let with_query = "https://example.com/a/b.wasm?dl=1".to_string();
    assert_eq!(url_file_name(&with_query).unwrap(), "b.wasm");
    let no_name = "https://example.com/a/".to_string();
    assert_eq!(url_file_name(&no_name), None);
}

#[test]
fn download_status_classification() {
    let url = "https://example.com/file".to_string();
    assert_eq!(
        classify_download_status(404, &url).unwrap_err(),
        ProtoError::DownloadNotFound(url.clone())
    );
    assert_eq!(
        classify_download_status(500, &url).unwrap_err(),
        ProtoError::DownloadFailed(url.clone(), "500".to_string())
    );
    assert!(classify_download_status(200, &url).is_ok());
    assert!(classify_download_status(204, &url).is_ok());
}

#[test]
fn plugin_file_moves_as_is() {
    let (_keep, root) = tmp_root();
    let temp = format!("{root}/downloaded.wasm");
    let dest = format!("{root}/cache/tool_plugin.wasm");
    starbase_utils::fs::write_file(&temp, b"\0asm").unwrap();
    move_or_unpack_download(&temp, &dest).unwrap();
    assert!(std::path::Path::new(&dest).exists());
    assert!(!std::path::Path::new(&temp).exists());
}

#[test]
fn archive_wrapped_plugin_is_unpacked() {
    let (_keep, root) = tmp_root();
    let temp = format!("{root}/downloaded.zip");
    let dest = format!("{root}/cache/tool_plugin.wasm");
    let cursor = std::io::Cursor::new(Vec::new());
    let mut zip = zip::ZipWriter::new(cursor);
    let options = zip::write::FileOptions::default();
    zip.start_file("tool_plugin.wasm", options).unwrap();
    zip.write_all(b"\0asm-bytecode").unwrap();
    let bytes = zip.finish().unwrap().into_inner();
    starbase_utils::fs::write_file(&temp, bytes).unwrap();
    move_or_unpack_download(&temp, &dest).unwrap();
    let moved = starbase_utils::fs::read_file_bytes(&dest).unwrap();
    assert_eq!(moved, b"\0asm-bytecode");
}

#[test]
fn unsupported_plugin_extension_is_an_error() {
    let (_keep, root) = tmp_root();
    let temp = format!("{root}/downloaded.rar");
    let dest = format!("{root}/cache/tool_plugin.wasm");
    starbase_utils::fs::write_file(&temp, b"junk").unwrap();
    assert_eq!(
        move_or_unpack_download(&temp, &dest).unwrap_err(),
        ProtoError::UnsupportedPluginFormat("rar".to_string())
    );
}

#[test]
fn missing_plugin_extension_is_an_error() {
    let (_keep, root) = tmp_root();
    let temp = format!("{root}/downloaded");
    let dest = format!("{root}/cache/tool_plugin.wasm");
    starbase_utils::fs::write_file(&temp, b"junk").unwrap();
    assert_eq!(
        move_or_unpack_download(&temp, &dest).unwrap_err(),
        ProtoError::UnknownPluginFormat
    );
}
