use vstd::prelude::*;
use crate::error::ProtoError;
use crate::platform::{HostOS, HostArch};
use crate::text::{to_chars, chars_eq_str, starts_with_str, spec_starts_with};
use crate::tool::{spec_node_prefix, spec_archive_file, get_archive_prefix_string,
    get_archive_file};
use crate::version::{Version, spec_parse_version, parse_version};
use crate::resolver::{spec_strip_v, strip_v};

verus! {

/// What kind of program a tool's plugin manages.
#[derive(Clone, Copy, Debug, PartialEq, Eq, Structural)]
pub enum PluginType {
    Language,
    DependencyManager,
    CLI,
}

/// The answer of the `register_tool` capability.
pub struct ToolMetadataOutput {
    pub name: String,
    pub type_of: PluginType,
}

/// The answer of the `detect_version_files` capability: file names to
/// search, in priority order.
pub struct DetectVersionOutput {
    pub files: Vec<String>,
}

pub struct ParseVersionFileInput {
    pub content: String,
    pub file: String,
}

pub struct ParseVersionFileOutput {
    pub version: Option<String>,
}

/// The host environment a capability call runs for.
pub struct Environment {
    pub arch: HostArch,
    pub os: HostOS,
    pub version: String,
}

pub struct DownloadPrebuiltInput {
    pub env: Environment,
}

/// The answer of the `download_prebuilt` capability: where the artifact
/// and its checksum live, and what to call them locally.
pub struct DownloadPrebuiltOutput {
    pub archive_prefix: Option<String>,
    pub checksum_name: Option<String>,
    pub checksum_url: Option<String>,
    pub download_name: Option<String>,
    pub download_url: String,
}

pub struct LocateBinsInput {
    pub env: Environment,
}

pub struct LocateBinsOutput {
    pub bin_path: Option<String>,
    pub globals_lookup_dirs: Vec<String>,
}

/// The answer of the `load_versions` capability: the known releases,
/// newest first, and the declared latest.
pub struct LoadVersionsOutput {
    pub latest: Option<Version>,
    pub versions: Vec<Version>,
}

pub struct ResolveVersionInput {
    pub initial: String,
}

pub struct ResolveVersionOutput {
    pub candidate: Option<String>,
}

/// One shim's description: where the target binary lives inside the
/// install directory, and an optional parent binary to route through.
pub struct ShimConfig {
    pub bin_path: Option<String>,
    pub parent_bin: Option<String>,
}

pub struct CreateShimsOutput {
    pub global_shims: Vec<(String, ShimConfig)>,
    pub local_shims: Vec<(String, ShimConfig)>,
}

pub struct VerifyChecksumInput {
    pub checksum_file: String,
    pub download_file: String,
    pub env: Environment,
}

pub struct VerifyChecksumOutput {
    pub verified: bool,
}

/// The `register_tool` capability of the test tool.
pub fn register_tool() -> (r: ToolMetadataOutput)
    ensures
        r.name@ == "WASM Test"@,
        r.type_of == PluginType::CLI,
{
    ToolMetadataOutput { name: "WASM Test".to_owned(), type_of: PluginType::CLI }
}

/// The `detect_version_files` capability of the test tool.
pub fn detect_version_files() -> (r: DetectVersionOutput)
    ensures
        r.files@.len() == 2,
        r.files@[0]@ == ".proto-wasm-version"@,
        r.files@[1]@ == ".protowasmrc"@,
{
    let mut files: Vec<String> = Vec::new();
    files.push(".proto-wasm-version".to_owned());
    files.push(".protowasmrc".to_owned());
    DetectVersionOutput { files }
}

/// What `parse_version_file` answers: the dedicated version file only
/// counts when it opens with `version=`, whose remainder is the
/// version; any other file's whole content is the version.
pub open spec fn spec_parsed_version_file(
    file: Seq<char>,
    content: Seq<char>,
) -> Option<Seq<char>> {
    if file == ".proto-wasm-version"@ {
        if spec_starts_with(content, "version="@) {
            Some(content.subrange("version="@.len() as int, content.len() as int))
        } else {
            None
        }
    } else {
        Some(content)
    }
}

/// The `parse_version_file` capability of the test tool.
pub fn parse_version_file(input: &ParseVersionFileInput) -> (r: ParseVersionFileOutput)
    ensures
        match r.version {
            Option::Some(v) => spec_parsed_version_file(input.file@, input.content@) == Some(v@),
            Option::None => spec_parsed_version_file(input.file@, input.content@) is None,
        },
{
    let fv = to_chars(input.file.as_str());
    let cv = to_chars(input.content.as_str());
    if chars_eq_str(&fv, ".proto-wasm-version") {
        if starts_with_str(&cv, "version=") {
            proof {
                reveal_strlit("version=");
            }
            let n = input.content.as_str().unicode_len();
            let v = input.content.as_str().substring_char(8, n).to_owned();
            ParseVersionFileOutput { version: Some(v) }
        } else {
            ParseVersionFileOutput { version: None }
        }
    } else {
        ParseVersionFileOutput { version: Some(input.content.clone()) }
    }
}

/// The `download_prebuilt` capability of the test tool: the canonical
/// release URL and artifact names for the host platform.
pub fn download_prebuilt(input: &DownloadPrebuiltInput) -> (r: DownloadPrebuiltOutput)
    ensures
        r.archive_prefix matches Some(p) && p@ == spec_node_prefix(
            input.env.version@,
            input.env.os,
            input.env.arch,
        ),
        r.download_name matches Some(n) && n@ == spec_archive_file(
            input.env.version@,
            input.env.os,
            input.env.arch,
        ),
        r.download_url@ == "https://nodejs.org/dist/v"@ + input.env.version@ + "/"@
            + spec_archive_file(input.env.version@, input.env.os, input.env.arch),
        r.checksum_url matches Some(c) && c@ == "https://nodejs.org/dist/v"@ + input.env.version@
            + "/SHASUMS256.txt"@,
        r.checksum_name is None,
{
    let prefix = get_archive_prefix_string(&input.env.version, input.env.os, input.env.arch);
    let filename = get_archive_file(&input.env.version, input.env.os, input.env.arch);
    let mut url = "https://nodejs.org/dist/v".to_owned();
    url.append(input.env.version.as_str());
    url.append("/");
    url.append(filename.as_str());
    let mut checksum_url = "https://nodejs.org/dist/v".to_owned();
    checksum_url.append(input.env.version.as_str());
    checksum_url.append("/SHASUMS256.txt");
    proof {
        assert(url@ =~= "https://nodejs.org/dist/v"@ + input.env.version@ + "/"@
            + spec_archive_file(input.env.version@, input.env.os, input.env.arch));
        assert(checksum_url@ =~= "https://nodejs.org/dist/v"@ + input.env.version@
            + "/SHASUMS256.txt"@);
    }
    DownloadPrebuiltOutput {
        archive_prefix: Some(prefix),
        checksum_name: None,
        checksum_url: Some(checksum_url),
        download_name: Some(filename),
        download_url: url,
    }
}

/// The `locate_bins` capability of the test tool.
pub fn locate_bins(input: &LocateBinsInput) -> (r: LocateBinsOutput)
    ensures
        r.bin_path matches Some(b) && b@ == (if input.env.os == HostOS::Windows {
            "node.exe"@
        } else {
            "bin/node"@
        }),
        r.globals_lookup_dirs@.len() == 2,
        r.globals_lookup_dirs@[0]@ == "$WASM_ROOT/bin"@,
        r.globals_lookup_dirs@[1]@ == "$HOME/.wasm/bin"@,
{
    let bin_path = match input.env.os {
        HostOS::Windows => "node.exe".to_owned(),
        _ => "bin/node".to_owned(),
    };
    let mut dirs: Vec<String> = Vec::new();
    dirs.push("$WASM_ROOT/bin".to_owned());
    dirs.push("$HOME/.wasm/bin".to_owned());
    LocateBinsOutput { bin_path: Some(bin_path), globals_lookup_dirs: dirs }
}

/// The `load_versions` capability, fed the release index's tag strings
/// (each one a version, usually `v`-prefixed): every tag parsed, in
/// order, with the first — the newest — as the declared latest.
pub fn load_versions(tags: &Vec<String>) -> (r: Result<LoadVersionsOutput, ProtoError>)
    ensures
        r matches Ok(o) ==> {
            &&& o.versions@.len() == tags@.len()
            &&& forall|i: int|
                0 <= i < tags@.len() ==> Some(#[trigger] o.versions@[i]) == spec_parse_version(
                    spec_strip_v(tags@[i]@),
                )
            &&& o.latest == (if tags@.len() > 0 {
                Some(o.versions@[0])
            } else {
                Option::<Version>::None
            })
        },
        r matches Err(e) ==> (e matches ProtoError::VersionResolveFailed(t) && exists|i: int|
            0 <= i < tags@.len() && t@ == tags@[i]@ && spec_parse_version(spec_strip_v(tags@[i]@))
                is None),
{
    let mut versions: Vec<Version> = Vec::new();
    let mut i: usize = 0;
    while i < tags.len()
        invariant
            0 <= i <= tags@.len(),
            versions@.len() == i,
            forall|j: int|
                0 <= j < i ==> Some(#[trigger] versions@[j]) == spec_parse_version(
                    spec_strip_v(tags@[j]@),
                ),
        decreases tags@.len() - i,
    {
        let stripped = strip_v(&tags[i]);
        let sv = to_chars(stripped.as_str());
        match parse_version(&sv) {
            Option::Some(v) => {
                versions.push(v);
            },
            Option::None => {
                return Err(ProtoError::VersionResolveFailed(tags[i].clone()));
            },
        }
        i += 1;
    }
    let latest = if versions.len() > 0 {
        Some(versions[0])
    } else {
        None
    };
    Ok(LoadVersionsOutput { latest, versions })
}

/// The `resolve_version` capability of the test tool: the bare tool
/// name stands for `latest`; everything else gets no candidate.
pub fn resolve_version(input: &ResolveVersionInput) -> (r: ResolveVersionOutput)
    ensures
        input.initial@ == "node"@ ==> (r.candidate matches Some(c) && c@ == "latest"@),
        input.initial@ != "node"@ ==> r.candidate is None,
{
    let iv = to_chars(input.initial.as_str());
    if chars_eq_str(&iv, "node") {
        ResolveVersionOutput { candidate: Some("latest".to_owned()) }
    } else {
        ResolveVersionOutput { candidate: None }
    }
}

/// The `create_shims` capability of the test tool: one global shim and
/// two local shims, one of them routed through the runtime.
pub fn create_shims() -> (r: CreateShimsOutput)
    ensures
        r.global_shims@.len() == 1,
        r.global_shims@[0].0@ == "global1"@,
        r.global_shims@[0].1.bin_path matches Some(b) && b@ == "bin/global1"@,
        r.global_shims@[0].1.parent_bin is None,
        r.local_shims@.len() == 2,
        r.local_shims@[0].0@ == "local1"@,
        r.local_shims@[0].1.bin_path matches Some(b) && b@ == "bin/local1"@,
        r.local_shims@[0].1.parent_bin matches Some(p) && p@ == "node"@,
        r.local_shims@[1].0@ == "local2"@,
        r.local_shims@[1].1.bin_path matches Some(b) && b@ == "local2.js"@,
        r.local_shims@[1].1.parent_bin is None,
{
    let mut global_shims: Vec<(String, ShimConfig)> = Vec::new();
    global_shims.push(
        (
            "global1".to_owned(),
            ShimConfig { bin_path: Some("bin/global1".to_owned()), parent_bin: None },
        ),
    );
    let mut local_shims: Vec<(String, ShimConfig)> = Vec::new();
    local_shims.push(
        (
            "local1".to_owned(),
            ShimConfig {
                bin_path: Some("bin/local1".to_owned()),
                parent_bin: Some("node".to_owned()),
            },
        ),
    );
    local_shims.push(
        (
            "local2".to_owned(),
            ShimConfig { bin_path: Some("local2.js".to_owned()), parent_bin: None },
        ),
    );
    CreateShimsOutput { global_shims, local_shims }
}

/// The `verify_checksum` capability of the test tool: both artifacts
/// must be present, and one designated version is always refused; a
/// positive answer therefore never names that version.
pub fn verify_checksum(input: &VerifyChecksumInput) -> (r: VerifyChecksumOutput)
    ensures
        input.env.version@ == "19.0.0"@ ==> !r.verified,
{
    let vv = to_chars(input.env.version.as_str());
    let verified = crate::host::path_exists(&input.download_file) && crate::host::path_exists(
        &input.checksum_file,
    ) && !chars_eq_str(&vv, "19.0.0");
    VerifyChecksumOutput { verified }
}

} // verus!
