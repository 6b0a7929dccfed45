use vstd::prelude::*;
use crate::error::ProtoError;
use crate::archive::spec_join;
use crate::installer::{Describable, Installable, join_path};
use crate::platform::{HostOS, HostArch, spec_os_name, spec_arch_name, map_os, map_arch};

verus! {

/// The manager's root layout: where tools install, where downloads
/// land, and where global shims live.
pub struct Proto {
    pub tools_dir: String,
    pub temp_dir: String,
    pub bin_dir: String,
}

impl Proto {
    /// The layout under one root directory: `tools`, `temp` and `bin`.
    pub fn from_root(root: &String) -> (r: Proto)
        ensures
            r.tools_dir@ == spec_join(root@, "tools"@),
            r.temp_dir@ == spec_join(root@, "temp"@),
            r.bin_dir@ == spec_join(root@, "bin"@),
    {
        Proto {
            tools_dir: join_path(root, &"tools".to_owned()),
            temp_dir: join_path(root, &"temp".to_owned()),
            bin_dir: join_path(root, &"bin".to_owned()),
        }
    }
}

/// The name of the archive a given release downloads as:
/// `node-v<version>-<os>-<arch>`, zipped on Windows and xz-tarred
/// elsewhere.
pub open spec fn spec_node_prefix(version: Seq<char>, os: HostOS, arch: HostArch) -> Seq<char> {
    "node-v"@ + version + "-"@ + spec_os_name(os) + "-"@ + spec_arch_name(arch)
}

pub open spec fn spec_archive_file(version: Seq<char>, os: HostOS, arch: HostArch) -> Seq<char> {
    spec_node_prefix(version, os, arch) + if os == HostOS::Windows {
        ".zip"@
    } else {
        ".tar.xz"@
    }
}

/// The platform-dependent prefix shared by a release's artifacts.
pub fn get_archive_prefix_string(version: &String, os: HostOS, arch: HostArch) -> (r: String)
    ensures
        r@ == spec_node_prefix(version@, os, arch),
{
    proof {
        reveal_strlit("-");
    }
    let mut r = "node-v".to_owned();
    r.append(version.as_str());
    r.append("-");
    r.append(map_os(os).as_str());
    r.append("-");
    r.append(map_arch(arch).as_str());
    proof {
        assert(r@ =~= spec_node_prefix(version@, os, arch));
    }
    r
}

/// The file name a release's archive downloads as.
pub fn get_archive_file(version: &String, os: HostOS, arch: HostArch) -> (r: String)
    ensures
        r@ == spec_archive_file(version@, os, arch),
{
    let mut r = get_archive_prefix_string(version, os, arch);
    match os {
        HostOS::Windows => {
            r.append(".zip");
        },
        _ => {
            r.append(".tar.xz");
        },
    }
    proof {
        assert(r@ =~= spec_archive_file(version@, os, arch));
    }
    r
}

/// The name the checksum artifact is cached under.
pub open spec fn spec_checksum_file(version: Seq<char>) -> Seq<char> {
    "v"@ + version + "-SHASUMS256.txt"@
}

pub fn get_checksum_file(version: &String) -> (r: String)
    ensures
        r@ == spec_checksum_file(version@),
{
    let mut r = "v".to_owned();
    r.append(version.as_str());
    r.append("-SHASUMS256.txt");
    proof {
        assert(r@ =~= spec_checksum_file(version@));
    }
    r
}

/// The tool definition for the Node.js runtime.
pub struct NodeLanguage {
    pub base_dir: String,
    pub bin_path: Option<String>,
    pub shim_path: Option<String>,
    pub temp_dir: String,
    pub version: Option<String>,
}

impl NodeLanguage {
    pub fn new(proto: &Proto) -> (r: NodeLanguage)
        ensures
            r.base_dir@ == spec_join(proto.tools_dir@, "node"@),
            r.temp_dir@ == spec_join(proto.temp_dir@, "node"@),
            r.version is None,
            r.bin_path is None,
            r.shim_path is None,
    {
        NodeLanguage {
            base_dir: join_path(&proto.tools_dir, &"node".to_owned()),
            bin_path: None,
            shim_path: None,
            temp_dir: join_path(&proto.temp_dir, &"node".to_owned()),
            version: None,
        }
    }

    /// Where the release's archive downloads to: the tool's temp
    /// directory, under the canonical archive name.
    pub fn get_download_path(&self, os: HostOS, arch: HostArch) -> (r: Result<String, ProtoError>)
        ensures
            self.version matches Some(v) ==> (r matches Ok(p) && p@ == spec_join(
                self.temp_dir@,
                spec_archive_file(v@, os, arch),
            )),
            self.version is None ==> r is Err,
    {
        match &self.version {
            Option::Some(v) => {
                let file = get_archive_file(v, os, arch);
                Ok(join_path(&self.temp_dir, &file))
            },
            Option::None => Err(ProtoError::Message(
                "a version must be resolved before a download path exists".to_owned(),
            )),
        }
    }

    /// Where the release's checksum artifact downloads to.
    pub fn get_checksum_path(&self) -> (r: Result<String, ProtoError>)
        ensures
            self.version matches Some(v) ==> (r matches Ok(p) && p@ == spec_join(
                self.temp_dir@,
                spec_checksum_file(v@),
            )),
            self.version is None ==> r is Err,
    {
        match &self.version {
            Option::Some(v) => {
                let file = get_checksum_file(v);
                Ok(join_path(&self.temp_dir, &file))
            },
            Option::None => Err(ProtoError::Message(
                "a version must be resolved before a checksum path exists".to_owned(),
            )),
        }
    }

    /// Where the installed runtime's binary lives, relative to the
    /// install directory: `node.exe` on Windows, `bin/node` elsewhere.
    pub fn get_bin_path(&self, os: HostOS) -> (r: Result<String, ProtoError>)
        ensures
            self.version matches Some(v) ==> (r matches Ok(p) && p@ == spec_join(
                spec_join(self.base_dir@, v@),
                if os == HostOS::Windows {
                    "node.exe"@
                } else {
                    "bin/node"@
                },
            )),
            self.version is None ==> r is Err,
    {
        match &self.version {
            Option::Some(v) => {
                let dir = join_path(&self.base_dir, v);
                let rel = match os {
                    HostOS::Windows => "node.exe".to_owned(),
                    _ => "bin/node".to_owned(),
                };
                Ok(join_path(&dir, &rel))
            },
            Option::None => Err(ProtoError::Message(
                "a version must be resolved before a binary path exists".to_owned(),
            )),
        }
    }
}

impl Describable for NodeLanguage {
    open spec fn spec_id(&self) -> Seq<char> {
        "node"@
    }

    open spec fn spec_name(&self) -> Seq<char> {
        "Node.js"@
    }

    fn get_id(&self) -> (r: String) {
        "node".to_owned()
    }

    fn get_name(&self) -> (r: String) {
        "Node.js".to_owned()
    }
}

impl Installable for NodeLanguage {
    fn get_archive_prefix(&self) -> (r: Result<Option<String>, ProtoError>) {
        Ok(None)
    }

    fn get_install_dir(&self) -> (r: Result<String, ProtoError>) {
        match &self.version {
            Option::Some(v) => Ok(join_path(&self.base_dir, v)),
            Option::None => Err(ProtoError::Message(
                "a version must be resolved before an install directory exists".to_owned(),
            )),
        }
    }
}

/// The package managers that ship beside the Node.js runtime.
#[derive(Clone, Copy, Debug, PartialEq, Eq, Structural)]
pub enum NodeDependencyManagerType {
    Npm,
    Pnpm,
    Yarn,
}

pub open spec fn spec_package_name(t: NodeDependencyManagerType) -> Seq<char> {
    match t {
        NodeDependencyManagerType::Npm => "npm"@,
        NodeDependencyManagerType::Pnpm => "pnpm"@,
        NodeDependencyManagerType::Yarn => "yarn"@,
    }
}

impl NodeDependencyManagerType {
    /// The name the manager is published and installed under.
    pub fn get_package_name(&self) -> (r: String)
        ensures
            r@ == spec_package_name(*self),
    {
        match self {
            NodeDependencyManagerType::Npm => "npm".to_owned(),
            NodeDependencyManagerType::Pnpm => "pnpm".to_owned(),
            NodeDependencyManagerType::Yarn => "yarn".to_owned(),
        }
    }
}

/// The tool definition for a Node.js package manager.
pub struct NodeDependencyManager {
    pub base_dir: String,
    pub bin_path: Option<String>,
    pub package_name: String,
    pub shim_path: Option<String>,
    pub temp_dir: String,
    pub type_of: NodeDependencyManagerType,
    pub version: Option<String>,
}

impl NodeDependencyManager {
    pub fn new(proto: &Proto, type_of: NodeDependencyManagerType) -> (r: NodeDependencyManager)
        ensures
            r.package_name@ == spec_package_name(type_of),
            r.base_dir@ == spec_join(proto.tools_dir@, spec_package_name(type_of)),
            r.temp_dir@ == spec_join(proto.temp_dir@, spec_package_name(type_of)),
            r.type_of == type_of,
            r.version is None,
            r.bin_path is None,
            r.shim_path is None,
    {
        let package_name = type_of.get_package_name();
        NodeDependencyManager {
            base_dir: join_path(&proto.tools_dir, &package_name),
            bin_path: None,
            shim_path: None,
            temp_dir: join_path(&proto.temp_dir, &package_name),
            type_of,
            version: None,
            package_name,
        }
    }
}

impl Describable for NodeDependencyManager {
    open spec fn spec_id(&self) -> Seq<char> {
        self.package_name@
    }

    open spec fn spec_name(&self) -> Seq<char> {
        spec_package_name(self.type_of)
    }

    fn get_id(&self) -> (r: String) {
        self.package_name.clone()
    }

    fn get_name(&self) -> (r: String) {
        self.type_of.get_package_name()
    }
}

impl Installable for NodeDependencyManager {
    fn get_archive_prefix(&self) -> (r: Result<Option<String>, ProtoError>) {
        Ok(None)
    }

    fn get_install_dir(&self) -> (r: Result<String, ProtoError>) {
        match &self.version {
            Option::Some(v) => Ok(join_path(&self.base_dir, v)),
            Option::None => Err(ProtoError::Message(
                "a version must be resolved before an install directory exists".to_owned(),
            )),
        }
    }
}

} // verus!
