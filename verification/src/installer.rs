use vstd::prelude::*;
use crate::error::ProtoError;
use crate::archive::{unpack, spec_join};
use crate::platform::HostOS;
use crate::host;

verus! {

/// A tool that can say who it is.
pub trait Describable {
    /// The tool's identifier, as a specification value.
    spec fn spec_id(&self) -> Seq<char>;

    /// The tool's display name, as a specification value.
    spec fn spec_name(&self) -> Seq<char>;

    /// The tool's identifier, as used in paths and shim names.
    fn get_id(&self) -> (r: String)
        ensures
            r@ == self.spec_id(),
    ;

    /// The tool's display name, as used in error messages.
    fn get_name(&self) -> (r: String)
        ensures
            r@ == self.spec_name(),
    ;
}

/// What one install invocation is to do, given what is already on disk.
#[derive(Clone, Copy, Debug, PartialEq, Eq, Structural)]
pub enum InstallPlan {
    /// The install directory exists: nothing to do, report `false`.
    AlreadyInstalled,
    /// No artifact was downloaded: fail.
    MissingDownload,
    /// Unpack the downloaded archive into the install directory.
    Extract,
    /// Move the downloaded standalone binary into the install directory.
    CopyBinary,
}

/// The install step's decision rule: an existing install directory wins
/// over everything (the idempotence short-circuit), a missing download
/// is an error, and otherwise the artifact is unpacked or copied.
pub open spec fn spec_install_plan(
    dir_exists: bool,
    download_exists: bool,
    should_unpack: bool,
) -> InstallPlan {
    if dir_exists {
        InstallPlan::AlreadyInstalled
    } else if !download_exists {
        InstallPlan::MissingDownload
    } else if should_unpack {
        InstallPlan::Extract
    } else {
        InstallPlan::CopyBinary
    }
}

pub fn plan_install(dir_exists: bool, download_exists: bool, should_unpack: bool) -> (r:
    InstallPlan)
    ensures
        r == spec_install_plan(dir_exists, download_exists, should_unpack),
{
    if dir_exists {
        InstallPlan::AlreadyInstalled
    } else if !download_exists {
        InstallPlan::MissingDownload
    } else if should_unpack {
        InstallPlan::Extract
    } else {
        InstallPlan::CopyBinary
    }
}

/// Installing over an existing install directory never performs work,
/// whatever else holds: the second of two install calls for the same
/// tool and version finds the directory present and only reports
/// `false`.
pub proof fn lemma_install_idempotent(download_exists: bool, should_unpack: bool)
    ensures
        spec_install_plan(true, download_exists, should_unpack) == InstallPlan::AlreadyInstalled,
{
}

/// The download step's decision rule: fetch exactly when the target
/// file is absent.
pub open spec fn spec_should_fetch(dest_exists: bool) -> bool {
    !dest_exists
}

pub fn plan_download(dest_exists: bool) -> (r: bool)
    ensures
        r == spec_should_fetch(dest_exists),
{
    !dest_exists
}

/// Downloading over an existing artifact never fetches: the second of
/// two download calls finds the file present and reports `false`.
pub proof fn lemma_download_idempotent()
    ensures
        !spec_should_fetch(true),
{
}

/// The file name a standalone binary is installed under: the tool's
/// identifier, with `.exe` appended on Windows.
pub open spec fn spec_executable_name(id: Seq<char>, os: HostOS) -> Seq<char> {
    if os == HostOS::Windows {
        id + ".exe"@
    } else {
        id
    }
}

pub fn executable_name(id: &String, os: HostOS) -> (r: String)
    ensures
        r@ == spec_executable_name(id@, os),
{
    match os {
        HostOS::Windows => {
            let mut r = id.clone();
            r.append(".exe");
            r
        },
        _ => id.clone(),
    }
}

/// Join a directory and a relative path with `/`; an empty relative
/// path names the directory itself.
pub fn join_path(dir: &String, rel: &String) -> (r: String)
    ensures
        r@ == spec_join(dir@, rel@),
{
    if rel.as_str().unicode_len() == 0 {
        dir.clone()
    } else {
        proof {
            reveal_strlit("/");
        }
        let mut r = dir.clone();
        r.append("/");
        r.append(rel.as_str());
        r
    }
}

fn install_binary(
    id: &String,
    install_dir: &String,
    download_path: &String,
    os: HostOS,
) -> (r: Result<bool, ProtoError>)
    ensures
        r matches Err(e) ==> e matches ProtoError::Fs(_, _),
        r matches Ok(b) ==> b,
{
    let name = executable_name(id, os);
    let dest = join_path(install_dir, &name);
    match host::rename(download_path, &dest) {
        Ok(()) => {},
        Err(m) => {
            return Err(ProtoError::Fs(dest, m));
        },
    }
    match host::update_perms(&dest, None) {
        Ok(()) => {},
        Err(m) => {
            return Err(ProtoError::Fs(dest, m));
        },
    }
    Ok(true)
}

/// A tool that can be installed from a downloaded artifact and removed
/// again. The step bodies below are the pipeline's install and
/// uninstall stages; a tool overrides only what names and configures
/// them.
pub trait Installable: Describable {
    /// The leading path component to strip from every archive entry, if
    /// any; a failure to determine it is a filesystem or configuration
    /// error.
    fn get_archive_prefix(&self) -> (r: Result<Option<String>, ProtoError>)
        ensures
            r matches Err(e) ==> (e matches ProtoError::Fs(_, _) || e matches ProtoError::Message(
                _,
            )),
    ;

    /// The absolute directory this tool's resolved version installs
    /// into; a failure to determine it is a filesystem or configuration
    /// error.
    fn get_install_dir(&self) -> (r: Result<String, ProtoError>)
        ensures
            r matches Err(e) ==> (e matches ProtoError::Fs(_, _) || e matches ProtoError::Message(
                _,
            )),
    ;

    /// Whether the downloaded artifact is an archive to unpack rather
    /// than a standalone binary to copy.
    fn should_unpack(&self) -> bool {
        true
    }

    /// Run the install stage: a no-op reporting `false` when the
    /// install directory already exists; an error when the artifact was
    /// never downloaded; otherwise unpack or copy the artifact. The
    /// only failures are a missing download (named after this tool), an
    /// unsupported or corrupt archive (named after the download path),
    /// and filesystem or configuration errors.
    fn install(&self, install_dir: &String, download_path: &String, os: HostOS) -> (r: Result<
        bool,
        ProtoError,
    >)
        ensures
            r matches Err(e) ==> ((e matches ProtoError::InstallMissingDownload(n) && n@
                == self.spec_name()) || e matches ProtoError::Fs(_, _) || e matches
                ProtoError::Message(_) || (e matches ProtoError::Zip(p, _) && p@
                == download_path@) || (e matches ProtoError::UnsupportedArchiveFormat(p, _) && p@
                == download_path@)),
    {
        let dir_exists = host::path_exists(install_dir);
        let dl_exists = host::path_exists(download_path);
        match plan_install(dir_exists, dl_exists, self.should_unpack()) {
            InstallPlan::AlreadyInstalled => Ok(false),
            InstallPlan::MissingDownload => Err(ProtoError::InstallMissingDownload(
                self.get_name(),
            )),
            InstallPlan::Extract => {
                let prefix = match self.get_archive_prefix() {
                    Ok(p) => p,
                    Err(e) => {
                        return Err(e);
                    },
                };
                match unpack(download_path, install_dir, prefix) {
                    Ok(Option::Some(_)) => Ok(true),
                    Ok(Option::None) => {
                        let id = self.get_id();
                        install_binary(&id, install_dir, download_path, os)
                    },
                    Err(e) => Err(e),
                }
            },
            InstallPlan::CopyBinary => {
                let id = self.get_id();
                install_binary(&id, install_dir, download_path, os)
            },
        }
    }

    /// Run the uninstall stage: delete the install directory, or report
    /// `false` when it does not exist.
    fn uninstall(&self, install_dir: &String) -> (r: Result<bool, ProtoError>)
        ensures
            r matches Err(e) ==> e matches ProtoError::Fs(_, _),
    {
        if !host::path_exists(install_dir) {
            Ok(false)
        } else {
            match host::remove_dir_all(install_dir) {
                Ok(()) => Ok(true),
                Err(m) => Err(ProtoError::Fs(install_dir.clone(), m)),
            }
        }
    }
}

} // verus!
