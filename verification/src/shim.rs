use vstd::prelude::*;
use crate::error::ProtoError;
use crate::archive::spec_join;
use crate::installer::join_path;
use crate::platform::HostOS;
use crate::wasm_plugin::CreateShimsOutput;
use crate::host;

verus! {

/// The text of one delegating shim: a script that hands every argument
/// on to the target binary, optionally routed through a parent binary
/// (a package manager that must be run by its runtime, say). The shape
/// follows the host platform's shell conventions; what is invoked, and
/// in which order, does not.
pub open spec fn spec_shim_script(os: HostOS, target: Seq<char>, parent: Option<Seq<char>>) -> Seq<
    char,
> {
    if os == HostOS::Windows {
        "@echo off\n"@ + (match parent {
            Option::Some(p) => "\""@ + p + "\" "@,
            Option::None => Seq::empty(),
        }) + "\""@ + target + "\" %*\n"@
    } else {
        "#!/usr/bin/env bash\nexec "@ + (match parent {
            Option::Some(p) => "\""@ + p + "\" "@,
            Option::None => Seq::empty(),
        }) + "\""@ + target + "\" \"$@\"\n"@
    }
}

pub fn build_shim_script(os: HostOS, target: &String, parent: &Option<String>) -> (r: String)
    ensures
        r@ == spec_shim_script(
            os,
            target@,
            match parent {
                Option::Some(p) => Some(p@),
                Option::None => None,
            },
        ),
{
    let mut r: String = match os {
        HostOS::Windows => "@echo off\n".to_owned(),
        _ => "#!/usr/bin/env bash\nexec ".to_owned(),
    };
    match parent {
        Option::Some(p) => {
            r.append("\"");
            r.append(p.as_str());
            r.append("\" ");
        },
        Option::None => {},
    }
    r.append("\"");
    r.append(target.as_str());
    match os {
        HostOS::Windows => {
            r.append("\" %*\n");
        },
        _ => {
            r.append("\" \"$@\"\n");
        },
    }
    proof {
        assert(r@ =~= spec_shim_script(
            os,
            target@,
            match parent {
                Option::Some(p) => Some(p@),
                Option::None => None,
            },
        ));
    }
    r
}

/// The file name a shim is written under: the bare name, with `.cmd`
/// appended on Windows for global shims and `.ps1` for local ones.
pub open spec fn spec_shim_file_name(name: Seq<char>, os: HostOS, global: bool) -> Seq<char> {
    if os == HostOS::Windows {
        name + (if global {
            ".cmd"@
        } else {
            ".ps1"@
        })
    } else {
        name
    }
}

pub fn shim_file_name(name: &String, os: HostOS, global: bool) -> (r: String)
    ensures
        r@ == spec_shim_file_name(name@, os, global),
{
    match os {
        HostOS::Windows => {
            let mut r = name.clone();
            if global {
                r.append(".cmd");
            } else {
                r.append(".ps1");
            }
            r
        },
        _ => name.clone(),
    }
}

/// Write one global shim into the shared bin directory, overwriting any
/// earlier one, and mark it executable.
pub fn create_global_shim(
    bin_dir: &String,
    name: &String,
    os: HostOS,
    target: &String,
    parent: &Option<String>,
) -> (r: Result<String, ProtoError>)
    ensures
        r matches Ok(p) ==> p@ == spec_join(bin_dir@, spec_shim_file_name(name@, os, true)),
        r matches Err(e) ==> e matches ProtoError::Fs(_, _),
{
    let file = shim_file_name(name, os, true);
    let path = join_path(bin_dir, &file);
    let script = build_shim_script(os, target, parent);
    match host::write_file_text(&path, &script) {
        Ok(()) => {},
        Err(m) => {
            return Err(ProtoError::Fs(path, m));
        },
    }
    match host::update_perms(&path, None) {
        Ok(()) => Ok(path),
        Err(m) => Err(ProtoError::Fs(path, m)),
    }
}

/// Write one local shim under the install directory's `shims` folder
/// and mark it executable.
pub fn create_local_shim(
    install_dir: &String,
    name: &String,
    os: HostOS,
    target: &String,
    parent: &Option<String>,
) -> (r: Result<String, ProtoError>)
    ensures
        r matches Ok(p) ==> p@ == spec_join(
            spec_join(install_dir@, "shims"@),
            spec_shim_file_name(name@, os, false),
        ),
        r matches Err(e) ==> e matches ProtoError::Fs(_, _),
{
    let dir = join_path(install_dir, &"shims".to_owned());
    let file = shim_file_name(name, os, false);
    let path = join_path(&dir, &file);
    let script = build_shim_script(os, target, parent);
    match host::write_file_text(&path, &script) {
        Ok(()) => {},
        Err(m) => {
            return Err(ProtoError::Fs(path, m));
        },
    }
    match host::update_perms(&path, None) {
        Ok(()) => Ok(path),
        Err(m) => Err(ProtoError::Fs(path, m)),
    }
}

/// The shim-creation pipeline stage: one global shim for the tool
/// itself pointing at its resolved binary, then every shim the tool
/// declares — global ones in the shared bin directory, local ones under
/// the install directory. Returns the written paths: the tool's own
/// shim first, then one per declared global shim, then one per declared
/// local shim, each at its canonical location.
pub fn create_tool_shims(
    declared: &CreateShimsOutput,
    tool_id: &String,
    tool_target: &String,
    bin_dir: &String,
    install_dir: &String,
    os: HostOS,
) -> (r: Result<Vec<String>, ProtoError>)
    ensures
        r matches Ok(ps) ==> {
            &&& ps@.len() == 1 + declared.global_shims@.len() + declared.local_shims@.len()
            &&& ps@[0]@ == spec_join(bin_dir@, spec_shim_file_name(tool_id@, os, true))
            &&& forall|k: int|
                0 <= k < declared.global_shims@.len() ==> ps@[1 + k]@ == spec_join(
                    bin_dir@,
                    spec_shim_file_name((#[trigger] declared.global_shims@[k]).0@, os, true),
                )
            &&& forall|k: int|
                0 <= k < declared.local_shims@.len() ==> ps@[1 + declared.global_shims@.len() + k]@
                    == spec_join(
                    spec_join(install_dir@, "shims"@),
                    spec_shim_file_name((#[trigger] declared.local_shims@[k]).0@, os, false),
                )
        },
        r matches Err(e) ==> e matches ProtoError::Fs(_, _),
{
    let mut written: Vec<String> = Vec::new();
    match create_global_shim(bin_dir, tool_id, os, tool_target, &None) {
        Ok(p) => {
            written.push(p);
        },
        Err(e) => {
            return Err(e);
        },
    }
    let mut i: usize = 0;
    while i < declared.global_shims.len()
        invariant
            0 <= i <= declared.global_shims@.len(),
            written@.len() == 1 + i,
            written@[0]@ == spec_join(bin_dir@, spec_shim_file_name(tool_id@, os, true)),
            forall|k: int|
                0 <= k < i ==> written@[1 + k]@ == spec_join(
                    bin_dir@,
                    spec_shim_file_name((#[trigger] declared.global_shims@[k]).0@, os, true),
                ),
        decreases declared.global_shims@.len() - i,
    {
        let name = &declared.global_shims[i].0;
        let config = &declared.global_shims[i].1;
        let rel = match &config.bin_path {
            Option::Some(b) => b.clone(),
            Option::None => name.clone(),
        };
        let target = join_path(install_dir, &rel);
        match create_global_shim(bin_dir, name, os, &target, &config.parent_bin) {
            Ok(p) => {
                written.push(p);
            },
            Err(e) => {
                return Err(e);
            },
        }
        i += 1;
    }
    let g = declared.global_shims.len();
    let mut j: usize = 0;
    while j < declared.local_shims.len()
        invariant
            0 <= j <= declared.local_shims@.len(),
            g == declared.global_shims@.len(),
            written@.len() == 1 + g + j,
            written@[0]@ == spec_join(bin_dir@, spec_shim_file_name(tool_id@, os, true)),
            forall|k: int|
                0 <= k < g ==> written@[1 + k]@ == spec_join(
                    bin_dir@,
                    spec_shim_file_name((#[trigger] declared.global_shims@[k]).0@, os, true),
                ),
            forall|k: int|
                0 <= k < j ==> written@[1 + g + k]@ == spec_join(
                    spec_join(install_dir@, "shims"@),
                    spec_shim_file_name((#[trigger] declared.local_shims@[k]).0@, os, false),
                ),
        decreases declared.local_shims@.len() - j,
    {
        let name = &declared.local_shims[j].0;
        let config = &declared.local_shims[j].1;
        let rel = match &config.bin_path {
            Option::Some(b) => b.clone(),
            Option::None => name.clone(),
        };
        let target = join_path(install_dir, &rel);
        match create_local_shim(install_dir, name, os, &target, &config.parent_bin) {
            Ok(p) => {
                written.push(p);
            },
            Err(e) => {
                return Err(e);
            },
        }
        j += 1;
    }
    Ok(written)
}

} // verus!
