use vstd::prelude::*;
use crate::archive::spec_join;
use crate::installer::join_path;
use crate::text::{to_chars, contains_sub, spec_contains_sub};

verus! {

/// The tool definition for a toolchain managed by an already-installed
/// toolchain manager: install and uninstall run through that manager's
/// own commands, so the pipeline only decides, from the manager's
/// output, whether anything is to be done. The command runs outside the
/// library; the decisions below are what it acts on.
pub struct RustLanguage {
    pub rustup_dir: String,
    pub version: Option<String>,
}

/// The name a toolchain's install directory carries: the resolved
/// version joined with the platform's triple target.
pub open spec fn spec_toolchain_name(version: Seq<char>, triple: Seq<char>) -> Seq<char> {
    version + "-"@ + triple
}

pub fn toolchain_name(version: &String, triple: &String) -> (r: String)
    ensures
        r@ == spec_toolchain_name(version@, triple@),
{
    let mut r = version.clone();
    r.append("-");
    r.append(triple.as_str());
    proof {
        assert(r@ =~= spec_toolchain_name(version@, triple@));
    }
    r
}

impl RustLanguage {
    pub fn new(rustup_dir: &String) -> (r: RustLanguage)
        ensures
            r.rustup_dir@ == rustup_dir@,
            r.version is None,
    {
        RustLanguage { rustup_dir: rustup_dir.clone(), version: None }
    }

    /// The toolchain's install directory under the manager's root,
    /// named by version and triple target.
    pub fn get_install_dir(&self, triple: &String) -> (r: Option<String>)
        ensures
            self.version matches Some(v) ==> (r matches Some(p) && p@ == spec_join(
                self.rustup_dir@,
                spec_toolchain_name(v@, triple@),
            )),
            self.version is None ==> r is None,
    {
        match &self.version {
            Option::Some(v) => {
                let name = toolchain_name(v, triple);
                Some(join_path(&self.rustup_dir, &name))
            },
            Option::None => None,
        }
    }
}

/// Whether the manager's list of installed toolchains names the target:
/// the target occurs in the listing text.
pub fn toolchain_is_listed(listing: &String, target: &String) -> (r: bool)
    ensures
        r == spec_contains_sub(listing@, target@),
{
    let h = to_chars(listing.as_str());
    let n = to_chars(target.as_str());
    contains_sub(&h, &n)
}

/// What one install or uninstall invocation is to do, given the
/// manager's listing.
#[derive(Clone, Copy, Debug, PartialEq, Eq, Structural)]
pub enum ToolchainAction {
    /// Nothing to do; report `false`.
    Nothing,
    /// Run the manager's command; report its success.
    RunCommand,
}

/// Installing an already-listed toolchain, or uninstalling an unlisted
/// one, is a no-op: the listing is the idempotence check.
pub open spec fn spec_toolchain_plan(listed: bool, installing: bool) -> ToolchainAction {
    if listed == installing {
        ToolchainAction::Nothing
    } else {
        ToolchainAction::RunCommand
    }
}

pub fn plan_toolchain(listed: bool, installing: bool) -> (r: ToolchainAction)
    ensures
        r == spec_toolchain_plan(listed, installing),
{
    if listed == installing {
        ToolchainAction::Nothing
    } else {
        ToolchainAction::RunCommand
    }
}

} // verus!
