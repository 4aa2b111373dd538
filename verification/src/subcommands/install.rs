//! Installing the configured toolchains and extra tools through the
//! external toolchain manager and package manager.

use vstd::prelude::*;

use crate::config::ExtendTool;
use crate::config::TargetSelection;
use crate::utils::lower_of;
use crate::utils::lowercase;

verus! {

/// The toolchain-manager command line that installs one selection:
/// `toolchain install <name>`, the name lowercased, with `--profile <p>`
/// appended when the selection pins a profile.
pub fn install_toolchain(target_selection: &TargetSelection) -> (args: Vec<String>)
    ensures
        args@[0]@ == "toolchain"@,
        args@[1]@ == "install"@,
        args@[2]@ == lower_of(target_selection.spec_toolchain_name()),
        match target_selection.profile {
            Some(profile) => args@.len() == 5 && args@[3]@ == "--profile"@ && args@[4]@
                == profile@,
            None => args@.len() == 3,
        },
{
    let toolchain = target_selection.toolchain_name();
    let mut args: Vec<String> = Vec::new();
    args.push("toolchain".to_owned());
    args.push("install".to_owned());
    args.push(lowercase(&toolchain));
    match target_selection.profile {
        Some(ref profile) => {
            // default profile selection is: default
            args.push("--profile".to_owned());
            args.push(profile.clone());
        },
        None => {},
    }
    args
}

/// The package-manager command line that installs one extra tool:
/// `install <spec>`, the install spec lowercased.
pub fn install_extra_tools(tool: &ExtendTool) -> (args: Vec<String>)
    ensures
        args@.len() == 2,
        args@[0]@ == "install"@,
        args@[1]@ == lower_of(tool.spec_crate_name()),
{
    let name = tool.crate_name();
    let mut args: Vec<String> = Vec::new();
    args.push("install".to_owned());
    args.push(lowercase(&name));
    args
}

} // verus!
