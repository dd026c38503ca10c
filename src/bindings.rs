//! Choosing the declaration set the facade binds against for a target.

use vstd::prelude::*;
use vstd::string::StringExecFns;
use crate::build_error::BuildError;
use crate::text::same_text;

verus! {

/// The precompiled declaration set for a target triple, by module name, if
/// one exists.
pub open spec fn precompiled_for(os: Seq<char>, arch: Seq<char>, env: Seq<char>) -> Option<
    Seq<char>,
> {
    if os == "macos"@ && arch == "aarch64"@ {
        Some("macos_arm64"@)
    } else if os == "ios"@ && arch == "aarch64"@ && env == "sim"@ {
        Some("ios_sim_arm64"@)
    } else if os == "ios"@ && arch == "aarch64"@ && env == ""@ {
        Some("ios_arm64"@)
    } else if os == "linux"@ && arch == "x86_64"@ {
        Some("linux_x86_64"@)
    } else if os == "linux"@ && arch == "aarch64"@ {
        Some("linux_aarch64"@)
    } else {
        None
    }
}

/// Looks up the precompiled declaration set for a target triple.
pub fn precompiled_bindings(target_os: &str, target_arch: &str, target_env: &str) -> (r: Option<
    String,
>)
    ensures
        r is Some <==> precompiled_for(target_os@, target_arch@, target_env@) is Some,
        r matches Some(m) ==> Some(m@) == precompiled_for(target_os@, target_arch@, target_env@),
{
    let macos = same_text(target_os, "macos");
    let ios = same_text(target_os, "ios");
    let linux = same_text(target_os, "linux");
    let aarch64 = same_text(target_arch, "aarch64");
    let x86_64 = same_text(target_arch, "x86_64");
    if macos && aarch64 {
        Some(String::from_str("macos_arm64"))
    } else if ios && aarch64 && same_text(target_env, "sim") {
        Some(String::from_str("ios_sim_arm64"))
    } else if ios && aarch64 && same_text(target_env, "") {
        Some(String::from_str("ios_arm64"))
    } else if linux && x86_64 {
        Some(String::from_str("linux_x86_64"))
    } else if linux && aarch64 {
        Some(String::from_str("linux_aarch64"))
    } else {
        None
    }
}

/// Whether a precompiled declaration set exists for the target triple.
pub fn has_pregenerated_bindings(target_os: &str, target_arch: &str, target_env: &str) -> (r: bool)
    ensures
        r == precompiled_for(target_os@, target_arch@, target_env@) is Some,
{
    precompiled_bindings(target_os, target_arch, target_env).is_some()
}

/// The declaration set a build binds against.
#[derive(Clone, Debug)]
pub enum Bindings {
    /// A precompiled set, by module name.
    Precompiled(String),
    /// A set generated from the engine's header, restricted to the allow-list.
    Generated,
}

/// Picks the declarations: generated ones when generation is asked for,
/// else the precompiled set of the target, else an error naming the target.
pub fn select_bindings(
    target_os: &str,
    target_arch: &str,
    target_env: &str,
    generate: bool,
) -> (r: Result<Bindings, BuildError>)
    ensures
        generate ==> r matches Ok(Bindings::Generated),
        !generate ==> match precompiled_for(target_os@, target_arch@, target_env@) {
            Some(m) => r matches Ok(Bindings::Precompiled(n)) && n@ == m,
            None => r matches Err(BuildError::BindingGeneration { target }) && target@
                == target_os@ + "-"@ + target_arch@ + "-"@ + target_env@,
        },
{
    if generate {
        return Ok(Bindings::Generated);
    }
    match precompiled_bindings(target_os, target_arch, target_env) {
        Some(m) => Ok(Bindings::Precompiled(m)),
        None => {
            let target = String::from_str(target_os).concat("-").concat(target_arch).concat(
                "-",
            ).concat(target_env);
            Err(BuildError::BindingGeneration { target })
        },
    }
}

/// The engine functions that generated declarations may import.
pub fn allowlisted_functions() -> (r: Vec<&'static str>)
    ensures
        r@.map_values(|s: &str| s@) == seq![
            "zencode_exec"@,
            "zencode_exec_tobuf"@,
            "zenroom_exec"@,
            "zenroom_exec_tobuf"@,
            "zen_init"@,
            "zen_init_extra"@,
            "zen_exec_zencode"@,
            "zen_exec_lua"@,
            "zen_teardown"@,
        ],
{
    let r = vec![
        "zencode_exec",
        "zencode_exec_tobuf",
        "zenroom_exec",
        "zenroom_exec_tobuf",
        "zen_init",
        "zen_init_extra",
        "zen_exec_zencode",
        "zen_exec_lua",
        "zen_teardown",
    ];
    assert(r@.map_values(|s: &str| s@) =~= seq![
        "zencode_exec"@,
        "zencode_exec_tobuf"@,
        "zenroom_exec"@,
        "zenroom_exec_tobuf"@,
        "zen_init"@,
        "zen_init_extra"@,
        "zen_exec_zencode"@,
        "zen_exec_lua"@,
        "zen_teardown"@,
    ]);
    r
}

/// The engine's status constants that generated declarations may import.
pub fn allowlisted_constants() -> (r: Vec<&'static str>)
    ensures
        r@.map_values(|s: &str| s@) == seq![
            "SUCCESS"@,
            "ERR_GENERIC"@,
            "ERR_EXEC"@,
            "ERR_PARSE"@,
            "ERR_INIT"@,
        ],
{
    let r = vec!["SUCCESS", "ERR_GENERIC", "ERR_EXEC", "ERR_PARSE", "ERR_INIT"];
    assert(r@.map_values(|s: &str| s@) =~= seq![
        "SUCCESS"@,
        "ERR_GENERIC"@,
        "ERR_EXEC"@,
        "ERR_PARSE"@,
        "ERR_INIT"@,
    ]);
    r
}

} // verus!
