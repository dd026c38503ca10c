//! Target detection: how the engine library is named, built and linked on
//! each supported platform.

use vstd::prelude::*;
use vstd::string::StringExecFns;
use crate::build_error::BuildError;
use crate::text::{same_text, starts_with_text};

verus! {

/// How the engine library is obtained and linked for one target.
#[derive(Clone, Debug)]
pub struct PlatformConfig {
    /// The make target that builds the library from source.
    pub make_target: String,
    /// File name of the library artifact.
    pub lib_name: String,
    /// Whether the library is linked statically.
    pub is_static: bool,
    /// Whether the C++ runtime must be linked beside it.
    pub needs_cpp: bool,
    /// Human-readable target description.
    pub description: String,
}

/// An iOS target is a simulator when its environment says so or when it
/// runs on an x86_64 host.
pub open spec fn is_simulator(arch: Seq<char>, env: Seq<char>) -> bool {
    env == "sim"@ || arch == "x86_64"@
}

/// The operating systems the engine supports.
pub open spec fn supported_os(os: Seq<char>) -> bool {
    os == "linux"@ || os == "macos"@ || os == "ios"@
}

/// `c` is the configuration for `os`, `arch`, `env` with the static-linking
/// preference `use_static`. Desktop systems follow the preference; iOS is
/// always static, with a device- or simulator-specific artifact.
pub open spec fn platform_config_for(
    c: PlatformConfig,
    os: Seq<char>,
    arch: Seq<char>,
    env: Seq<char>,
    use_static: bool,
) -> bool {
    if os == "linux"@ || os == "macos"@ {
        &&& c.make_target@ == (if os == "macos"@ {
            "osx-lib"@
        } else {
            "linux-lib"@
        })
        &&& c.lib_name@ == (if use_static {
            "libzenroom.a"@
        } else if os == "macos"@ {
            "libzenroom.dylib"@
        } else {
            "libzenroom.so"@
        })
        &&& c.is_static == use_static
        &&& c.needs_cpp == use_static
        &&& c.description@ == os + " "@ + arch
    } else {
        &&& c.make_target@ == (if is_simulator(arch, env) {
            "ios-sim"@
        } else {
            "ios-arm64"@
        })
        &&& c.lib_name@ == (if is_simulator(arch, env) {
            "zenroom-ios-sim.a"@
        } else {
            "zenroom-ios-arm64.a"@
        })
        &&& c.is_static
        &&& c.needs_cpp
        &&& c.description@ == (if is_simulator(arch, env) {
            "iOS Simulator "@
        } else {
            "iOS Device "@
        }) + arch
    }
}

/// Resolves the link plan for a target. An unsupported operating system
/// fails with an error that names it.
pub fn detect_platform(
    target_os: &str,
    target_arch: &str,
    target_env: &str,
    use_static: bool,
) -> (r: Result<PlatformConfig, BuildError>)
    ensures
        r is Ok <==> supported_os(target_os@),
        r matches Ok(c) ==> platform_config_for(c, target_os@, target_arch@, target_env@, use_static),
        r matches Err(e) ==> e matches BuildError::UnsupportedTarget { os } && os@ == target_os@,
{
    let is_macos = same_text(target_os, "macos");
    let is_linux = same_text(target_os, "linux");
    if is_macos || is_linux {
        let make_target = if is_macos {
            String::from_str("osx-lib")
        } else {
            String::from_str("linux-lib")
        };
        let lib_name = if use_static {
            String::from_str("libzenroom.a")
        } else if is_macos {
            String::from_str("libzenroom.dylib")
        } else {
            String::from_str("libzenroom.so")
        };
        let description = String::from_str(target_os).concat(" ").concat(target_arch);
        Ok(PlatformConfig { make_target, lib_name, is_static: use_static, needs_cpp: use_static, description })
    } else if same_text(target_os, "ios") {
        let is_sim = same_text(target_env, "sim") || same_text(target_arch, "x86_64");
        let make_target = if is_sim {
            String::from_str("ios-sim")
        } else {
            String::from_str("ios-arm64")
        };
        let lib_name = if is_sim {
            String::from_str("zenroom-ios-sim.a")
        } else {
            String::from_str("zenroom-ios-arm64.a")
        };
        let description = if is_sim {
            String::from_str("iOS Simulator ")
        } else {
            String::from_str("iOS Device ")
        }.concat(target_arch);
        Ok(PlatformConfig { make_target, lib_name, is_static: true, needs_cpp: true, description })
    } else {
        Err(BuildError::UnsupportedTarget { os: String::from_str(target_os) })
    }
}

/// Static linking is asked for by a source build, or by a `ZENROOM_STATIC`
/// setting other than "0".
pub fn static_requested(bundled: bool, zenroom_static: Option<&str>) -> (r: bool)
    ensures
        r == (bundled || (zenroom_static matches Some(v) && v@ != "0"@)),
{
    if bundled {
        return true;
    }
    match zenroom_static {
        Some(v) => !same_text(v, "0"),
        None => false,
    }
}

/// Where the engine library comes from for this build.
#[derive(Clone, Copy, Debug, PartialEq, Eq)]
pub enum LibrarySource {
    /// Built from the engine's sources with the configuration's make target.
    FromSource,
    /// An existing library file at the engine's root.
    Prebuilt,
}

/// Decides where the library comes from: a source build when bundling is
/// on, the prebuilt file when it is present, and otherwise an error that
/// tells how to get it. A build never goes on with a missing library.
pub fn library_source(
    config: &PlatformConfig,
    bundled: bool,
    present: bool,
    library: &str,
    root: &str,
) -> (r: Result<LibrarySource, BuildError>)
    ensures
        bundled ==> r == Ok::<LibrarySource, BuildError>(LibrarySource::FromSource),
        !bundled && present ==> r == Ok::<LibrarySource, BuildError>(LibrarySource::Prebuilt),
        !bundled && !present ==> (r matches Err(
            BuildError::LibraryMissing { library: l, root: o, make_target: m },
        ) && l@ == library@ && o@ == root@ && m@ == config.make_target@),
{
    if bundled {
        Ok(LibrarySource::FromSource)
    } else if present {
        Ok(LibrarySource::Prebuilt)
    } else {
        Err(
            BuildError::LibraryMissing {
                library: String::from_str(library),
                root: String::from_str(root),
                make_target: config.make_target.clone(),
            },
        )
    }
}

/// Whether a source build must be gathered into a static archive: iOS
/// make targets produce theirs already.
pub fn needs_static_archive(config: &PlatformConfig) -> (r: bool)
    ensures
        r == (config.is_static && !(3 <= config.make_target@.len()
            && config.make_target@.subrange(0, 3) == "ios"@)),
{
    if !config.is_static {
        return false;
    }
    let s = config.make_target.as_str();
    let ios = starts_with_text(s, "ios");
    proof {
        reveal_strlit("ios");
    }
    !ios
}

/// The linker directives for a configuration, without the build tool's
/// prefix: the search path, the library itself, and the C++ runtime where
/// a static engine needs it.
pub fn link_directives(config: &PlatformConfig, search_dir: &str) -> (r: Vec<String>)
    ensures
        r@.len() == (if config.is_static && config.needs_cpp {
            3int
        } else {
            2int
        }),
        r@[0]@ == "rustc-link-search=native="@ + search_dir@,
        r@[1]@ == (if config.is_static {
            "rustc-link-lib=static=zenroom"@
        } else {
            "rustc-link-lib=dylib=zenroom"@
        }),
        config.is_static && config.needs_cpp ==> r@[2]@ == "rustc-link-lib=c++"@,
{
    let mut r: Vec<String> = Vec::new();
    r.push(String::from_str("rustc-link-search=native=").concat(search_dir));
    if config.is_static {
        r.push(String::from_str("rustc-link-lib=static=zenroom"));
        if config.needs_cpp {
            r.push(String::from_str("rustc-link-lib=c++"));
        }
    } else {
        r.push(String::from_str("rustc-link-lib=dylib=zenroom"));
    }
    r
}

} // verus!
