//! Errors that stop a build of the engine binding.

use vstd::prelude::*;
use vstd::string::StringExecFns;

verus! {

#[derive(Clone, Debug)]
pub enum BuildError {
    /// The target's operating system is not one the engine supports.
    UnsupportedTarget { os: String },
    /// The prebuilt engine library is absent and building from source is off.
    LibraryMissing { library: String, root: String, make_target: String },
    /// No precompiled declarations match the target and generating them is off.
    BindingGeneration { target: String },
    /// None of the inputs of the static archive exist.
    EmptyArchive,
    /// A build tool ran and reported failure.
    ToolFailed { tool: String },
}

impl BuildError {
    /// The error as an actionable message.
    pub fn message(&self) -> (r: String)
        ensures
            self matches BuildError::UnsupportedTarget { os } ==> r@ == "Unsupported target OS: "@
                + os@ + ". Supported: macOS, Linux, iOS."@,
            self matches BuildError::LibraryMissing { library, root, make_target } ==> r@
                == "Zenroom library not found: "@ + library@
                + "\n\nOptions:\n1. Use --features bundled to build from source\n2. Build library manually: cd "@
                + root@ + " && make "@ + make_target@
                + "\n3. Install system package (if available)"@,
            self matches BuildError::BindingGeneration { target } ==> r@
                == "No pre-generated bindings for "@ + target@
                + ".\nUse: cargo build --features buildtime_bindgen"@,
            self is EmptyArchive ==> r@
                == "No object files found for static archive. Build may have failed."@,
            self matches BuildError::ToolFailed { tool } ==> r@ == "Build tool failed: "@ + tool@,
    {
        match self {
            BuildError::UnsupportedTarget { os } => String::from_str("Unsupported target OS: ").concat(
                os.as_str(),
            ).concat(". Supported: macOS, Linux, iOS."),
            BuildError::LibraryMissing { library, root, make_target } => String::from_str(
                "Zenroom library not found: ",
            ).concat(library.as_str()).concat(
                "\n\nOptions:\n1. Use --features bundled to build from source\n2. Build library manually: cd ",
            ).concat(root.as_str()).concat(" && make ").concat(make_target.as_str()).concat(
                "\n3. Install system package (if available)",
            ),
            BuildError::BindingGeneration { target } => String::from_str(
                "No pre-generated bindings for ",
            ).concat(target.as_str()).concat(".\nUse: cargo build --features buildtime_bindgen"),
            BuildError::EmptyArchive => String::from_str(
                "No object files found for static archive. Build may have failed.",
            ),
            BuildError::ToolFailed { tool } => String::from_str("Build tool failed: ").concat(
                tool.as_str(),
            ),
        }
    }
}

} // verus!
