//! Safe, serialised access to the zenroom engine, and the build-time
//! decisions that pick, link and assemble the engine for a target.

pub mod text;
pub mod marshal;
pub mod buffer;
pub mod request;
pub mod exec;
pub mod build_error;
pub mod platform;
pub mod bindings;
pub mod archive;

pub use buffer::{buffer_to_string, OUTPUT_BUFFER_SIZE};
pub use exec::{EngineSession, zencode_exec, zencode_exec_extra, zenroom_exec, ExecMode, NativeEngine, ZenError, ZenResult};
pub use request::{NativeRequest, NulError};
