//! Shared helpers: file-content parsing and platform classification.

pub mod file;
pub mod platform;
pub mod process;

pub use file::get_filename;
pub use file::parse_key_value;
pub use file::parse_proc_file;
pub use file::ProcMap;
pub use platform::Platform;
