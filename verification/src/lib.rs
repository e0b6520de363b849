pub mod bytes;
pub mod config;
pub mod errors;
pub mod forward;
pub mod reverse;
pub mod sync;
