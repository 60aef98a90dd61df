//! Isolated script execution: the language catalogue, the input validator,
//! the container policy and the per-request lifecycle, as a verified library.

pub mod config;
pub mod container;
pub mod errors;
pub mod executor;
pub mod logs;
pub mod paths;
pub mod patterns;
pub mod run;
pub mod seccomp;
pub mod security;
pub mod text;
pub mod types;

pub use config::Config;
pub use container::ContainerManager;
pub use errors::SingleloadError;
pub use executor::Executor;
pub use types::{ExecutionResult, Language};
