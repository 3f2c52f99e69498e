//! Platform facts that a packaged application needs when it starts: the
//! target triple of the build, and the directory that holds the bundled
//! resources.
//!
//! Neither function looks at the machine. The caller describes the build
//! with a [`Platform`] and the running process with a [`Launch`]; every
//! answer is a function of those values, stated by a `spec` function and
//! proved of the code.

pub mod error;
pub mod paths;
pub mod platform;
pub mod resources;

pub use error::PlatformError;
pub use platform::{target_triple, Architecture, Environment, OperatingSystem, Platform};
pub use resources::{resource_dir, resource_dir_from_exe_dir, Launch, PackageInfo};
