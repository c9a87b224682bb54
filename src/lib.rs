//! Build-time configuration for plugins built against the X-Plane SDK and
//! the libacfutils utility library: resolves the target platform and derives
//! the compiler flags and link libraries for it.

pub mod flags;
pub mod laws;
pub mod libs;
pub mod platform;
mod text;

pub use flags::get_acfutils_cflags;
pub use libs::get_acfutils_libs;
pub use platform::{Platform, PlatformError, resolve, platform_from_target};
