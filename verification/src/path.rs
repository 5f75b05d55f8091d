//! The two path representations of the crate.
//!
//! [`absolute`] wraps a host-native path that is known to be absolute;
//! [`relative`] stores a repository-relative location as a sequence of named
//! components, independent of the host's separator conventions.

pub mod absolute;
pub mod relative;

pub use absolute::AbsolutePath;
pub use absolute::AbsolutePathBuf;
pub use relative::Component;
pub use relative::RelativePathBuf;
