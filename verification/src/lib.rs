//! A virtual filesystem layer over a remote, session-based backend service.
//!
//! The backend offers no path arithmetic, no cursor state and no device
//! routing; this library adds all three. Paths of the form `device:/a/b/c`
//! are split into typed segments, resolved against a registry of mounted
//! devices, and repacked into backend-local path strings. File and directory
//! handles keep cursor and paging state over the stateless backend calls.
//!
//! Every backend round trip is performed by the caller; the library states
//! and proves what is decided before each call and how each reply is folded
//! into the handle or registry state.

pub mod context;
pub mod dir;
pub mod error;
pub mod file;
pub mod path;
pub mod sm;
pub mod types;
