//! Window enumeration and application-metadata resolution engine.
//!
//! The crate verifies the decision logic of a desktop utility that lists
//! visible top-level windows, resolves each to its owning executable's
//! display name and icon, and pins windows "always on top".  Operating-system
//! interop (window handles, COM shell objects, GDI bitmaps) is performed by
//! an unverified shell around this library; every function here works on
//! plain values and carries a contract.

pub mod icon;
pub mod lang;
pub mod meta;
pub mod names;
pub mod paths;
pub mod settings;
pub mod topmost;
pub mod winlist;

use vstd::prelude::*;

verus! {

/// The error taxonomy of the engine.  Every operating-system failure is
/// translated to one of these at the point of the call; no raw platform
/// error code crosses a component boundary.
#[derive(Clone, Copy, Debug, PartialEq, Eq, Structural)]
pub enum WinError {
    /// A path with an extension the resolver does not handle.
    UnsupportedFileType,
    /// A shortcut whose target is not an executable.
    UnsupportedTarget,
    /// A shortcut file that could not be loaded or holds no target.
    LinkError,
    /// A window icon that could not be extracted or encoded.
    IconError,
    /// A window whose owning process cannot be identified or read.
    ProcessUnresolvable,
}

} // verus!
