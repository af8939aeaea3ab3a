//! The operating-system families the probe knows how to read.
use vstd::prelude::*;

verus! {

/// The family of the running operating system, chosen once by the caller.
#[derive(Clone, Copy, Debug, PartialEq, Eq, Structural)]
pub enum OsFamily {
    /// Linux-like: battery data under sysfs, several possible package managers.
    Linux,
    /// NetBSD: battery data through `sysctl`, packages through `pkg_info`.
    NetBsd,
}

} // verus!
