//! Platform detection logic: whether collected host evidence indicates a
//! WSL2 environment. Reading the environment and the kernel version text is
//! the caller's concern; the decision over that evidence is made here.

use vstd::prelude::*;

use crate::text::{contains_sub, str_contains};

verus! {

/// Kernel version text carries a WSL2 signature: it mentions either "WSL2"
/// or "microsoft".
pub open spec fn wsl2_marker(version: Seq<char>) -> bool {
    contains_sub(version, "WSL2"@) || contains_sub(version, "microsoft"@)
}

/// Whether kernel version text carries a WSL2 signature.
pub fn wsl2_in_version_text(version: &str) -> (r: bool)
    ensures
        r == wsl2_marker(version@),
{
    str_contains(version, "WSL2") || str_contains(version, "microsoft")
}

/// The WSL2 verdict over the collected evidence: a WSL environment variable
/// was present, or the kernel version text — where readable — carries the
/// signature.
pub fn wsl2_detected(env_marker: bool, proc_version: Option<&String>) -> (r: bool)
    ensures
        r == (env_marker || (match proc_version {
            Option::Some(v) => wsl2_marker(v@),
            Option::None => false,
        })),
{
    if env_marker {
        return true;
    }
    match proc_version {
        Option::Some(v) => wsl2_in_version_text(v.as_str()),
        Option::None => false,
    }
}

} // verus!
