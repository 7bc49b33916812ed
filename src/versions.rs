use vstd::prelude::*;

verus! {

/// The language-standard versions that a generated project may target.
pub open spec fn is_supported_version(version: int) -> bool {
    version == 11 || version == 14 || version == 17 || version == 20 || version == 23
}

/// The standard used when none is asked for: the newest supported one.
pub const DEFAULT_VERSION: u8 = 23;

/// Tells whether `version` is one of the supported language standards.
pub fn supports_version(version: u8) -> (r: bool)
    ensures
        r == is_supported_version(version as int),
{
    version == 11 || version == 14 || version == 17 || version == 20 || version == 23
}

} // verus!
