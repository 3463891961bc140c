//! Platforms as named by ReaPack repository indexes.

use vstd::prelude::*;

verus! {

/// Platform of a package source as declared in a ReaPack repository index.
///
/// `All` means that the source works on any platform. `Darwin`, `Linux` and `Windows` stand
/// for a whole operating system, the others for one architecture of an operating system.
#[derive(Copy, Clone, PartialEq, Eq, Structural, PartialOrd, Ord, Hash, Debug)]
pub enum Platform {
    All,
    Darwin,
    Darwin32,
    Darwin64,
    DarwinArm64,
    Linux,
    Linux32,
    Linux64,
    LinuxArmv7l,
    LinuxAarch64,
    Windows,
    Win32,
    Win64,
}

impl Default for Platform {
    /// A source without platform declaration works everywhere.
    fn default() -> (r: Self)
        ensures
            r == Platform::All,
    {
        Platform::All
    }
}

} // verus!
