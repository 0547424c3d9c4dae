//! Check levels and their calibrated sample counts.

use vstd::prelude::*;

verus! {

/// Number of random-sector reads performed by a fast check.
pub const FAST_CHECK_COUNT: usize = 24900;

/// Number of random-sector reads performed by a standard check.
pub const STANDARD_CHECK_COUNT: usize = 74700;

/// Number of random-sector reads performed by a deep check.
pub const DEEP_CHECK_COUNT: usize = 149400;

/// Size in bytes of one logical sector, the unit of every sampled read.
pub const SAMPLE_SIZE: usize = 512;

/// How thoroughly a device is checked. The three sampling tiers differ only
/// in how many random sectors they read; `SsdSanitize` performs no sampling
/// at all and instead asks the device for its own secure-erase status.
#[derive(Clone, Copy, Debug, PartialEq, Eq, Structural)]
pub enum CheckLevel {
    Fast,
    Standard,
    Deep,
    SsdSanitize,
}

impl CheckLevel {
    /// The number of sector samples this level draws; zero for `SsdSanitize`,
    /// which delegates to the secure-erase verifier instead of sampling.
    pub open spec fn spec_sample_count(self) -> usize {
        match self {
            CheckLevel::Fast => FAST_CHECK_COUNT,
            CheckLevel::Standard => STANDARD_CHECK_COUNT,
            CheckLevel::Deep => DEEP_CHECK_COUNT,
            CheckLevel::SsdSanitize => 0,
        }
    }

    /// Returns the calibrated sample count associated with this level.
    pub fn sample_count(&self) -> (n: usize)
        ensures
            n == self.spec_sample_count(),
    {
        match self {
            CheckLevel::Fast => FAST_CHECK_COUNT,
            CheckLevel::Standard => STANDARD_CHECK_COUNT,
            CheckLevel::Deep => DEEP_CHECK_COUNT,
            CheckLevel::SsdSanitize => 0,
        }
    }

    /// Maps a one-based menu choice to a level: 1 is fast, 2 standard,
    /// 3 deep, 4 the SSD secure-erase check; anything else is rejected.
    pub fn from_menu_choice(choice: usize) -> (r: Option<CheckLevel>)
        ensures
            r == (match choice {
                1usize => Some(CheckLevel::Fast),
                2usize => Some(CheckLevel::Standard),
                3usize => Some(CheckLevel::Deep),
                4usize => Some(CheckLevel::SsdSanitize),
                _ => None::<CheckLevel>,
            }),
    {
        match choice {
            1 => Some(CheckLevel::Fast),
            2 => Some(CheckLevel::Standard),
            3 => Some(CheckLevel::Deep),
            4 => Some(CheckLevel::SsdSanitize),
            _ => None,
        }
    }
}

} // verus!
