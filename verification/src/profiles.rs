//! The presets that the `-O` flags select.

use vstd::prelude::*;
use crate::options::{OptimizationOptions, OptimizeLevel, ShrinkLevel};
use crate::text::text_eq;

verus! {

/// A named bundle of optimizer settings.
#[derive(Clone, Copy, Debug, PartialEq, Eq, Structural)]
pub struct Profile {
    pub optimize_level: OptimizeLevel,
    pub shrink_level: ShrinkLevel,
    pub add_default_passes: bool,
}

/// The preset of a flag's text, if the text is one of the `-O` flags.
pub open spec fn spec_by_name(name: Seq<char>) -> Option<Profile> {
    if name == "-O"@ || name == "-Os"@ {
        Some(Profile::spec_optimize_for_size())
    } else if name == "-O0"@ {
        Some(Profile::spec_level(OptimizeLevel::Level0))
    } else if name == "-O1"@ {
        Some(Profile::spec_level(OptimizeLevel::Level1))
    } else if name == "-O2"@ {
        Some(Profile::spec_level(OptimizeLevel::Level2))
    } else if name == "-O3"@ {
        Some(Profile::spec_level(OptimizeLevel::Level3))
    } else if name == "-O4"@ {
        Some(Profile::spec_level(OptimizeLevel::Level4))
    } else if name == "-Oz"@ {
        Some(Profile::spec_optimize_for_size_aggressively())
    } else {
        None
    }
}

impl Profile {
    /// The preset that optimizes for speed at `level` and does not shrink.
    /// At level 0 no default pass runs.
    pub open spec fn spec_level(level: OptimizeLevel) -> Profile {
        Profile {
            optimize_level: level,
            shrink_level: ShrinkLevel::Level0,
            add_default_passes: level != OptimizeLevel::Level0,
        }
    }

    pub open spec fn spec_optimize_for_size() -> Profile {
        Profile {
            optimize_level: OptimizeLevel::Level2,
            shrink_level: ShrinkLevel::Level1,
            add_default_passes: true,
        }
    }

    pub open spec fn spec_optimize_for_size_aggressively() -> Profile {
        Profile {
            optimize_level: OptimizeLevel::Level2,
            shrink_level: ShrinkLevel::Level2,
            add_default_passes: true,
        }
    }

    /// What `options` are once this preset is applied: the preset's three
    /// settings, and the rest of `options` as it was.
    pub open spec fn spec_apply_to(self, options: OptimizationOptions) -> OptimizationOptions {
        OptimizationOptions {
            optimize_level: self.optimize_level,
            shrink_level: self.shrink_level,
            add_default_passes: self.add_default_passes,
            ..options
        }
    }

    /// The preset of `-O` and `-Os`: level 2, shrinking at level 1.
    pub fn optimize_for_size() -> (profile: Profile)
        ensures
            profile == Profile::spec_optimize_for_size(),
    {
        Profile {
            optimize_level: OptimizeLevel::Level2,
            shrink_level: ShrinkLevel::Level1,
            add_default_passes: true,
        }
    }

    /// The preset of `-Oz`: level 2, shrinking at level 2.
    pub fn optimize_for_size_aggressively() -> (profile: Profile)
        ensures
            profile == Profile::spec_optimize_for_size_aggressively(),
    {
        Profile {
            optimize_level: OptimizeLevel::Level2,
            shrink_level: ShrinkLevel::Level2,
            add_default_passes: true,
        }
    }

    /// The preset of `-O0`: nothing is optimized.
    pub fn opt_level_0() -> (profile: Profile)
        ensures
            profile == Profile::spec_level(OptimizeLevel::Level0),
    {
        Profile {
            optimize_level: OptimizeLevel::Level0,
            shrink_level: ShrinkLevel::Level0,
            add_default_passes: false,
        }
    }

    /// The preset of `-O1`.
    pub fn opt_level_1() -> (profile: Profile)
        ensures
            profile == Profile::spec_level(OptimizeLevel::Level1),
    {
        Profile {
            optimize_level: OptimizeLevel::Level1,
            shrink_level: ShrinkLevel::Level0,
            add_default_passes: true,
        }
    }

    /// The preset of `-O2`.
    pub fn opt_level_2() -> (profile: Profile)
        ensures
            profile == Profile::spec_level(OptimizeLevel::Level2),
    {
        Profile {
            optimize_level: OptimizeLevel::Level2,
            shrink_level: ShrinkLevel::Level0,
            add_default_passes: true,
        }
    }

    /// The preset of `-O3`.
    pub fn opt_level_3() -> (profile: Profile)
        ensures
            profile == Profile::spec_level(OptimizeLevel::Level3),
    {
        Profile {
            optimize_level: OptimizeLevel::Level3,
            shrink_level: ShrinkLevel::Level0,
            add_default_passes: true,
        }
    }

    /// The preset of `-O4`.
    pub fn opt_level_4() -> (profile: Profile)
        ensures
            profile == Profile::spec_level(OptimizeLevel::Level4),
    {
        Profile {
            optimize_level: OptimizeLevel::Level4,
            shrink_level: ShrinkLevel::Level0,
            add_default_passes: true,
        }
    }

    /// Looks a preset up by the text of its flag.
    pub fn by_name(name: &str) -> (profile: Option<Profile>)
        ensures
            profile == spec_by_name(name@),
    {
        if text_eq(name, "-O") || text_eq(name, "-Os") {
            Some(Profile::optimize_for_size())
        } else if text_eq(name, "-O0") {
            Some(Profile::opt_level_0())
        } else if text_eq(name, "-O1") {
            Some(Profile::opt_level_1())
        } else if text_eq(name, "-O2") {
            Some(Profile::opt_level_2())
        } else if text_eq(name, "-O3") {
            Some(Profile::opt_level_3())
        } else if text_eq(name, "-O4") {
            Some(Profile::opt_level_4())
        } else if text_eq(name, "-Oz") {
            Some(Profile::optimize_for_size_aggressively())
        } else {
            None
        }
    }

    /// Writes this preset's settings into `options`.
    pub fn apply_to(self, options: &mut OptimizationOptions)
        ensures
            *final(options) == self.spec_apply_to(*old(options)),
    {
        options.optimize_level = self.optimize_level;
        options.shrink_level = self.shrink_level;
        options.add_default_passes = self.add_default_passes;
    }
}

impl Default for Profile {
    fn default() -> (profile: Profile)
        ensures
            profile == Profile::spec_optimize_for_size(),
    {
        Profile::optimize_for_size()
    }
}

/// Of two presets applied one after the other, the second decides: the
/// result is what the second alone gives.
pub proof fn lemma_last_profile_wins(first: Profile, second: Profile, options: OptimizationOptions)
    ensures
        second.spec_apply_to(first.spec_apply_to(options)) == second.spec_apply_to(options),
{
}

/// A preset leaves the output format alone, and applying it twice changes
/// nothing more.
pub proof fn lemma_profile_keeps_format(profile: Profile, options: OptimizationOptions)
    ensures
        profile.spec_apply_to(options).writer_file_type == options.writer_file_type,
        profile.spec_apply_to(profile.spec_apply_to(options)) == profile.spec_apply_to(options),
{
}

} // verus!
