//! The optimizer settings that a command line can change.

use vstd::prelude::*;

verus! {

/// The format in which a module is written.
#[derive(Clone, Copy, Debug, PartialEq, Eq, Structural)]
pub enum FileType {
    /// The binary format.
    Wasm,
    /// The text format.
    Wat,
    /// Binary, unless the file's contents say otherwise.
    Any,
}

/// How much effort goes into making the code fast.
#[derive(Clone, Copy, Debug, PartialEq, Eq, Structural)]
pub enum OptimizeLevel {
    Level0,
    Level1,
    Level2,
    Level3,
    Level4,
}

/// How much effort goes into making the code small.
#[derive(Clone, Copy, Debug, PartialEq, Eq, Structural)]
pub enum ShrinkLevel {
    Level0,
    Level1,
    Level2,
}

/// The settings of one optimizer run.
#[derive(Clone, Copy, Debug, PartialEq, Eq, Structural)]
pub struct OptimizationOptions {
    /// The format of the module that is written.
    pub writer_file_type: FileType,
    pub optimize_level: OptimizeLevel,
    pub shrink_level: ShrinkLevel,
    /// Whether the default pass sequence runs.
    pub add_default_passes: bool,
}

impl OptimizationOptions {
    /// The settings before any argument is read: a binary module, optimized
    /// for size.
    pub open spec fn spec_default() -> OptimizationOptions {
        OptimizationOptions {
            writer_file_type: FileType::Wasm,
            optimize_level: OptimizeLevel::Level2,
            shrink_level: ShrinkLevel::Level1,
            add_default_passes: true,
        }
    }

    /// These settings with another output format.
    pub open spec fn spec_with_writer_file_type(self, file_type: FileType) -> OptimizationOptions {
        OptimizationOptions { writer_file_type: file_type, ..self }
    }

    /// Sets the format of the module that is written; nothing else changes.
    pub fn writer_file_type(&mut self, file_type: FileType)
        ensures
            *final(self) == old(self).spec_with_writer_file_type(file_type),
    {
        self.writer_file_type = file_type;
    }
}

impl Default for OptimizationOptions {
    fn default() -> (options: OptimizationOptions)
        ensures
            options == OptimizationOptions::spec_default(),
    {
        OptimizationOptions {
            writer_file_type: FileType::Wasm,
            optimize_level: OptimizeLevel::Level2,
            shrink_level: ShrinkLevel::Level1,
            add_default_passes: true,
        }
    }
}

} // verus!
