//! Argument tokens and the table of flags.

use vstd::prelude::*;
use crate::profiles::{spec_by_name, Profile};
use crate::text::text_eq;

verus! {

/// One argument of a command line.
#[derive(Debug, PartialEq, Eq)]
pub enum Arg {
    /// An argument that is text.
    Text(String),
    /// An argument that is no valid text, kept as its bytes. It can only
    /// name a file.
    Opaque(Vec<u8>),
}

/// What an argument holds.
pub enum ArgView {
    Text(Seq<char>),
    Opaque(Seq<u8>),
}

impl View for Arg {
    type V = ArgView;

    open spec fn view(&self) -> ArgView {
        match self {
            Arg::Text(text) => ArgView::Text(text@),
            Arg::Opaque(bytes) => ArgView::Opaque(bytes@),
        }
    }
}

impl Clone for Arg {
    fn clone(&self) -> (copy: Arg)
        ensures
            copy@ == self@,
    {
        match self {
            Arg::Text(text) => Arg::Text(text.clone()),
            Arg::Opaque(bytes) => Arg::Opaque(bytes.clone()),
        }
    }
}

/// What each argument of a list holds, in order.
pub open spec fn views(args: Seq<Arg>) -> Seq<ArgView> {
    Seq::new(args.len(), |i: int| args[i]@)
}

/// What an optional argument holds.
pub open spec fn option_view(arg: Option<Arg>) -> Option<ArgView> {
    match arg {
        Some(arg) => Some(arg@),
        None => None,
    }
}

/// What the scanner does on meeting an argument where a flag may stand.
#[derive(Clone, Copy, Debug, PartialEq, Eq, Structural)]
pub enum FlagKind {
    /// `--output`, `-o`: the next argument is the output file.
    Output,
    /// `--emit-text`, `-S`: the module is written as text.
    EmitText,
    /// `--input-source-map`, `-ism`: the next argument is the input source map.
    InputSourceMap,
    /// `--output-source-map`, `-osm`: the next argument is the output source map.
    OutputSourceMap,
    /// One of the `-O` flags: its preset is applied.
    ApplyProfile(Profile),
    /// `--quiet`, `-q`: accepted, without effect.
    Quiet,
    /// A flag of the optimizer that this library knows and does not carry out.
    Pending,
    /// No flag: a file name.
    Positional,
}

/// Whether `text` is a flag that is known and not carried out.
pub open spec fn spec_is_pending(text: Seq<char>) -> bool {
    ||| text == "--output-source-map-url"@ || text == "-osu"@
    ||| text == "--optimize-level"@ || text == "-ol"@
    ||| text == "--shrink-level"@ || text == "-s"@
    ||| text == "--debuginfo"@ || text == "-g"@
    ||| text == "--always-inline-max-function-size"@ || text == "-aimfs"@
    ||| text == "--flexible-inline-max-function-size"@ || text == "-fimfs"@
    ||| text == "--one-caller-inline-max-function-size"@ || text == "-ocifms"@
    ||| text == "--inline-functions-with-loops"@ || text == "-ifwl"@
    ||| text == "--partial-inlining-ifs"@ || text == "-pii"@
    ||| text == "--traps-never-happen"@ || text == "-tnh"@
    ||| text == "--low-memory-unused"@ || text == "-lmu"@
    ||| text == "--fast-math"@ || text == "-ffm"@
    ||| text == "--zero-filled-memory"@ || text == "-uim"@
    ||| text == "--mvp-features"@ || text == "-mvp"@
    ||| text == "--all-features"@ || text == "-all"@
    ||| text == "--no-validation"@ || text == "-n"@
    ||| text == "--pass-arg"@ || text == "-pa"@
}

/// The table of flags: what `text` stands for where a flag may stand.
pub open spec fn spec_classify(text: Seq<char>) -> FlagKind {
    if text == "--output"@ || text == "-o"@ {
        FlagKind::Output
    } else if text == "--emit-text"@ || text == "-S"@ {
        FlagKind::EmitText
    } else if text == "--input-source-map"@ || text == "-ism"@ {
        FlagKind::InputSourceMap
    } else if text == "--output-source-map"@ || text == "-osm"@ {
        FlagKind::OutputSourceMap
    } else if spec_by_name(text) is Some {
        FlagKind::ApplyProfile(spec_by_name(text)->Some_0)
    } else if text == "--quiet"@ || text == "-q"@ {
        FlagKind::Quiet
    } else if spec_is_pending(text) {
        FlagKind::Pending
    } else {
        FlagKind::Positional
    }
}

/// What an argument stands for where a flag may stand. One that is no text
/// is a file name.
pub open spec fn spec_kind(arg: ArgView) -> FlagKind {
    match arg {
        ArgView::Text(text) => spec_classify(text),
        ArgView::Opaque(_) => FlagKind::Positional,
    }
}

/// Whether `text` is a flag that is known and not carried out.
pub fn is_pending(text: &str) -> (pending: bool)
    ensures
        pending == spec_is_pending(text@),
{
    text_eq(text, "--output-source-map-url") || text_eq(text, "-osu")
        || text_eq(text, "--optimize-level") || text_eq(text, "-ol")
        || text_eq(text, "--shrink-level") || text_eq(text, "-s")
        || text_eq(text, "--debuginfo") || text_eq(text, "-g")
        || text_eq(text, "--always-inline-max-function-size") || text_eq(text, "-aimfs")
        || text_eq(text, "--flexible-inline-max-function-size") || text_eq(text, "-fimfs")
        || text_eq(text, "--one-caller-inline-max-function-size") || text_eq(text, "-ocifms")
        || text_eq(text, "--inline-functions-with-loops") || text_eq(text, "-ifwl")
        || text_eq(text, "--partial-inlining-ifs") || text_eq(text, "-pii")
        || text_eq(text, "--traps-never-happen") || text_eq(text, "-tnh")
        || text_eq(text, "--low-memory-unused") || text_eq(text, "-lmu")
        || text_eq(text, "--fast-math") || text_eq(text, "-ffm")
        || text_eq(text, "--zero-filled-memory") || text_eq(text, "-uim")
        || text_eq(text, "--mvp-features") || text_eq(text, "-mvp")
        || text_eq(text, "--all-features") || text_eq(text, "-all")
        || text_eq(text, "--no-validation") || text_eq(text, "-n")
        || text_eq(text, "--pass-arg") || text_eq(text, "-pa")
}

/// Looks `text` up in the table of flags.
pub fn classify(text: &str) -> (kind: FlagKind)
    ensures
        kind == spec_classify(text@),
{
    if text_eq(text, "--output") || text_eq(text, "-o") {
        return FlagKind::Output;
    }
    if text_eq(text, "--emit-text") || text_eq(text, "-S") {
        return FlagKind::EmitText;
    }
    if text_eq(text, "--input-source-map") || text_eq(text, "-ism") {
        return FlagKind::InputSourceMap;
    }
    if text_eq(text, "--output-source-map") || text_eq(text, "-osm") {
        return FlagKind::OutputSourceMap;
    }
    if let Some(profile) = Profile::by_name(text) {
        return FlagKind::ApplyProfile(profile);
    }
    if text_eq(text, "--quiet") || text_eq(text, "-q") {
        FlagKind::Quiet
    } else if is_pending(text) {
        FlagKind::Pending
    } else {
        FlagKind::Positional
    }
}

impl Arg {
    /// What this argument stands for where a flag may stand.
    pub fn kind(&self) -> (kind: FlagKind)
        ensures
            kind == spec_kind(self@),
    {
        match self {
            Arg::Text(text) => classify(text.as_str()),
            Arg::Opaque(_) => FlagKind::Positional,
        }
    }
}

} // verus!
