//! The scanner: one pass over an argument list, from left to right.

use vstd::prelude::*;
use crate::arg::{option_view, spec_kind, views, Arg, ArgView, FlagKind};
use crate::options::{FileType, OptimizationOptions};
use crate::plan::{result_view, Error, ErrorView, InvocationPlan, PlanView};

verus! {

/// What the scanner has gathered at some point of the list.
pub struct Scan {
    pub options: OptimizationOptions,
    pub input_file: Option<ArgView>,
    pub input_sourcemap: Option<ArgView>,
    pub output_file: Option<ArgView>,
    pub output_sourcemap: Option<ArgView>,
    /// The arguments that found no place, oldest first.
    pub unsupported: Seq<ArgView>,
}

/// How a scan ends.
pub enum Outcome {
    /// Every argument was read.
    Done(Scan),
    /// The last argument read was a flag that needs a value.
    EndOfArgs,
    /// The scan met this flag, which the library does not carry out.
    Unimplemented(ArgView),
}

impl Scan {
    /// Nothing gathered yet: the default settings, no file, no complaint.
    pub open spec fn start() -> Scan {
        Scan {
            options: OptimizationOptions::spec_default(),
            input_file: None,
            input_sourcemap: None,
            output_file: None,
            output_sourcemap: None,
            unsupported: Seq::empty(),
        }
    }
}

/// Whether a flag of this kind takes the argument after it as its value.
pub open spec fn takes_value(kind: FlagKind) -> bool {
    kind == FlagKind::Output || kind == FlagKind::InputSourceMap || kind == FlagKind::OutputSourceMap
}

/// An argument meets the slot that it is meant for, as a file name meets
/// the input file or a flag's value the flag's slot: it fills an empty
/// slot, and is set aside where the slot is taken.
pub open spec fn spec_bind(slot: Option<ArgView>, unsupported: Seq<ArgView>, arg: ArgView) -> (
    Option<ArgView>,
    Seq<ArgView>,
) {
    if slot is None {
        (Some(arg), unsupported)
    } else {
        (slot, unsupported.push(arg))
    }
}

/// What is gathered after the argument at `cursor`, which is no pending
/// flag, and which has an argument after it if it takes a value.
pub open spec fn spec_step(args: Seq<ArgView>, cursor: int, state: Scan) -> Scan {
    let arg = args[cursor];
    match spec_kind(arg) {
        FlagKind::Output => {
            let (slot, unsupported) = spec_bind(state.output_file, state.unsupported, args[cursor + 1]);
            Scan { output_file: slot, unsupported, ..state }
        },
        FlagKind::InputSourceMap => {
            let (slot, unsupported) = spec_bind(state.input_sourcemap, state.unsupported, args[cursor + 1]);
            Scan { input_sourcemap: slot, unsupported, ..state }
        },
        FlagKind::OutputSourceMap => {
            let (slot, unsupported) = spec_bind(state.output_sourcemap, state.unsupported, args[cursor + 1]);
            Scan { output_sourcemap: slot, unsupported, ..state }
        },
        FlagKind::EmitText => Scan {
            options: state.options.spec_with_writer_file_type(FileType::Wat),
            ..state
        },
        FlagKind::ApplyProfile(profile) => Scan {
            options: profile.spec_apply_to(state.options),
            ..state
        },
        FlagKind::Quiet => state,
        FlagKind::Pending => state,
        FlagKind::Positional => {
            let (slot, unsupported) = spec_bind(state.input_file, state.unsupported, arg);
            Scan { input_file: slot, unsupported, ..state }
        },
    }
}

/// How the scan ends that stands at `cursor` with `state` gathered.
pub open spec fn spec_scan(args: Seq<ArgView>, cursor: int, state: Scan) -> Outcome
    decreases args.len() - cursor,
{
    if cursor < 0 || cursor >= args.len() {
        Outcome::Done(state)
    } else if spec_kind(args[cursor]) == FlagKind::Pending {
        Outcome::Unimplemented(args[cursor])
    } else if takes_value(spec_kind(args[cursor])) {
        if cursor + 1 >= args.len() {
            Outcome::EndOfArgs
        } else {
            spec_scan(args, cursor + 2, spec_step(args, cursor, state))
        }
    } else {
        spec_scan(args, cursor + 1, spec_step(args, cursor, state))
    }
}

/// Whether the scan that stands at `cursor` comes to stand at `target`, so
/// that the argument there is read where a flag may stand and not as the
/// value of the flag before it.
pub open spec fn spec_reaches(args: Seq<ArgView>, cursor: int, target: int) -> bool
    decreases args.len() - cursor,
{
    if cursor >= target {
        cursor == target
    } else if cursor < 0 || cursor >= args.len() {
        false
    } else if spec_kind(args[cursor]) == FlagKind::Pending {
        false
    } else if takes_value(spec_kind(args[cursor])) {
        if cursor + 1 < args.len() {
            spec_reaches(args, cursor + 2, target)
        } else {
            false
        }
    } else {
        spec_reaches(args, cursor + 1, target)
    }
}

/// Whether the scan of the whole list reads the argument at `place` where
/// a flag may stand.
pub open spec fn is_flag_place(args: Seq<ArgView>, place: int) -> bool {
    0 <= place < args.len() && spec_reaches(args, 0, place)
}

/// The result for a scan that read every argument: the input file is asked
/// for first, then the output file, then nothing may have been set aside.
pub open spec fn spec_finish(state: Scan) -> Result<PlanView, ErrorView> {
    if state.input_file is None {
        Err(ErrorView::InputFileRequired)
    } else if state.output_file is None {
        Err(ErrorView::OutputFileRequired)
    } else if state.unsupported.len() > 0 {
        Err(ErrorView::Unsupported { args: state.unsupported })
    } else {
        Ok(
            PlanView {
                options: state.options,
                input_file: state.input_file->Some_0,
                input_sourcemap: state.input_sourcemap,
                output_file: state.output_file->Some_0,
                output_sourcemap: state.output_sourcemap,
            },
        )
    }
}

/// The result for a scan that ended in `outcome`.
pub open spec fn spec_conclude(outcome: Outcome) -> Result<PlanView, ErrorView> {
    match outcome {
        Outcome::Done(state) => spec_finish(state),
        Outcome::EndOfArgs => Err(ErrorView::UnexpectedEndOfArgs),
        Outcome::Unimplemented(flag) => Err(ErrorView::Unimplemented { flag }),
    }
}

/// The translation of an argument list.
pub open spec fn spec_translate(args: Seq<ArgView>) -> Result<PlanView, ErrorView> {
    spec_conclude(spec_scan(args, 0, Scan::start()))
}

/// The views of a list with one more argument.
pub proof fn lemma_views_push(args: Seq<Arg>, arg: Arg)
    ensures
        views(args.push(arg)) == views(args).push(arg@),
{
    assert(views(args.push(arg)) =~= views(args).push(arg@));
}

/// A file name found where a flag may stand: it becomes the input file if
/// there is none yet, and is set aside otherwise.
pub fn parse_infile_path(arg: &Arg, maybe_input_file: &mut Option<Arg>, unsupported: &mut Vec<Arg>)
    ensures
        (option_view(*final(maybe_input_file)), views(final(unsupported)@)) == spec_bind(
            option_view(*old(maybe_input_file)),
            views(old(unsupported)@),
            arg@,
        ),
{
    if maybe_input_file.is_none() {
        *maybe_input_file = Some(arg.clone());
    } else {
        let copy = arg.clone();
        proof {
            lemma_views_push(unsupported@, copy);
        }
        unsupported.push(copy);
    }
}

/// The flag at `cursor` takes the argument after it as its value. Where
/// there is none, nothing changes and the list has ended too early.
/// Otherwise the value fills `maybe_path` if that is empty, and is set
/// aside if it is not.
pub fn parse_path_into(
    args: &[Arg],
    cursor: usize,
    maybe_path: &mut Option<Arg>,
    unsupported: &mut Vec<Arg>,
) -> (result: Result<(), Error>)
    requires
        cursor < args@.len(),
    ensures
        cursor + 1 >= args@.len() ==> {
            &&& result == Err::<(), Error>(Error::UnexpectedEndOfArgs)
            &&& *final(maybe_path) == *old(maybe_path)
            &&& *final(unsupported) == *old(unsupported)
        },
        cursor + 1 < args@.len() ==> {
            &&& result is Ok
            &&& (option_view(*final(maybe_path)), views(final(unsupported)@)) == spec_bind(
                option_view(*old(maybe_path)),
                views(old(unsupported)@),
                args@[cursor + 1]@,
            )
        },
{
    if cursor >= args.len() - 1 {
        return Err(Error::UnexpectedEndOfArgs);
    }
    let value = args[cursor + 1].clone();
    if maybe_path.is_none() {
        *maybe_path = Some(value);
    } else {
        proof {
            lemma_views_push(unsupported@, value);
        }
        unsupported.push(value);
    }
    Ok(())
}

/// Translates an argument list into a plan.
///
/// The arguments are read from left to right. A flag that takes a value
/// takes the argument after it, whatever that is. The first file name is the
/// input file, and the first value of a flag is the flag's; a later one is
/// set aside. The scan stops at once at a flag that lacks its value, and at
/// a flag that the library does not carry out. After a full scan the input
/// file is asked for, then the output file; then any argument that was set
/// aside makes the list unsupported.
pub fn translate(args: &[Arg]) -> (result: Result<InvocationPlan, Error>)
    ensures
        result_view(result) == spec_translate(views(args@)),
{
    let mut opts = OptimizationOptions::default();
    let mut input_file: Option<Arg> = None;
    let mut input_sourcemap: Option<Arg> = None;
    let mut output_file: Option<Arg> = None;
    let mut output_sourcemap: Option<Arg> = None;
    let mut unsupported: Vec<Arg> = Vec::new();
    let ghost tokens = views(args@);
    let ghost mut state = Scan::start();
    proof {
        assert(views(unsupported@) =~= Seq::<ArgView>::empty());
    }

    let mut cursor: usize = 0;
    while cursor < args.len()
        invariant
            tokens == views(args@),
            cursor <= args@.len(),
            state == (Scan {
                options: opts,
                input_file: option_view(input_file),
                input_sourcemap: option_view(input_sourcemap),
                output_file: option_view(output_file),
                output_sourcemap: option_view(output_sourcemap),
                unsupported: views(unsupported@),
            }),
            spec_scan(tokens, cursor as int, state) == spec_scan(tokens, 0, Scan::start()),
        decreases args@.len() - cursor,
    {
        let arg = &args[cursor];
        proof {
            assert(tokens[cursor as int] == arg@);
            if cursor + 1 < args@.len() {
                assert(tokens[cursor + 1] == args@[cursor + 1]@);
            }
        }
        match arg.kind() {
            FlagKind::Output => {
                if let Err(error) = parse_path_into(args, cursor, &mut output_file, &mut unsupported) {
                    return Err(error);
                }
                cursor += 1;
            },
            FlagKind::EmitText => {
                opts.writer_file_type(FileType::Wat);
            },
            FlagKind::InputSourceMap => {
                if let Err(error) = parse_path_into(args, cursor, &mut input_sourcemap, &mut unsupported) {
                    return Err(error);
                }
                cursor += 1;
            },
            FlagKind::OutputSourceMap => {
                if let Err(error) = parse_path_into(args, cursor, &mut output_sourcemap, &mut unsupported) {
                    return Err(error);
                }
                cursor += 1;
            },
            FlagKind::ApplyProfile(profile) => {
                profile.apply_to(&mut opts);
            },
            FlagKind::Quiet => {},
            FlagKind::Pending => {
                return Err(Error::Unimplemented { flag: arg.clone() });
            },
            FlagKind::Positional => {
                parse_infile_path(arg, &mut input_file, &mut unsupported);
            },
        }
        cursor += 1;
        proof {
            state = Scan {
                options: opts,
                input_file: option_view(input_file),
                input_sourcemap: option_view(input_sourcemap),
                output_file: option_view(output_file),
                output_sourcemap: option_view(output_sourcemap),
                unsupported: views(unsupported@),
            };
        }
    }

    let input_file = match input_file {
        Some(input_file) => input_file,
        None => {
            return Err(Error::InputFileRequired);
        },
    };
    let output_file = match output_file {
        Some(output_file) => output_file,
        None => {
            return Err(Error::OutputFileRequired);
        },
    };
    if unsupported.len() > 0 {
        return Err(Error::Unsupported { args: unsupported });
    }
    Ok(InvocationPlan { options: opts, input_file, input_sourcemap, output_file, output_sourcemap })
}

} // verus!
