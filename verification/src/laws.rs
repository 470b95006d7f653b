//! What holds of every translation.

use vstd::prelude::*;
use crate::arg::{spec_kind, ArgView, FlagKind};
use crate::plan::ErrorView;
use crate::scan::{
    is_flag_place, spec_conclude, spec_reaches, spec_scan, spec_translate, takes_value, Outcome, Scan,
};

verus! {

/// Whether `short` is the beginning of `long`.
pub open spec fn is_prefix(short: Seq<ArgView>, long: Seq<ArgView>) -> bool {
    short.len() <= long.len() && forall|i: int| 0 <= i < short.len() ==> long[i] == short[i]
}

/// Whether a slot that was `before` may be `after` later in the same scan:
/// a slot that is filled keeps what it holds.
pub open spec fn slot_kept(before: Option<ArgView>, after: Option<ArgView>) -> bool {
    before is Some ==> after == before
}

/// A scan never gives up what it has gathered: a filled slot keeps its
/// file, and what was set aside stays set aside, in its place.
pub proof fn lemma_scan_keeps(args: Seq<ArgView>, cursor: int, state: Scan)
    requires
        0 <= cursor,
        spec_scan(args, cursor, state) is Done,
    ensures
        ({
            let end = spec_scan(args, cursor, state)->Done_0;
            &&& slot_kept(state.input_file, end.input_file)
            &&& slot_kept(state.input_sourcemap, end.input_sourcemap)
            &&& slot_kept(state.output_file, end.output_file)
            &&& slot_kept(state.output_sourcemap, end.output_sourcemap)
            &&& is_prefix(state.unsupported, end.unsupported)
        }),
    decreases args.len() - cursor,
{
    if cursor >= args.len() {
    } else {
        let kind = spec_kind(args[cursor]);
        let next = crate::scan::spec_step(args, cursor, state);
        let width: int = if takes_value(kind) { 2 } else { 1 };
        lemma_scan_keeps(args, cursor + width, next);
        assert(is_prefix(state.unsupported, next.unsupported));
    }
}

/// To a scan that has an input file, a further file name is one too many:
/// if the scan reads every argument, it keeps its input file and sets the
/// file name aside, behind what was set aside before.
pub proof fn lemma_later_file_name_unsupported(args: Seq<ArgView>, cursor: int, state: Scan)
    requires
        0 <= cursor < args.len(),
        spec_kind(args[cursor]) == FlagKind::Positional,
        state.input_file is Some,
        spec_scan(args, cursor, state) is Done,
    ensures
        ({
            let end = spec_scan(args, cursor, state)->Done_0;
            &&& end.input_file == state.input_file
            &&& end.unsupported.len() > state.unsupported.len()
            &&& end.unsupported[state.unsupported.len() as int] == args[cursor]
            &&& spec_conclude(Outcome::Done(end)) == Err::<crate::plan::PlanView, ErrorView>(
                ErrorView::OutputFileRequired,
            ) || spec_conclude(Outcome::Done(end)) == Err::<crate::plan::PlanView, ErrorView>(
                ErrorView::Unsupported { args: end.unsupported },
            )
        }),
{
    let next = crate::scan::spec_step(args, cursor, state);
    lemma_scan_keeps(args, cursor + 1, next);
    assert(next.unsupported[state.unsupported.len() as int] == args[cursor]);
}

/// To a scan that has no input file, a file name is the input file: if the
/// scan reads every argument, this is the input file at its end.
pub proof fn lemma_first_file_name_is_input(args: Seq<ArgView>, cursor: int, state: Scan)
    requires
        0 <= cursor < args.len(),
        spec_kind(args[cursor]) == FlagKind::Positional,
        state.input_file is None,
        spec_scan(args, cursor, state) is Done,
    ensures
        (spec_scan(args, cursor, state)->Done_0).input_file == Some(args[cursor]),
{
    lemma_scan_keeps(args, cursor + 1, crate::scan::spec_step(args, cursor, state));
}

/// A scan with an input file that comes to a file name later on sets it
/// aside and keeps its input file, if it reads every argument.
proof fn lemma_file_name_ahead_unsupported(args: Seq<ArgView>, cursor: int, state: Scan, place: int)
    requires
        0 <= cursor <= place < args.len(),
        spec_reaches(args, cursor, place),
        spec_kind(args[place]) == FlagKind::Positional,
        state.input_file is Some,
        spec_scan(args, cursor, state) is Done,
    ensures
        (spec_scan(args, cursor, state)->Done_0).input_file == state.input_file,
        (spec_scan(args, cursor, state)->Done_0).unsupported.contains(args[place]),
    decreases args.len() - cursor,
{
    let end = spec_scan(args, cursor, state)->Done_0;
    if cursor == place {
        lemma_later_file_name_unsupported(args, cursor, state);
        assert(end.unsupported[state.unsupported.len() as int] == args[place]);
    } else {
        let width: int = if takes_value(spec_kind(args[cursor])) { 2 } else { 1 };
        assert(spec_reaches(args, cursor + width, place));
        lemma_file_name_ahead_unsupported(
            args,
            cursor + width,
            crate::scan::spec_step(args, cursor, state),
            place,
        );
    }
}

/// A scan that comes to two file names sets the second aside and has an
/// input file, if it reads every argument.
proof fn lemma_second_of_two_unsupported(
    args: Seq<ArgView>,
    cursor: int,
    state: Scan,
    first: int,
    second: int,
)
    requires
        0 <= cursor <= first < second < args.len(),
        spec_reaches(args, cursor, first),
        spec_reaches(args, cursor, second),
        spec_kind(args[first]) == FlagKind::Positional,
        spec_kind(args[second]) == FlagKind::Positional,
        spec_scan(args, cursor, state) is Done,
    ensures
        (spec_scan(args, cursor, state)->Done_0).input_file is Some,
        (spec_scan(args, cursor, state)->Done_0).unsupported.contains(args[second]),
    decreases args.len() - cursor,
{
    let next = crate::scan::spec_step(args, cursor, state);
    if cursor == first {
        assert(spec_reaches(args, cursor + 1, second));
        lemma_file_name_ahead_unsupported(args, cursor + 1, next, second);
    } else {
        let width: int = if takes_value(spec_kind(args[cursor])) { 2 } else { 1 };
        assert(spec_reaches(args, cursor + width, first));
        assert(spec_reaches(args, cursor + width, second));
        lemma_second_of_two_unsupported(args, cursor + width, next, first, second);
    }
}

/// Whether no file name is read where a flag may stand in the scan from
/// `cursor` before it comes to `place`.
pub open spec fn no_file_name_before(args: Seq<ArgView>, cursor: int, place: int) -> bool {
    forall|k: int|
        cursor <= k < place && #[trigger] spec_reaches(args, cursor, k) ==> spec_kind(args[k])
            != FlagKind::Positional
}

/// A scan without an input file takes the first file name that it comes to
/// as its input file, if it reads every argument.
proof fn lemma_first_file_name_ahead_is_input(args: Seq<ArgView>, cursor: int, state: Scan, place: int)
    requires
        0 <= cursor <= place < args.len(),
        spec_reaches(args, cursor, place),
        spec_kind(args[place]) == FlagKind::Positional,
        no_file_name_before(args, cursor, place),
        state.input_file is None,
        spec_scan(args, cursor, state) is Done,
    ensures
        (spec_scan(args, cursor, state)->Done_0).input_file == Some(args[place]),
    decreases args.len() - cursor,
{
    if cursor == place {
        lemma_first_file_name_is_input(args, cursor, state);
    } else {
        let width: int = if takes_value(spec_kind(args[cursor])) { 2 } else { 1 };
        assert(spec_reaches(args, cursor, cursor));
        assert(spec_reaches(args, cursor + width, place));
        assert forall|k: int|
            cursor + width <= k < place && #[trigger] spec_reaches(
                args,
                cursor + width,
                k,
            ) implies spec_kind(args[k]) != FlagKind::Positional by {
            assert(spec_reaches(args, cursor, k));
        }
        lemma_first_file_name_ahead_is_input(
            args,
            cursor + width,
            crate::scan::spec_step(args, cursor, state),
            place,
        );
    }
}

/// Of two file names that a list holds where a flag may stand, the second
/// is one too many. Such a list is never translated into a plan: unless the
/// scan stops early or the output file is missing, the list is unsupported,
/// and the second file name is among the arguments named. The input file is
/// the first file name, where no file name is read before it.
pub proof fn lemma_two_file_names(args: Seq<ArgView>, first: int, second: int)
    requires
        first < second,
        is_flag_place(args, first),
        is_flag_place(args, second),
        spec_kind(args[first]) == FlagKind::Positional,
        spec_kind(args[second]) == FlagKind::Positional,
    ensures
        spec_scan(args, 0, Scan::start()) matches Outcome::Done(end) ==> {
            &&& end.input_file is Some
            &&& no_file_name_before(args, 0, first) ==> end.input_file == Some(args[first])
            &&& end.unsupported.contains(args[second])
            &&& end.output_file is Some ==> spec_translate(args) == Err::<
                crate::plan::PlanView,
                ErrorView,
            >(ErrorView::Unsupported { args: end.unsupported })
            &&& end.output_file is None ==> spec_translate(args) == Err::<
                crate::plan::PlanView,
                ErrorView,
            >(ErrorView::OutputFileRequired)
        },
        spec_translate(args) is Err,
        spec_translate(args) != Err::<crate::plan::PlanView, ErrorView>(ErrorView::InputFileRequired),
{
    if spec_scan(args, 0, Scan::start()) is Done {
        lemma_second_of_two_unsupported(args, 0, Scan::start(), first, second);
        if no_file_name_before(args, 0, first) {
            lemma_first_file_name_ahead_is_input(args, 0, Scan::start(), first);
        }
    }
}

/// A flag that needs a value and is the last argument ends the scan that
/// reaches it, whatever was gathered: the list has ended too early.
pub proof fn lemma_flag_without_value(args: Seq<ArgView>, state: Scan)
    requires
        args.len() > 0,
        takes_value(spec_kind(args.last())),
    ensures
        spec_scan(args, args.len() - 1, state) == Outcome::EndOfArgs,
        spec_conclude(spec_scan(args, args.len() - 1, state)) == Err::<crate::plan::PlanView, ErrorView>(
            ErrorView::UnexpectedEndOfArgs,
        ),
{
    assert(spec_kind(args[args.len() - 1]) != FlagKind::Pending);
}

/// Whether the list ends in a flag without its value: the last argument is
/// a flag that takes a value, and the scan from `cursor` reads it where a
/// flag may stand.
pub open spec fn ends_in_lone_flag(args: Seq<ArgView>, cursor: int) -> bool {
    &&& 0 <= cursor < args.len()
    &&& takes_value(spec_kind(args.last()))
    &&& spec_reaches(args, cursor, args.len() - 1)
}

/// A scan finds the list ended too early exactly where the list ends in a
/// flag without its value.
pub proof fn lemma_scan_ends_early(args: Seq<ArgView>, cursor: int, state: Scan)
    requires
        0 <= cursor,
    ensures
        spec_scan(args, cursor, state) == Outcome::EndOfArgs <==> ends_in_lone_flag(args, cursor),
    decreases args.len() - cursor,
{
    if cursor >= args.len() {
    } else if cursor == args.len() - 1 {
        assert(args.last() == args[cursor]);
        assert(spec_scan(args, cursor + 1, crate::scan::spec_step(args, cursor, state)) is Done);
    } else if spec_kind(args[cursor]) == FlagKind::Pending {
    } else {
        let width: int = if takes_value(spec_kind(args[cursor])) { 2 } else { 1 };
        assert(spec_reaches(args, cursor + width, args.len() - 1) == spec_reaches(
            args,
            cursor,
            args.len() - 1,
        ));
        lemma_scan_ends_early(args, cursor + width, crate::scan::spec_step(args, cursor, state));
    }
}

/// A list has ended too early exactly where it ends in a flag without its
/// value. Such a list is not reported as unsupported, whatever else it
/// holds.
pub proof fn lemma_lone_flag_ends_args(args: Seq<ArgView>)
    ensures
        spec_translate(args) == Err::<crate::plan::PlanView, ErrorView>(ErrorView::UnexpectedEndOfArgs)
            <==> ends_in_lone_flag(args, 0),
{
    lemma_scan_ends_early(args, 0, Scan::start());
}

/// Whether no argument of the list is of this kind.
pub open spec fn none_of_kind(args: Seq<ArgView>, kind: FlagKind) -> bool {
    forall|i: int| 0 <= i < args.len() ==> #[trigger] spec_kind(args[i]) != kind
}

/// Without an output flag in the list the output slot stays as it is, and
/// without a file name the input slot does.
proof fn lemma_slots_stay_empty(args: Seq<ArgView>, cursor: int, state: Scan)
    requires
        0 <= cursor,
        spec_scan(args, cursor, state) is Done,
    ensures
        none_of_kind(args, FlagKind::Output) ==> (spec_scan(args, cursor, state)->Done_0).output_file
            == state.output_file,
        none_of_kind(args, FlagKind::Positional) ==> (spec_scan(args, cursor, state)->Done_0).input_file
            == state.input_file,
    decreases args.len() - cursor,
{
    if cursor >= args.len() {
    } else {
        let kind = spec_kind(args[cursor]);
        let width: int = if takes_value(kind) { 2 } else { 1 };
        lemma_slots_stay_empty(args, cursor + width, crate::scan::spec_step(args, cursor, state));
    }
}

/// A list that names no file is turned down for its input file, or for its
/// output file: for the input file where no argument is a file name, else
/// for one of the two where no argument is an output flag. This is said of
/// the lists whose scan reads every argument.
pub proof fn lemma_files_required(args: Seq<ArgView>)
    requires
        spec_scan(args, 0, Scan::start()) is Done,
    ensures
        none_of_kind(args, FlagKind::Positional) ==> spec_translate(args) == Err::<
            crate::plan::PlanView,
            ErrorView,
        >(ErrorView::InputFileRequired),
        none_of_kind(args, FlagKind::Output) ==> spec_translate(args) == Err::<
            crate::plan::PlanView,
            ErrorView,
        >(ErrorView::InputFileRequired) || spec_translate(args) == Err::<
            crate::plan::PlanView,
            ErrorView,
        >(ErrorView::OutputFileRequired),
{
    lemma_slots_stay_empty(args, 0, Scan::start());
}

/// The empty list lacks its input file.
pub proof fn lemma_empty_list(args: Seq<ArgView>)
    requires
        args.len() == 0,
    ensures
        spec_translate(args) == Err::<crate::plan::PlanView, ErrorView>(ErrorView::InputFileRequired),
{
}

/// In the list of a plan nothing was set aside and both files were named;
/// no translation gives an execution error, and an unsupported list names
/// at least one argument.
pub proof fn lemma_translation_shape(args: Seq<ArgView>)
    ensures
        match spec_translate(args) {
            Ok(plan) => spec_scan(args, 0, Scan::start()) matches Outcome::Done(end) && end.unsupported.len()
                == 0 && end.input_file == Some(plan.input_file) && end.output_file == Some(
                plan.output_file,
            ),
            Err(ErrorView::Unsupported { args: named }) => named.len() > 0,
            Err(ErrorView::ExecutionError(_)) => false,
            Err(_) => true,
        },
{
}

} // verus!
