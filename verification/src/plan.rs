//! What a translation gives: a plan, or the reason why there is none.

use vstd::prelude::*;
use crate::arg::{option_view, views, Arg, ArgView};
use crate::options::OptimizationOptions;

verus! {

/// All that one run of the optimizer needs.
#[derive(Debug, PartialEq, Eq)]
pub struct InvocationPlan {
    pub options: OptimizationOptions,
    /// The module to read.
    pub input_file: Arg,
    pub input_sourcemap: Option<Arg>,
    /// The file to write the optimized module to.
    pub output_file: Arg,
    pub output_sourcemap: Option<Arg>,
}

/// What a plan holds.
pub struct PlanView {
    pub options: OptimizationOptions,
    pub input_file: ArgView,
    pub input_sourcemap: Option<ArgView>,
    pub output_file: ArgView,
    pub output_sourcemap: Option<ArgView>,
}

impl View for InvocationPlan {
    type V = PlanView;

    open spec fn view(&self) -> PlanView {
        PlanView {
            options: self.options,
            input_file: self.input_file@,
            input_sourcemap: option_view(self.input_sourcemap),
            output_file: self.output_file@,
            output_sourcemap: option_view(self.output_sourcemap),
        }
    }
}

/// Why an argument list gave no run, or why the run failed.
#[derive(Debug, PartialEq, Eq)]
pub enum Error {
    /// No argument names the module to read.
    InputFileRequired,
    /// No `-o` names the file to write.
    OutputFileRequired,
    /// The list ends with a flag that needs a value.
    UnexpectedEndOfArgs,
    /// The arguments that found no place, in the order in which they stand
    /// in the list: each file name after the first, and each value of a
    /// flag whose slot an earlier value had taken.
    Unsupported { args: Vec<Arg> },
    /// A flag of the optimizer that this library knows and does not carry out.
    Unimplemented { flag: Arg },
    /// The optimizer failed; its message.
    ExecutionError(String),
}

/// What an error holds.
pub enum ErrorView {
    InputFileRequired,
    OutputFileRequired,
    UnexpectedEndOfArgs,
    Unsupported { args: Seq<ArgView> },
    Unimplemented { flag: ArgView },
    ExecutionError(Seq<char>),
}

impl View for Error {
    type V = ErrorView;

    open spec fn view(&self) -> ErrorView {
        match self {
            Error::InputFileRequired => ErrorView::InputFileRequired,
            Error::OutputFileRequired => ErrorView::OutputFileRequired,
            Error::UnexpectedEndOfArgs => ErrorView::UnexpectedEndOfArgs,
            Error::Unsupported { args } => ErrorView::Unsupported { args: views(args@) },
            Error::Unimplemented { flag } => ErrorView::Unimplemented { flag: flag@ },
            Error::ExecutionError(message) => ErrorView::ExecutionError(message@),
        }
    }
}

/// What the result of a translation holds.
pub open spec fn result_view(result: Result<InvocationPlan, Error>) -> Result<PlanView, ErrorView> {
    match result {
        Ok(plan) => Ok(plan@),
        Err(error) => Err(error@),
    }
}

/// What a run with the optimizer's outcome `outcome` comes to: a failure of
/// the optimizer is an execution error with the optimizer's message.
pub open spec fn spec_wrap_execution(outcome: Result<(), Seq<char>>) -> Result<(), ErrorView> {
    match outcome {
        Ok(()) => Ok(()),
        Err(message) => Err(ErrorView::ExecutionError(message)),
    }
}

/// What the result of a run holds.
pub open spec fn run_view(result: Result<(), Error>) -> Result<(), ErrorView> {
    match result {
        Ok(()) => Ok(()),
        Err(error) => Err(error@),
    }
}

/// What an outcome of the optimizer holds.
pub open spec fn outcome_view(outcome: Result<(), String>) -> Result<(), Seq<char>> {
    match outcome {
        Ok(()) => Ok(()),
        Err(message) => Err(message@),
    }
}

impl Error {
    /// Turns the optimizer's outcome into the result of a run, keeping the
    /// message of a failure as it is.
    pub fn wrap_execution(outcome: Result<(), String>) -> (result: Result<(), Error>)
        ensures
            run_view(result) == spec_wrap_execution(outcome_view(outcome)),
    {
        match outcome {
            Ok(()) => Ok(()),
            Err(message) => Err(Error::ExecutionError(message)),
        }
    }
}

} // verus!
