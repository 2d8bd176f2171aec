//! The failures a bootstrap run can end in.

use vstd::prelude::*;
use vstd::string::StringExecFns;

verus! {

/// Why a step, or the run before its first step, failed. Every failure is
/// fatal to the run.
#[derive(Debug, Clone)]
pub enum SetupError {
    /// The configuration is unreadable or malformed.
    Config { detail: String },
    /// Privilege elevation was denied.
    Authentication,
    /// An external tool returned failure. `failure` says which operation
    /// failed; `stderr` holds what the tool wrote to standard error, where
    /// that was captured.
    Command { program: String, failure: String, exit_code: Option<i32>, stderr: Option<String> },
    /// A file-system or process operation failed.
    Io { context: String, cause: String },
    /// A path could not be expanded or found. `problem` is the full sentence.
    PathResolution { path: String, problem: String },
}

/// Whether `err` reports that the external tool `program` failed at the
/// operation that `failure` names, with the given exit code and captured
/// standard error.
pub open spec fn is_command_failure(
    err: SetupError,
    program: Seq<char>,
    failure: Seq<char>,
    exit_code: Option<i32>,
    stderr: Option<Seq<char>>,
) -> bool {
    &&& err is Command
    &&& err->program@ == program
    &&& err->failure@ == failure
    &&& err->exit_code == exit_code
    &&& err->stderr is Some <==> stderr is Some
    &&& err->stderr is Some ==> err->stderr->0@ == stderr->0
}

impl SetupError {
    /// The text shown to the user for this failure: the operation, then the
    /// underlying cause where there is one.
    pub open spec fn text(self) -> Seq<char> {
        match self {
            SetupError::Config { detail } => detail@,
            SetupError::Authentication => "sudo authentication failed"@,
            SetupError::Command { failure, stderr, .. } => match stderr {
                Some(captured) => failure@ + ": "@ + captured@,
                None => failure@,
            },
            SetupError::Io { context, cause } => context@ + ": "@ + cause@,
            SetupError::PathResolution { problem, .. } => problem@,
        }
    }

    /// The text shown to the user for this failure.
    pub fn message(&self) -> (out: String)
        ensures
            out@ == self.text(),
    {
        match self {
            SetupError::Config { detail } => detail.clone(),
            SetupError::Authentication => String::from_str("sudo authentication failed"),
            SetupError::Command { failure, stderr, .. } => {
                let mut out = failure.clone();
                match stderr {
                    Some(captured) => {
                        out.append(": ");
                        out.append(captured.as_str());
                    },
                    None => {},
                }
                out
            },
            SetupError::Io { context, cause } => {
                let mut out = context.clone();
                out.append(": ");
                out.append(cause.as_str());
                out
            },
            SetupError::PathResolution { problem, .. } => problem.clone(),
        }
    }

    /// The failure of the external tool `program` at the operation that
    /// `failure` names.
    pub fn command(
        program: &str,
        failure: String,
        exit_code: Option<i32>,
        stderr: Option<&str>,
    ) -> (err: SetupError)
        ensures
            is_command_failure(
                err,
                program@,
                failure@,
                exit_code,
                match stderr {
                    Some(text) => Some(text@),
                    None => None,
                },
            ),
    {
        let captured = match stderr {
            Some(text) => Some(String::from_str(text)),
            None => None,
        };
        SetupError::Command {
            program: String::from_str(program),
            failure,
            exit_code,
            stderr: captured,
        }
    }

    /// Success where the tool `program` exited with status zero; otherwise
    /// its failure at the operation that `failure` names, with nothing
    /// captured.
    pub fn expect_success(
        program: &str,
        failure: String,
        success: bool,
        exit_code: Option<i32>,
    ) -> (res: Result<(), SetupError>)
        ensures
            res is Ok <==> success,
            !success ==> is_command_failure(res->Err_0, program@, failure@, exit_code, None),
    {
        if success {
            Ok(())
        } else {
            Err(Self::command(program, failure, exit_code, None))
        }
    }

    /// The failure of a file-system or process operation: what was being
    /// done, and what the system said.
    pub fn io(context: &str, cause: &str) -> (err: SetupError)
        ensures
            err is Io,
            err->Io_context@ == context@,
            err->Io_cause@ == cause@,
    {
        SetupError::Io { context: String::from_str(context), cause: String::from_str(cause) }
    }
}

} // verus!
