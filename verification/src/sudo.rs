//! The privilege ticket manager.
//!
//! A ticket records that elevated privileges were granted a short while ago,
//! so that the user is not asked for credentials before every privileged
//! command. The manager never runs anything itself: it says what has to be
//! done next, and is told how it went.

use vstd::prelude::*;
use vstd::string::StringExecFns;
use crate::command::CommandOutput;
use crate::command::CommandSpec;
use crate::error::{is_command_failure, SetupError};
use crate::text::{trim, trimmed};

verus! {

/// How long a ticket is trusted after it was granted, in milliseconds: four
/// minutes.
pub const TICKET_TTL_MILLIS: u64 = 240_000;

/// What has to happen next before, or for, a privileged command.
#[derive(Copy, Clone, Debug, PartialEq, Eq, Structural)]
pub enum SudoStep {
    /// The ticket is valid: run the privileged command, nothing else.
    Execute,
    /// Run the non-interactive privilege check and report its result.
    Probe,
    /// Run the interactive elevation prompt and report its result.
    Prompt,
}

/// Whether a ticket with the given expiry is valid at `now`: an expiry
/// exists and lies strictly in the future.
pub open spec fn ticket_valid(valid_until: Option<int>, now: int) -> bool {
    match valid_until {
        Some(expiry) => now < expiry,
        None => false,
    }
}

/// The expiry of a ticket granted at `now`.
pub open spec fn granted(now: int) -> Option<int> {
    Some(now + TICKET_TTL_MILLIS)
}

/// What a privileged call at `now` starts with, given the ticket's expiry.
pub open spec fn first_step(valid_until: Option<int>, now: int) -> SudoStep {
    if ticket_valid(valid_until, now) {
        SudoStep::Execute
    } else {
        SudoStep::Probe
    }
}

/// The ticket's expiry after the non-interactive check, finished at `now`,
/// came back with `status`: a check that exited with success grants a
/// ticket; any other outcome, a check that could not be run included,
/// changes nothing.
pub open spec fn after_probe(valid_until: Option<int>, status: Option<bool>, now: int) -> Option<
    int,
> {
    if status == Some(true) {
        granted(now)
    } else {
        valid_until
    }
}

/// The ticket's expiry after the interactive prompt, finished at `now`,
/// came back with `status`: only a grant sets the ticket.
pub open spec fn after_prompt(
    valid_until: Option<int>,
    status: Result<bool, String>,
    now: int,
) -> Option<int> {
    if status == Ok::<bool, String>(true) {
        granted(now)
    } else {
        valid_until
    }
}

/// The ticket's expiry after a privileged command ended: a command that
/// failed takes the ticket away.
pub open spec fn after_command(valid_until: Option<int>, success: bool) -> Option<int> {
    if success {
        valid_until
    } else {
        None
    }
}

/// The text that reports the failure of the privileged command `program`.
pub open spec fn failure_text(program: Seq<char>) -> Seq<char> {
    "command `"@ + program + "` failed"@
}

/// Whether `err` reports that the privileged command `program` failed and
/// left `output` behind.
pub open spec fn reports_failure(err: SetupError, program: Seq<char>, output: CommandOutput) -> bool {
    is_command_failure(err, program, failure_text(program), output.code, Some(output.stderr@))
}

/// The privilege ticket manager. Times are milliseconds on a clock that
/// never runs backwards.
#[derive(Debug)]
pub struct SudoHelper {
    granted_at: Option<u64>,
}

impl Default for SudoHelper {
    /// A manager without a ticket.
    fn default() -> (helper: SudoHelper)
        ensures
            helper.valid_until() is None,
    {
        SudoHelper { granted_at: None }
    }
}

impl SudoHelper {
    /// When the ticket expires, if there is one.
    pub closed spec fn valid_until(&self) -> Option<int> {
        match self.granted_at {
            Some(at) => granted(at as int),
            None => None,
        }
    }

    /// Whether the ticket is valid at `now`.
    pub fn has_ticket(&self, now: u64) -> (valid: bool)
        ensures
            valid == ticket_valid(self.valid_until(), now as int),
    {
        match self.granted_at {
            Some(at) => now < at || now - at < TICKET_TTL_MILLIS,
            None => false,
        }
    }

    /// The first thing to do for a privileged call at `now`: with a valid
    /// ticket the command runs at once and nothing else is run; otherwise
    /// the ticket has to be validated again, starting with the
    /// non-interactive check.
    pub fn ensure_ticket(&self, now: u64) -> (step: SudoStep)
        ensures
            step == first_step(self.valid_until(), now as int),
    {
        if self.has_ticket(now) {
            SudoStep::Execute
        } else {
            SudoStep::Probe
        }
    }

    /// Takes in the result of the non-interactive check, finished at `now`:
    /// `Some(true)` where it exited with success, `Some(false)` where it did
    /// not, `None` where it could not be run, which counts as no ticket. On
    /// success the ticket is valid for the next four minutes and the command
    /// may run; otherwise nothing changes and the user has to be prompted.
    pub fn probe_finished(&mut self, status: Option<bool>, now: u64) -> (step: SudoStep)
        ensures
            step == if status == Some(true) {
                SudoStep::Execute
            } else {
                SudoStep::Prompt
            },
            final(self).valid_until() == after_probe(old(self).valid_until(), status, now as int),
    {
        match status {
            Some(true) => {
                self.granted_at = Some(now);
                SudoStep::Execute
            },
            _ => SudoStep::Prompt,
        }
    }

    /// Takes in the result of the interactive prompt, finished at `now`:
    /// `Ok(true)` where the user was granted privileges, `Ok(false)` where
    /// elevation was denied, `Err` with the system's message where the
    /// prompt could not be run. Only a grant sets the ticket, for the next
    /// four minutes; a denial is an authentication error.
    pub fn prompt_through_sudo(&mut self, status: Result<bool, String>, now: u64) -> (res: Result<
        (),
        SetupError,
    >)
        ensures
            res is Ok <==> status == Ok::<bool, String>(true),
            final(self).valid_until() == after_prompt(old(self).valid_until(), status, now as int),
            status == Ok::<bool, String>(false) ==> res == Err::<(), SetupError>(
                SetupError::Authentication,
            ),
            status is Err ==> {
                &&& res->Err_0 is Io
                &&& res->Err_0->context@ == "failed to refresh sudo credentials"@
                &&& res->Err_0->cause@ == status->Err_0@
            },
    {
        match status {
            Ok(true) => {
                self.granted_at = Some(now);
                Ok(())
            },
            Ok(false) => Err(SetupError::Authentication),
            Err(cause) => Err(
                SetupError::Io {
                    context: String::from_str("failed to refresh sudo credentials"),
                    cause,
                },
            ),
        }
    }

    /// The command that performs the non-interactive privilege check.
    pub fn probe_command() -> (spec: CommandSpec)
        ensures
            spec.argv() == seq!["sudo"@, "-n"@, "true"@],
    {
        CommandSpec::new("sudo", &["-n", "true"])
    }

    /// The command that prompts the user for elevation.
    pub fn prompt_command() -> (spec: CommandSpec)
        ensures
            spec.argv() == seq!["sudo"@, "-v"@],
    {
        CommandSpec::new("sudo", &["-v"])
    }

    /// Notes how the privileged command ended: a command that failed takes
    /// the ticket away, since the failure may mean that the grant was
    /// revoked; a command that succeeded leaves it as it is.
    fn exec(&mut self, output: &CommandOutput)
        ensures
            final(self).valid_until() == after_command(old(self).valid_until(), output.success),
    {
        if !output.success {
            self.granted_at = None;
        }
    }

    fn failure(program: &str, output: &CommandOutput) -> (err: SetupError)
        ensures
            reports_failure(err, program@, *output),
    {
        let mut failure = String::from_str("command `");
        failure.append(program);
        failure.append("` failed");
        SetupError::command(program, failure, output.code, Some(output.stderr.as_str()))
    }

    /// Takes in what the privileged command `program` left behind. The
    /// command succeeded iff it exited with status zero; a failure takes the
    /// ticket away, so that the next privileged call validates again, and is
    /// reported with the program and what it wrote to standard error.
    pub fn run(&mut self, program: &str, output: &CommandOutput) -> (res: Result<(), SetupError>)
        ensures
            res is Ok <==> output.success,
            final(self).valid_until() == after_command(old(self).valid_until(), output.success),
            !output.success ==> reports_failure(res->Err_0, program@, *output),
    {
        self.exec(output);
        if output.success {
            Ok(())
        } else {
            Err(Self::failure(program, output))
        }
    }

    /// As `run`, and on success hands back what the command wrote to
    /// standard output, without leading and trailing white space.
    pub fn run_with_output(&mut self, program: &str, output: &CommandOutput) -> (res: Result<
        String,
        SetupError,
    >)
        ensures
            res is Ok <==> output.success,
            final(self).valid_until() == after_command(old(self).valid_until(), output.success),
            output.success ==> res->Ok_0@ == trimmed(output.stdout@),
            !output.success ==> reports_failure(res->Err_0, program@, *output),
    {
        self.exec(output);
        if output.success {
            Ok(trim(output.stdout.as_str()))
        } else {
            Err(Self::failure(program, output))
        }
    }
}

/// What the world answers in the course of one privileged call: when the
/// call begins; what the non-interactive check comes back with, and when;
/// what the interactive prompt comes back with, and when; and whether the
/// command exits with success. An answer counts only where the call gets to
/// ask for it.
pub struct CallAnswers {
    pub started_at: u64,
    pub probe: Option<bool>,
    pub probed_at: u64,
    pub prompt: Result<bool, String>,
    pub prompted_at: u64,
    pub command_succeeds: bool,
}

/// What one privileged call came to.
pub struct CallTrace {
    /// What was run, in order: the check, the prompt, the command.
    pub actions: Seq<SudoStep>,
    /// Whether the call succeeded: the command was run and exited with
    /// success.
    pub succeeded: bool,
    /// The ticket's expiry after the call.
    pub valid_until: Option<int>,
}

/// One privileged call, made by a caller that does what it is asked and
/// reports what happened. With a valid ticket the command runs at once.
/// Otherwise the check is run; where it fails, the prompt; the command runs
/// once either has granted a ticket, and not at all where the prompt is
/// denied or cannot be run.
pub open spec fn privileged_call(valid_until: Option<int>, answers: CallAnswers) -> CallTrace {
    if first_step(valid_until, answers.started_at as int) == SudoStep::Execute {
        CallTrace {
            actions: seq![SudoStep::Execute],
            succeeded: answers.command_succeeds,
            valid_until: after_command(valid_until, answers.command_succeeds),
        }
    } else if answers.probe == Some(true) {
        CallTrace {
            actions: seq![SudoStep::Probe, SudoStep::Execute],
            succeeded: answers.command_succeeds,
            valid_until: after_command(
                after_probe(valid_until, answers.probe, answers.probed_at as int),
                answers.command_succeeds,
            ),
        }
    } else if answers.prompt == Ok::<bool, String>(true) {
        CallTrace {
            actions: seq![SudoStep::Probe, SudoStep::Prompt, SudoStep::Execute],
            succeeded: answers.command_succeeds,
            valid_until: after_command(
                after_prompt(
                    after_probe(valid_until, answers.probe, answers.probed_at as int),
                    answers.prompt,
                    answers.prompted_at as int,
                ),
                answers.command_succeeds,
            ),
        }
    } else {
        CallTrace {
            actions: seq![SudoStep::Probe, SudoStep::Prompt],
            succeeded: false,
            valid_until: after_prompt(
                after_probe(valid_until, answers.probe, answers.probed_at as int),
                answers.prompt,
                answers.prompted_at as int,
            ),
        }
    }
}

/// When the ticket was granted in the course of a call that had to
/// validate and got through: when the check finished, where it succeeded,
/// and else when the prompt finished.
pub open spec fn granted_at(answers: CallAnswers) -> int {
    if answers.probe == Some(true) {
        answers.probed_at as int
    } else {
        answers.prompted_at as int
    }
}

/// A manager without a ticket starts every privileged call by validating.
pub proof fn law_no_ticket_needs_validation(helper: SudoHelper, now: u64)
    requires
        helper.valid_until() is None,
    ensures
        first_step(helper.valid_until(), now as int) == SudoStep::Probe,
{
}

/// After a grant at `at`, a privileged call at `now` runs its command at
/// once, with no check and no prompt, iff `now` lies less than the ticket's
/// time to live after `at`; from then on it validates again.
pub proof fn law_ticket_lasts_its_ttl(helper: SudoHelper, at: u64, now: u64)
    requires
        helper.valid_until() == granted(at as int),
        at <= now,
    ensures
        now - at < TICKET_TTL_MILLIS ==> first_step(helper.valid_until(), now as int)
            == SudoStep::Execute,
        now - at >= TICKET_TTL_MILLIS ==> first_step(helper.valid_until(), now as int)
            == SudoStep::Probe,
{
}

/// The first privileged call of a fresh manager needs elevation: it begins
/// with the check, and runs its command only behind a check or a prompt
/// that succeeded.
pub proof fn law_first_call_needs_elevation(helper: SudoHelper, first: CallAnswers)
    requires
        helper.valid_until() is None,
    ensures
        privileged_call(helper.valid_until(), first).actions[0] == SudoStep::Probe,
        privileged_call(helper.valid_until(), first).succeeded ==> first.probe == Some(true)
            || first.prompt == Ok::<bool, String>(true),
{
}

/// After a first call that succeeded, a second call within the ticket's
/// time to live runs its command and nothing else, with no check and no
/// prompt; a second call after that time validates again.
pub proof fn law_second_call_within_ttl_is_silent(
    helper: SudoHelper,
    first: CallAnswers,
    second: CallAnswers,
)
    requires
        helper.valid_until() is None,
        privileged_call(helper.valid_until(), first).succeeded,
        granted_at(first) <= second.started_at,
    ensures
        second.started_at - granted_at(first) < TICKET_TTL_MILLIS ==> privileged_call(
            privileged_call(helper.valid_until(), first).valid_until,
            second,
        ).actions == seq![SudoStep::Execute],
        second.started_at - granted_at(first) >= TICKET_TTL_MILLIS ==> privileged_call(
            privileged_call(helper.valid_until(), first).valid_until,
            second,
        ).actions[0] == SudoStep::Probe,
{
}

/// A privileged command that fails takes the ticket away: whatever the
/// ticket was before, and however soon the next call comes, the next call
/// validates again.
pub proof fn law_failed_command_forces_validation(
    valid_until: Option<int>,
    failed: CallAnswers,
    next: CallAnswers,
)
    requires
        privileged_call(valid_until, failed).actions.last() == SudoStep::Execute,
        !failed.command_succeeds,
    ensures
        privileged_call(valid_until, failed).valid_until is None,
        privileged_call(privileged_call(valid_until, failed).valid_until, next).actions[0]
            == SudoStep::Probe,
{
}

} // verus!
