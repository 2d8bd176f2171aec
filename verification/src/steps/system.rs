//! The system step: timezone, Touch ID for sudo, trackpad preferences.

use vstd::prelude::*;
use vstd::string::StringExecFns;
use crate::command::{CommandOutput, CommandSpec};
use crate::config::SystemConfig;
use crate::error::{is_command_failure, SetupError};
use crate::steps::{is_log_line, StepContext, StepLogLevel};
use crate::style::with_emoji;
use crate::text::{
    contains, ends_with, same_text, str_contains, str_ends_with, texts, trim, trimmed,
};

verus! {

/// One piece of work of the system step.
#[derive(Copy, Clone, Debug, PartialEq, Eq, Structural)]
pub enum SystemTask {
    /// Set the configured timezone.
    Timezone,
    /// Let Touch ID stand in for the sudo password.
    TouchId,
    /// Switch tap-to-click on or off.
    Clicking(bool),
    /// Switch three-finger drag on or off.
    ThreeFingerDrag(bool),
}

/// Whether the configuration asks for any system setting.
pub open spec fn system_tasks_present(system: SystemConfig) -> bool {
    ||| system.timezone is Some
    ||| system.touch_id_sudo
    ||| system.trackpad.clicking is Some
    ||| system.trackpad.three_finger_drag is Some
}

/// The work of the system step, in the order in which it is done.
pub open spec fn system_tasks(system: SystemConfig) -> Seq<SystemTask> {
    (if system.timezone is Some {
        seq![SystemTask::Timezone]
    } else {
        Seq::empty()
    }) + (if system.touch_id_sudo {
        seq![SystemTask::TouchId]
    } else {
        Seq::empty()
    }) + (match system.trackpad.clicking {
        Some(on) => seq![SystemTask::Clicking(on)],
        None => Seq::empty(),
    }) + (match system.trackpad.three_finger_drag {
        Some(on) => seq![SystemTask::ThreeFingerDrag(on)],
        None => Seq::empty(),
    })
}

/// Whether the configuration asks for any system setting.
pub fn has_system_tasks(system: &SystemConfig) -> (present: bool)
    ensures
        present == system_tasks_present(*system),
{
    system.timezone.is_some() || system.touch_id_sudo || system.trackpad.clicking.is_some()
        || system.trackpad.three_finger_drag.is_some()
}

/// What the system step decides, from the context before it to the context
/// after it and the tasks it hands back: the tasks that the configuration
/// asks for, in order. With none, the step says that it skips.
pub open spec fn decided(before: StepContext, after: StepContext, tasks: Vec<SystemTask>) -> bool {
    &&& tasks@ == system_tasks(before.cfg.system)
    &&& tasks@.len() == 0 <==> !system_tasks_present(before.cfg.system)
    &&& tasks@.len() == 0 ==> after.progress.message@ == "No system settings configured, skipping"@
    &&& tasks@.len() > 0 ==> after.progress.message == before.progress.message
    &&& after.progress.lines == before.progress.lines
    &&& after.same_setting(before)
}

/// Decides what the system step does, as `decided` has it.
pub fn run(ctx: &mut StepContext<'_>) -> (tasks: Vec<SystemTask>)
    ensures
        decided(*old(ctx), *final(ctx), tasks),
        *final(final(ctx).sudo) == *final(old(ctx).sudo),
{
    let cfg = ctx.cfg;
    let mut tasks: Vec<SystemTask> = Vec::new();
    if !has_system_tasks(&cfg.system) {
        ctx.status("No system settings configured, skipping");
        proof {
            assert(tasks@ =~= system_tasks(cfg.system));
        }
        return tasks;
    }
    if cfg.system.timezone.is_some() {
        tasks.push(SystemTask::Timezone);
    }
    if cfg.system.touch_id_sudo {
        tasks.push(SystemTask::TouchId);
    }
    if let Some(on) = cfg.system.trackpad.clicking {
        tasks.push(SystemTask::Clicking(on));
    }
    if let Some(on) = cfg.system.trackpad.three_finger_drag {
        tasks.push(SystemTask::ThreeFingerDrag(on));
    }
    proof {
        assert(tasks@ =~= system_tasks(cfg.system));
    }
    tasks
}

/// How a switch is written in a log line.
pub open spec fn switch_text(on: bool) -> Seq<char> {
    if on {
        "true"@
    } else {
        "false"@
    }
}

/// What the step says before it does `task`, behind its emoji. The
/// timezone is the configured one, or empty where none is configured.
pub open spec fn announcement(system: SystemConfig, task: SystemTask) -> Seq<char> {
    match task {
        SystemTask::Timezone => " Setting timezone to "@ + (match system.timezone {
            Some(zone) => zone@,
            None => Seq::empty(),
        }),
        SystemTask::TouchId => " Enabling Touch ID for sudo"@,
        SystemTask::Clicking(on) => " Trackpad clicking -> "@ + switch_text(on),
        SystemTask::ThreeFingerDrag(on) => " Trackpad three finger drag -> "@ + switch_text(on),
    }
}

fn switch_str(on: bool) -> (text: &'static str)
    ensures
        text@ == switch_text(on),
{
    if on {
        "true"
    } else {
        "false"
    }
}

/// Writes the log line that says that `task` is about to be done.
pub fn announce(ctx: &mut StepContext<'_>, task: SystemTask)
    ensures
        exists|line: Seq<char>|
            (is_log_line(
                line,
                StepLogLevel::Info,
                "✨"@ + announcement(old(ctx).cfg.system, task),
            ) || is_log_line(line, StepLogLevel::Info, "*"@ + announcement(old(ctx).cfg.system, task)))
                && texts(final(ctx).progress.lines@) == texts(old(ctx).progress.lines@).push(line),
        final(ctx).progress.message == old(ctx).progress.message,
        final(ctx).same_setting(*old(ctx)),
        *final(final(ctx).sudo) == *final(old(ctx).sudo),
{
    let cfg = ctx.cfg;
    let rest = match task {
        SystemTask::Timezone => {
            let mut rest = String::from_str(" Setting timezone to ");
            match &cfg.system.timezone {
                Some(zone) => rest.append(zone.as_str()),
                None => {
                    assert(rest@ + Seq::<char>::empty() =~= rest@);
                },
            }
            rest
        },
        SystemTask::TouchId => String::from_str(" Enabling Touch ID for sudo"),
        SystemTask::Clicking(on) => {
            let mut rest = String::from_str(" Trackpad clicking -> ");
            rest.append(switch_str(on));
            rest
        },
        SystemTask::ThreeFingerDrag(on) => {
            let mut rest = String::from_str(" Trackpad three finger drag -> ");
            rest.append(switch_str(on));
            rest
        },
    };
    let message = with_emoji("✨", "*", rest.as_str());
    ctx.info(message.as_str());
}

/// The command that reads the current timezone. It needs elevated
/// privileges.
pub fn timezone_query() -> (spec: CommandSpec)
    ensures
        spec.argv() == seq!["/usr/sbin/systemsetup"@, "-gettimezone"@],
{
    CommandSpec::new("/usr/sbin/systemsetup", &["-gettimezone"])
}

/// What is known of the current timezone: what the query printed, or
/// nothing where the query failed.
pub open spec fn known_timezone(current: Result<String, SetupError>) -> Seq<char> {
    match current {
        Ok(text) => text@,
        Err(_) => Seq::empty(),
    }
}

/// Decides whether the timezone has to be set, given the answer of the
/// query without the white space around it: where the answer ends with the
/// wanted zone, nothing is to be done; otherwise the command that sets the
/// zone is handed back. It needs elevated privileges.
pub fn timezone_command(known: &str, target: &str) -> (command: Option<CommandSpec>)
    ensures
        command is None <==> ends_with(known@, target@),
        command is Some ==> command->0.argv() == seq![
            "/usr/sbin/systemsetup"@,
            "-settimezone"@,
            target@,
        ],
{
    if str_ends_with(known, target) {
        None
    } else {
        Some(CommandSpec::new("/usr/sbin/systemsetup", &["-settimezone", target]))
    }
}

/// Decides whether the timezone has to be set, given what the query said of
/// the current one; a failed query counts as an unknown timezone. The
/// answer is taken without the white space around it.
pub fn ensure_timezone(current: &Result<String, SetupError>, target: &str) -> (command: Option<
    CommandSpec,
>)
    ensures
        command is None <==> ends_with(trimmed(known_timezone(*current)), target@),
        command is Some ==> command->0.argv() == seq![
            "/usr/sbin/systemsetup"@,
            "-settimezone"@,
            target@,
        ],
{
    let known = match current {
        Ok(text) => trim(text.as_str()),
        Err(_) => trim(""),
    };
    proof {
        if current is Err {
            assert(""@ =~= Seq::<char>::empty()) by {
                reveal_strlit("");
            }
        }
    }
    timezone_command(known.as_str(), target)
}

/// What came of reading a file.
#[derive(Debug)]
pub enum FileRead {
    /// The file was read; this is its text.
    Found(String),
    /// There is no such file.
    Missing,
    /// The file could not be read; this is the system's message.
    Failed(String),
}

/// Takes in what came of reading `/etc/pam.d/sudo_local`: its text where it
/// was read; nothing where it does not exist, in which case
/// `/etc/pam.d/sudo` is to be read in its place; a failure otherwise.
pub fn touch_id_source(local: FileRead) -> (res: Result<Option<String>, SetupError>)
    ensures
        local is Found ==> res is Ok && res->Ok_0 == Some(local->Found_0),
        local is Missing ==> res is Ok && res->Ok_0 is None,
        local is Failed ==> {
            &&& res is Err
            &&& res->Err_0 is Io
            &&& res->Err_0->context@ == "reading /etc/pam.d/sudo_local"@
            &&& res->Err_0->cause == local->Failed_0
        },
{
    match local {
        FileRead::Found(text) => Ok(Some(text)),
        FileRead::Missing => Ok(None),
        FileRead::Failed(cause) => Err(
            SetupError::Io { context: String::from_str("reading /etc/pam.d/sudo_local"), cause },
        ),
    }
}

/// The line that lets Touch ID stand in for the sudo password.
pub open spec fn touch_id_line() -> Seq<char> {
    "auth       sufficient     pam_tid.so\n"@
}

/// Decides what `/etc/pam.d/sudo_local` is to hold, given the text of the
/// current PAM configuration: nothing is to be done where that text names
/// `pam_tid.so`; otherwise the file is to hold the Touch ID line before that
/// text.
pub fn enable_touch_id(contents: &str) -> (wanted: Option<String>)
    ensures
        wanted is None <==> contains(contents@, "pam_tid.so"@),
        wanted is Some ==> wanted->0@ == touch_id_line() + contents@,
{
    if str_contains(contents, "pam_tid.so") {
        None
    } else {
        let mut wanted = String::from_str("auth       sufficient     pam_tid.so\n");
        wanted.append(contents);
        Some(wanted)
    }
}

/// The two commands that put the file at `staged_path` in place as
/// `/etc/pam.d/sudo_local`: the copy, then the change of permissions. Both
/// need elevated privileges.
pub fn touch_id_commands(staged_path: &str) -> (commands: (CommandSpec, CommandSpec))
    ensures
        commands.0.argv() == seq!["/bin/cp"@, staged_path@, "/etc/pam.d/sudo_local"@],
        commands.1.argv() == seq!["/bin/chmod"@, "644"@, "/etc/pam.d/sudo_local"@],
{
    (
        CommandSpec::new("/bin/cp", &[staged_path, "/etc/pam.d/sudo_local"]),
        CommandSpec::new("/bin/chmod", &["644", "/etc/pam.d/sudo_local"]),
    )
}

impl SystemTask {
    /// The preference key of a trackpad task.
    pub open spec fn key(self) -> Option<Seq<char>> {
        match self {
            SystemTask::Clicking(_) => Some("Clicking"@),
            SystemTask::ThreeFingerDrag(_) => Some("TrackpadThreeFingerDrag"@),
            _ => None,
        }
    }

    /// The preference key that a trackpad task sets; other tasks have none.
    pub fn trackpad_key(self) -> (key: Option<&'static str>)
        ensures
            key is Some <==> self.key() is Some,
            key is Some ==> key->0@ == self.key()->0,
    {
        match self {
            SystemTask::Clicking(_) => Some("Clicking"),
            SystemTask::ThreeFingerDrag(_) => Some("TrackpadThreeFingerDrag"),
            _ => None,
        }
    }
}

/// The two preference domains in which each trackpad preference is set, in
/// the order in which they are set.
pub fn trackpad_domains() -> (domains: Vec<&'static str>)
    ensures
        texts(domains@) == seq![
            "com.apple.AppleMultitouchTrackpad"@,
            "com.apple.driver.AppleBluetoothMultitouch.trackpad"@,
        ],
{
    let mut domains: Vec<&'static str> = Vec::new();
    domains.push("com.apple.AppleMultitouchTrackpad");
    domains.push("com.apple.driver.AppleBluetoothMultitouch.trackpad");
    proof {
        assert(texts(domains@) =~= seq![
            "com.apple.AppleMultitouchTrackpad"@,
            "com.apple.driver.AppleBluetoothMultitouch.trackpad"@,
        ]);
    }
    domains
}

/// The command that reads the preference `key` of `domain`.
pub fn defaults_query(domain: &str, key: &str) -> (spec: CommandSpec)
    ensures
        spec.argv() == seq!["/usr/bin/defaults"@, "read"@, domain@, key@],
{
    CommandSpec::new("/usr/bin/defaults", &["read", domain, key])
}

/// The switch that a preference value stands for, if it stands for one.
pub open spec fn switch_of(value: Seq<char>) -> Option<bool> {
    if value == "1"@ || value == "YES"@ || value == "TRUE"@ || value == "true"@ {
        Some(true)
    } else if value == "0"@ || value == "NO"@ || value == "FALSE"@ || value == "false"@ {
        Some(false)
    } else {
        None
    }
}

/// The switch that a preference value stands for, if it stands for one:
/// on for `1`, `YES`, `TRUE` and `true`, off for `0`, `NO`, `FALSE` and
/// `false`.
pub fn parse_switch(value: &str) -> (switch: Option<bool>)
    ensures
        switch == switch_of(value@),
{
    if same_text(value, "1") || same_text(value, "YES") || same_text(value, "TRUE") || same_text(
        value,
        "true",
    ) {
        Some(true)
    } else if same_text(value, "0") || same_text(value, "NO") || same_text(value, "FALSE")
        || same_text(value, "false") {
        Some(false)
    } else {
        None
    }
}

/// Reads what the query of a preference left behind, `None` where it could
/// not be run. The current state is unknown where the query did not run or
/// failed, and where its answer, white space aside, stands for no switch.
pub fn read_defaults_bool(output: Option<&CommandOutput>) -> (current: Option<bool>)
    ensures
        current == match output {
            Some(out) => if out.success {
                switch_of(trimmed(out.stdout@))
            } else {
                None
            },
            None => None,
        },
{
    match output {
        Some(out) => {
            if !out.success {
                return None;
            }
            let raw = trim(out.stdout.as_str());
            parse_switch(raw.as_str())
        },
        None => None,
    }
}

/// How a switch is written for the preferences tool.
pub open spec fn flag_text(on: bool) -> Seq<char> {
    if on {
        "TRUE"@
    } else {
        "FALSE"@
    }
}

/// Decides whether the preference `key` of `domain` has to be written,
/// given its current state: a preference known to have the wanted state is
/// left alone; otherwise the command that writes it is handed back.
pub fn ensure_trackpad_bool(
    domain: &str,
    key: &str,
    desired: bool,
    current: Option<bool>,
) -> (command: Option<CommandSpec>)
    ensures
        command is None <==> current == Some(desired),
        command is Some ==> command->0.argv() == seq![
            "/usr/bin/defaults"@,
            "write"@,
            domain@,
            key@,
            "-bool"@,
            flag_text(desired),
        ],
{
    let known = match current {
        Some(state) => state == desired,
        None => false,
    };
    if known {
        None
    } else {
        let flag = if desired {
            "TRUE"
        } else {
            "FALSE"
        };
        Some(CommandSpec::new("/usr/bin/defaults", &["write", domain, key, "-bool", flag]))
    }
}

/// Reads how the command that writes the preference `key` of `domain`
/// ended.
pub fn defaults_write_finished(
    domain: &str,
    key: &str,
    success: bool,
    exit_code: Option<i32>,
) -> (res: Result<(), SetupError>)
    ensures
        res is Ok <==> success,
        !success ==> is_command_failure(
            res->Err_0,
            "/usr/bin/defaults"@,
            "defaults write "@ + domain@ + " "@ + key@ + " failed"@,
            exit_code,
            None,
        ),
{
    let mut failure = String::from_str("defaults write ");
    failure.append(domain);
    failure.append(" ");
    failure.append(key);
    failure.append(" failed");
    SetupError::expect_success("/usr/bin/defaults", failure, success, exit_code)
}

} // verus!
