//! The git step: global git preferences.

use vstd::prelude::*;
use vstd::string::StringExecFns;
use crate::command::{CommandOutput, CommandSpec};
use crate::config::GitConfig;
use crate::error::{is_command_failure, SetupError};
use crate::steps::StepContext;
use crate::style::with_emoji;
use crate::text::{clone_strings, join, joined, same_text, texts, trim, trimmed};
use crate::util::{may_resolve_to, resolve_path};

verus! {

/// One global git setting: its key and the value it is to have.
#[derive(Debug, Clone)]
pub struct GitSetting {
    pub key: String,
    pub value: String,
}

/// What the git step has to do: the settings to ensure, in order, and the
/// patterns of the global ignore file, if any are configured.
#[derive(Debug)]
pub struct GitWork {
    pub settings: Vec<GitSetting>,
    pub ignores: Vec<String>,
}

/// Keys and values of `settings`, in order.
pub open spec fn setting_texts(settings: Seq<GitSetting>) -> Seq<(Seq<char>, Seq<char>)> {
    Seq::new(settings.len(), |i: int| (settings[i].key@, settings[i].value@))
}

/// How git writes a boolean.
pub open spec fn bool_text(value: bool) -> Seq<char> {
    if value {
        "true"@
    } else {
        "false"@
    }
}

/// Whether the configuration names at least one git preference.
pub open spec fn git_work_present(cfg: GitConfig) -> bool {
    ||| cfg.user_name is Some
    ||| cfg.user_email is Some
    ||| cfg.credential_helper is Some
    ||| (cfg.init is Some && cfg.init->0.default_branch is Some)
    ||| (cfg.merge is Some && cfg.merge->0.conflictstyle is Some)
    ||| (cfg.pull is Some && cfg.pull->0.rebase is Some)
    ||| (cfg.push is Some && cfg.push->0.auto_setup_remote is Some)
    ||| cfg.ignores@.len() > 0
}

/// `settings` with the setting of `key` added at its end, where a value is
/// configured for it.
pub open spec fn with_setting(
    settings: Seq<(Seq<char>, Seq<char>)>,
    key: Seq<char>,
    value: Option<Seq<char>>,
) -> Seq<(Seq<char>, Seq<char>)> {
    match value {
        Some(text) => settings.push((key, text)),
        None => settings,
    }
}

/// The text of an optional string.
pub open spec fn text_of(value: Option<String>) -> Option<Seq<char>> {
    match value {
        Some(text) => Some(text@),
        None => None,
    }
}

/// How git writes an optional boolean.
pub open spec fn flag_of(value: Option<bool>) -> Option<Seq<char>> {
    match value {
        Some(flag) => Some(bool_text(flag)),
        None => None,
    }
}

/// The configured default branch, if any.
pub open spec fn default_branch(cfg: GitConfig) -> Option<Seq<char>> {
    match cfg.init {
        Some(init) => text_of(init.default_branch),
        None => None,
    }
}

/// The configured conflict style, if any.
pub open spec fn conflict_style(cfg: GitConfig) -> Option<Seq<char>> {
    match cfg.merge {
        Some(merge) => text_of(merge.conflictstyle),
        None => None,
    }
}

/// Whether to rebase on pull, if configured.
pub open spec fn pull_rebase(cfg: GitConfig) -> Option<Seq<char>> {
    match cfg.pull {
        Some(pull) => flag_of(pull.rebase),
        None => None,
    }
}

/// Whether to set up the remote on push, if configured.
pub open spec fn push_auto_setup(cfg: GitConfig) -> Option<Seq<char>> {
    match cfg.push {
        Some(push) => flag_of(push.auto_setup_remote),
        None => None,
    }
}

/// The settings that the configuration asks for, in the order in which they
/// are applied: name, email, credential helper, default branch, conflict
/// style, rebase on pull, automatic remote on push.
pub open spec fn wanted_settings(cfg: GitConfig) -> Seq<(Seq<char>, Seq<char>)> {
    let s0 = Seq::<(Seq<char>, Seq<char>)>::empty();
    let s1 = with_setting(s0, "user.name"@, text_of(cfg.user_name));
    let s2 = with_setting(s1, "user.email"@, text_of(cfg.user_email));
    let s3 = with_setting(s2, "credential.helper"@, text_of(cfg.credential_helper));
    let s4 = with_setting(s3, "init.defaultBranch"@, default_branch(cfg));
    let s5 = with_setting(s4, "merge.conflictStyle"@, conflict_style(cfg));
    let s6 = with_setting(s5, "pull.rebase"@, pull_rebase(cfg));
    with_setting(s6, "push.autoSetupRemote"@, push_auto_setup(cfg))
}

/// Why the git step has nothing to do, if it has nothing to do.
pub open spec fn skip_reason(git: Option<GitConfig>) -> Option<Seq<char>> {
    match git {
        None => Some("No git settings configured, skipping"@),
        Some(cfg) => if !cfg.enable {
            Some("user.git.enable is false, skipping git module"@)
        } else if !git_work_present(cfg) {
            Some("No git preferences provided, skipping"@)
        } else {
            None
        },
    }
}

/// Whether the configuration names at least one git preference.
pub fn has_git_work(cfg: &GitConfig) -> (present: bool)
    ensures
        present == git_work_present(*cfg),
{
    cfg.user_name.is_some() || cfg.user_email.is_some() || cfg.credential_helper.is_some() || (
    match &cfg.init {
        Some(init) => init.default_branch.is_some(),
        None => false,
    }) || (match &cfg.merge {
        Some(merge) => merge.conflictstyle.is_some(),
        None => false,
    }) || (match &cfg.pull {
        Some(pull) => pull.rebase.is_some(),
        None => false,
    }) || (match &cfg.push {
        Some(push) => push.auto_setup_remote.is_some(),
        None => false,
    }) || cfg.ignores.len() > 0
}

fn push_setting(settings: &mut Vec<GitSetting>, key: &str, value: Option<&str>)
    ensures
        setting_texts(final(settings)@) == with_setting(
            setting_texts(old(settings)@),
            key@,
            match value {
                Some(text) => Some(text@),
                None => None,
            },
        ),
{
    if let Some(text) = value {
        let setting = GitSetting { key: String::from_str(key), value: String::from_str(text) };
        settings.push(setting);
        proof {
            assert(setting_texts(settings@) =~= setting_texts(old(settings)@).push((key@, text@)));
        }
    }
}

fn bool_str(value: bool) -> (text: &'static str)
    ensures
        text@ == bool_text(value),
{
    if value {
        "true"
    } else {
        "false"
    }
}

fn str_of(value: &Option<String>) -> (text: Option<&str>)
    ensures
        text is Some <==> value is Some,
        text is Some ==> text->0@ == value->0@,
{
    match value {
        Some(text) => Some(text.as_str()),
        None => None,
    }
}

fn flag_str(value: Option<bool>) -> (text: Option<&'static str>)
    ensures
        text is Some <==> value is Some,
        text is Some ==> text->0@ == bool_text(value->0),
{
    match value {
        Some(flag) => Some(bool_str(flag)),
        None => None,
    }
}

/// The settings that the configuration asks for, in the order in which they
/// are applied.
pub fn settings_of(cfg: &GitConfig) -> (settings: Vec<GitSetting>)
    ensures
        setting_texts(settings@) == wanted_settings(*cfg),
{
    let mut settings: Vec<GitSetting> = Vec::new();
    assert(setting_texts(settings@) =~= Seq::empty());
    push_setting(&mut settings, "user.name", str_of(&cfg.user_name));
    push_setting(&mut settings, "user.email", str_of(&cfg.user_email));
    push_setting(&mut settings, "credential.helper", str_of(&cfg.credential_helper));
    let branch = match &cfg.init {
        Some(init) => str_of(&init.default_branch),
        None => None,
    };
    push_setting(&mut settings, "init.defaultBranch", branch);
    let style = match &cfg.merge {
        Some(merge) => str_of(&merge.conflictstyle),
        None => None,
    };
    push_setting(&mut settings, "merge.conflictStyle", style);
    let rebase = match &cfg.pull {
        Some(pull) => flag_str(pull.rebase),
        None => None,
    };
    push_setting(&mut settings, "pull.rebase", rebase);
    let auto = match &cfg.push {
        Some(push) => flag_str(push.auto_setup_remote),
        None => None,
    };
    push_setting(&mut settings, "push.autoSetupRemote", auto);
    settings
}

/// What the git step decides, from the context before it to the context
/// after it and the work it hands back. Without a git block, with git
/// disabled or with no preference named, the step says why it skips and
/// hands back nothing. Otherwise it announces the work and hands back the
/// settings to ensure, in order, and the ignore patterns.
pub open spec fn decided(before: StepContext, after: StepContext, work: Option<GitWork>) -> bool {
    &&& work is None <==> skip_reason(before.cfg.user.git) is Some
    &&& work is None ==> after.progress.message@ == skip_reason(before.cfg.user.git)->0
    &&& work is Some ==> {
        &&& (after.progress.message@ == "🌿"@ + " applying git config"@ || after.progress.message@
            == "git"@ + " applying git config"@)
        &&& setting_texts(work->0.settings@) == wanted_settings(before.cfg.user.git->0)
        &&& texts(work->0.ignores@) == texts(before.cfg.user.git->0.ignores@)
    }
    &&& after.progress.lines == before.progress.lines
    &&& after.same_setting(before)
}

/// Decides what the git step does, as `decided` has it.
pub fn run(ctx: &mut StepContext<'_>) -> (work: Option<GitWork>)
    ensures
        decided(*old(ctx), *final(ctx), work),
        *final(final(ctx).sudo) == *final(old(ctx).sudo),
{
    let cfg = ctx.cfg;
    match &cfg.user.git {
        None => {
            ctx.status("No git settings configured, skipping");
            None
        },
        Some(git) => {
            if !git.enable {
                ctx.status("user.git.enable is false, skipping git module");
                None
            } else if !has_git_work(git) {
                ctx.status("No git preferences provided, skipping");
                None
            } else {
                let message = with_emoji("🌿", "git", " applying git config");
                ctx.status(message.as_str());
                let settings = settings_of(git);
                let ignores = clone_strings(&git.ignores);
                Some(GitWork { settings, ignores })
            }
        },
    }
}


/// The command that reads the global setting `key`.
pub fn get_command(key: &str) -> (spec: CommandSpec)
    ensures
        spec.argv() == seq!["git"@, "config"@, "--global"@, "--get"@, key@],
{
    CommandSpec::new("git", &["config", "--global", "--get", key])
}

/// The command that sets the global setting `key` to `value`.
pub fn set_command(key: &str, value: &str) -> (spec: CommandSpec)
    ensures
        spec.argv() == seq!["git"@, "config"@, "--global"@, key@, value@],
{
    CommandSpec::new("git", &["config", "--global", key, value])
}

/// Reads what the command that reads the setting `key` left behind: on
/// success the value, without white space around it; on exit code one, that
/// the setting is not set; on anything else, a failure.
pub fn git_get(key: &str, output: &CommandOutput) -> (res: Result<Option<String>, SetupError>)
    ensures
        output.success ==> res is Ok && res->Ok_0 is Some && res->Ok_0->0@ == trimmed(
            output.stdout@,
        ),
        !output.success && output.code == Some(1i32) ==> res is Ok && res->Ok_0 is None,
        !output.success && output.code != Some(1i32) ==> res is Err && is_command_failure(
            res->Err_0,
            "git"@,
            "git config --get "@ + key@ + " failed"@,
            output.code,
            Some(output.stderr@),
        ),
{
    if output.success {
        Ok(Some(trim(output.stdout.as_str())))
    } else {
        let unset = match output.code {
            Some(code) => code == 1,
            None => false,
        };
        if unset {
            Ok(None)
        } else {
            let mut failure = String::from_str("git config --get ");
            failure.append(key);
            failure.append(" failed");
            Err(SetupError::command("git", failure, output.code, Some(output.stderr.as_str())))
        }
    }
}

/// Decides whether the setting `key` has to be written, given its current
/// value: a setting that already has the wanted value is left alone;
/// otherwise the command that sets it is handed back.
pub fn ensure_git_config(key: &str, value: &str, current: &Option<String>) -> (command: Option<
    CommandSpec,
>)
    ensures
        command is None <==> (current is Some && current->0@ == value@),
        command is Some ==> command->0.argv() == seq![
            "git"@,
            "config"@,
            "--global"@,
            key@,
            value@,
        ],
{
    let already = match current {
        Some(held) => same_text(held.as_str(), value),
        None => false,
    };
    if already {
        None
    } else {
        Some(set_command(key, value))
    }
}

/// Reads how the command that sets the setting `key` ended.
pub fn set_finished(key: &str, success: bool, exit_code: Option<i32>) -> (res: Result<
    (),
    SetupError,
>)
    ensures
        res is Ok <==> success,
        !success ==> is_command_failure(
            res->Err_0,
            "git"@,
            "git config for "@ + key@ + " failed"@,
            exit_code,
            None,
        ),
{
    let mut failure = String::from_str("git config for ");
    failure.append(key);
    failure.append(" failed");
    SetupError::expect_success("git", failure, success, exit_code)
}

/// The global ignore file: where it lies and what it is to hold.
#[derive(Debug)]
pub struct IgnoreFile {
    pub path: String,
    pub body: String,
}

/// The text of the global ignore file: the patterns, one on each line.
pub open spec fn ignore_body(ignores: Seq<Seq<char>>) -> Seq<char> {
    joined(ignores, "\n"@) + "\n"@
}

/// The global ignore file for the given patterns. Once it is written where
/// it differs, the setting `core.excludesFile` is to point at its path.
pub fn ensure_global_ignore(ctx: &StepContext<'_>, ignores: &Vec<String>) -> (file: IgnoreFile)
    ensures
        may_resolve_to("~/.config/git/ignore"@, ctx.root@, file.path@),
        file.body@ == ignore_body(texts(ignores@)),
{
    let path = resolve_path("~/.config/git/ignore", ctx.root);
    let mut body = join(ignores, "\n");
    body.append("\n");
    IgnoreFile { path, body }
}

} // verus!
