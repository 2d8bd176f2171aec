//! The SSH step: the client configuration in `~/.ssh/config`.

use vstd::prelude::*;
use vstd::string::StringExecFns;
use crate::steps::{is_log_line, StepContext, StepLogLevel};
use crate::style::with_emoji;
use crate::text::texts;
use crate::util::{
    join_path,
    joined_path,
    may_resolve_to,
    normalize_newlines,
    normalized,
    resolve_path,
};

verus! {

/// The permissions of the SSH directory: its owner alone may enter it.
pub const SSH_DIR_MODE: u32 = 0o700;

/// The permissions of the SSH configuration: its owner alone may read it.
pub const SSH_CONFIG_MODE: u32 = 0o600;

/// What the SSH step has to put in place.
#[derive(Debug)]
pub struct SshWork {
    /// The SSH directory, to be created with `SSH_DIR_MODE`.
    pub dir: String,
    /// The configuration file in it, to be left with `SSH_CONFIG_MODE`.
    pub config_path: String,
    /// What the configuration file is to hold.
    pub content: String,
}

/// What the step says before it writes `content` to `path`.
pub open spec fn update_notice(content: Seq<char>, path: Seq<char>) -> Seq<char> {
    "updating \n------\n"@ + content + "\n------\n"@ + path
}

/// What the SSH step decides, from the context before it to the context
/// after it and the work it hands back. Without an SSH block the step says
/// that it skips and hands back nothing. Otherwise it announces the work
/// and hands back the directory, the file and the text to write: the
/// configured text with Unix line ends and exactly one line feed at its end.
pub open spec fn decided(before: StepContext, after: StepContext, work: Option<SshWork>) -> bool {
    &&& work is None <==> before.cfg.user.ssh is None
    &&& work is None ==> {
        &&& after.progress.message@ == "No SSH config provided, skipping"@
        &&& after.progress.lines == before.progress.lines
    }
    &&& work is Some ==> {
        &&& (after.progress.message@ == "🗝"@ + " syncing ~/.ssh/config"@ || after.progress.message@
            == "ssh"@ + " syncing ~/.ssh/config"@)
        &&& may_resolve_to("~/.ssh"@, before.root@, work->0.dir@)
        &&& work->0.config_path@ == joined_path(work->0.dir@, "config"@)
        &&& work->0.content@ == normalized(before.cfg.user.ssh->0.config@)
        &&& exists|line: Seq<char>|
            is_log_line(
                line,
                StepLogLevel::Info,
                update_notice(work->0.content@, work->0.config_path@),
            ) && texts(after.progress.lines@) == texts(before.progress.lines@).push(line)
    }
    &&& after.same_setting(before)
}

/// Decides what the SSH step does, as `decided` has it.
pub fn run(ctx: &mut StepContext<'_>) -> (work: Option<SshWork>)
    ensures
        decided(*old(ctx), *final(ctx), work),
        *final(final(ctx).sudo) == *final(old(ctx).sudo),
{
    let cfg = ctx.cfg;
    match &cfg.user.ssh {
        None => {
            ctx.status("No SSH config provided, skipping");
            None
        },
        Some(ssh) => {
            let message = with_emoji("🗝", "ssh", " syncing ~/.ssh/config");
            ctx.status(message.as_str());
            let dir = resolve_path("~/.ssh", ctx.root);
            let config_path = join_path(dir.as_str(), "config");
            let content = normalize_newlines(ssh.config.as_str());
            let mut notice = String::from_str("updating \n------\n");
            notice.append(content.as_str());
            notice.append("\n------\n");
            notice.append(config_path.as_str());
            ctx.info(notice.as_str());
            Some(SshWork { dir, config_path, content })
        },
    }
}

/// What the step says once the file at `path` is in place.
pub open spec fn result_notice(path: Seq<char>, changed: bool) -> Seq<char> {
    if changed {
        "updated "@ + path
    } else {
        path + " already up to date"@
    }
}

/// Writes the log line that says whether the configuration at `path` was
/// written or was already as wanted.
pub fn report(ctx: &mut StepContext<'_>, path: &str, changed: bool)
    ensures
        exists|line: Seq<char>|
            is_log_line(line, StepLogLevel::Info, result_notice(path@, changed)) && texts(
                final(ctx).progress.lines@,
            ) == texts(old(ctx).progress.lines@).push(line),
        final(ctx).progress.message == old(ctx).progress.message,
        final(ctx).same_setting(*old(ctx)),
        *final(final(ctx).sudo) == *final(old(ctx).sudo),
{
    let notice = if changed {
        let mut notice = String::from_str("updated ");
        notice.append(path);
        notice
    } else {
        let mut notice = String::from_str(path);
        notice.append(" already up to date");
        notice
    };
    assert(notice@ == result_notice(path@, changed));
    ctx.info(notice.as_str());
}

} // verus!
