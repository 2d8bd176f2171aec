//! The dotfiles step: copies of configured files and directories.

use vstd::prelude::*;
use vstd::string::StringExecFns;
use crate::config::DotfileEntry;
use crate::error::SetupError;
use crate::steps::{is_log_line, StepContext, StepLogLevel};
use crate::style::with_emoji;
use crate::text::{decimal, push_decimal, same_text, texts};
use crate::util::{may_resolve_to, resolve_path};

verus! {

/// How the step begins, from the context before it to the context after
/// it and its answer: whether there is any dotfile to place. With none the
/// step says that it skips.
pub open spec fn decided(before: StepContext, after: StepContext, work: bool) -> bool {
    &&& work == (before.cfg.user.dotfiles@.len() > 0)
    &&& !work ==> after.progress.message@ == "No dotfiles requested, skipping module"@
    &&& work ==> after.progress.message == before.progress.message
    &&& after.progress.lines == before.progress.lines
    &&& after.same_setting(before)
}

/// Begins the step, as `decided` has it.
pub fn run(ctx: &mut StepContext<'_>) -> (work: bool)
    ensures
        decided(*old(ctx), *final(ctx), work),
        *final(final(ctx).sudo) == *final(old(ctx).sudo),
{
    if ctx.cfg.user.dotfiles.len() == 0 {
        ctx.status("No dotfiles requested, skipping module");
        false
    } else {
        true
    }
}

/// Writes the log line that says that the dotfile `name` is being placed.
pub fn announce(ctx: &mut StepContext<'_>, name: &str)
    ensures
        exists|line: Seq<char>|
            (is_log_line(line, StepLogLevel::Info, "🔗"@ + (" syncing dotfile "@ + name@))
                || is_log_line(line, StepLogLevel::Info, "link"@ + (" syncing dotfile "@ + name@)))
                && texts(final(ctx).progress.lines@) == texts(old(ctx).progress.lines@).push(line),
        final(ctx).progress.message == old(ctx).progress.message,
        final(ctx).same_setting(*old(ctx)),
        *final(final(ctx).sudo) == *final(old(ctx).sudo),
{
    let mut rest = String::from_str(" syncing dotfile ");
    rest.append(name);
    let message = with_emoji("🔗", "link", rest.as_str());
    ctx.info(message.as_str());
}

/// The source and the target of a mapping as paths, in that order.
pub fn resolve_entry(ctx: &StepContext<'_>, entry: &DotfileEntry) -> (paths: (String, String))
    ensures
        may_resolve_to(entry.source@, ctx.root@, paths.0@),
        may_resolve_to(entry.target@, ctx.root@, paths.1@),
{
    (resolve_path(entry.source.as_str(), ctx.root), resolve_path(entry.target.as_str(), ctx.root))
}

/// What the file system says of a mapping.
#[derive(Copy, Clone, Debug, PartialEq, Eq, Structural)]
pub struct EntryFacts {
    pub source_exists: bool,
    pub source_is_dir: bool,
    pub target_exists: bool,
    /// Whether source and target, both files, differ in what they hold. It
    /// counts only where both exist and the source is a file.
    pub differs: bool,
}

/// How a mapping is brought up to date.
#[derive(Copy, Clone, Debug, PartialEq, Eq, Structural)]
pub enum SyncAction {
    /// The target is as wanted.
    Nothing,
    /// Copy the source file to the target.
    CopyFile,
    /// Copy the source directory and all below it to the target.
    CopyTree,
}

/// What is to be done for a mapping.
#[derive(Copy, Clone, Debug, PartialEq, Eq, Structural)]
pub struct SyncPlan {
    /// Whether what lies at the target is first moved aside as a backup.
    pub backup: bool,
    pub action: SyncAction,
}

/// What is to be done for a mapping whose source exists. A directory is
/// always copied, over a backup of whatever lies at the target. A file is
/// copied where the target is missing, copied over a backup where the target
/// differs, and left alone where the target holds the same.
pub open spec fn sync_plan(facts: EntryFacts) -> SyncPlan {
    if facts.source_is_dir {
        SyncPlan { backup: facts.target_exists, action: SyncAction::CopyTree }
    } else if !facts.target_exists {
        SyncPlan { backup: false, action: SyncAction::CopyFile }
    } else if facts.differs {
        SyncPlan { backup: true, action: SyncAction::CopyFile }
    } else {
        SyncPlan { backup: false, action: SyncAction::Nothing }
    }
}

/// Decides what is to be done for the mapping whose source is `source`. A
/// source that does not exist is an error.
pub fn sync_entry(source: &str, facts: EntryFacts) -> (res: Result<SyncPlan, SetupError>)
    ensures
        res is Ok <==> facts.source_exists,
        res is Ok ==> res->Ok_0 == sync_plan(facts),
        res is Err ==> {
            &&& res->Err_0 is PathResolution
            &&& res->Err_0->path@ == source@
            &&& res->Err_0->problem@ == "source "@ + source@ + " does not exist"@
        },
{
    if !facts.source_exists {
        let mut problem = String::from_str("source ");
        problem.append(source);
        problem.append(" does not exist");
        return Err(SetupError::PathResolution { path: String::from_str(source), problem });
    }
    if facts.source_is_dir {
        Ok(SyncPlan { backup: facts.target_exists, action: SyncAction::CopyTree })
    } else if !facts.target_exists {
        Ok(SyncPlan { backup: false, action: SyncAction::CopyFile })
    } else if facts.differs {
        Ok(SyncPlan { backup: true, action: SyncAction::CopyFile })
    } else {
        Ok(SyncPlan { backup: false, action: SyncAction::Nothing })
    }
}

/// Whether two files differ, given what the first holds and what the
/// second holds, if it exists. A file that does not exist differs from any.
pub fn files_differ(a: &Vec<u8>, b: Option<&Vec<u8>>) -> (differ: bool)
    ensures
        differ == match b {
            Some(held) => a@ != held@,
            None => true,
        },
{
    match b {
        None => true,
        Some(held) => {
            if a.len() != held.len() {
                return true;
            }
            let mut i: usize = 0;
            while i < a.len()
                invariant
                    i <= a.len(),
                    b == Some(held),
                    a.len() == held.len(),
                    a@.take(i as int) == held@.take(i as int),
                decreases a.len() - i,
            {
                if a[i] != held[i] {
                    return true;
                }
                proof {
                    assert(a@.take(i + 1) == a@.take(i as int).push(a@[i as int]));
                    assert(held@.take(i + 1) == held@.take(i as int).push(held@[i as int]));
                }
                i += 1;
            }
            proof {
                assert(a@.take(a.len() as int) == a@);
                assert(held@.take(held.len() as int) == held@);
            }
            false
        },
    }
}

/// Whether a file has to be copied to its target: not where the target
/// exists and holds the same.
pub fn copy_file(target_exists: bool, differs: bool) -> (copy: bool)
    ensures
        copy == !(target_exists && !differs),
{
    !(target_exists && !differs)
}

/// The name of the backup of the file `base` at the given attempt: the
/// name with `.bak` behind it at the first attempt, and with the number of
/// the attempt behind that at every later one.
pub open spec fn backup_name_text(base: Seq<char>, attempt: nat) -> Seq<char> {
    if attempt == 0 {
        base + ".bak"@
    } else {
        base + ".bak"@ + "."@ + decimal(attempt)
    }
}

/// The name of the backup of the file `base` at the given attempt.
pub fn backup_name(base: &str, attempt: u64) -> (name: String)
    ensures
        name@ == backup_name_text(base@, attempt as nat),
{
    let mut name = String::from_str(base);
    name.append(".bak");
    if attempt != 0 {
        name.append(".");
        push_decimal(&mut name, attempt);
    }
    name
}

fn name_taken(taken: &Vec<String>, name: &str) -> (yes: bool)
    ensures
        yes == texts(taken@).contains(name@),
{
    let mut i: usize = 0;
    while i < taken.len()
        invariant
            i <= taken.len(),
            forall|k: int| 0 <= k < i ==> (#[trigger] texts(taken@)[k]) != name@,
        decreases taken.len() - i,
    {
        if same_text(taken[i].as_str(), name) {
            assert(texts(taken@)[i as int] == name@);
            return true;
        }
        i += 1;
    }
    false
}

/// Whether `attempt` is the first at which the backup name of `base` is not
/// among `taken`.
pub open spec fn first_free(base: Seq<char>, taken: Seq<Seq<char>>, attempt: nat) -> bool {
    &&& !taken.contains(backup_name_text(base, attempt))
    &&& forall|earlier: nat|
        earlier < attempt ==> taken.contains(#[trigger] backup_name_text(base, earlier))
}

/// Picks the name under which what lies at `target` is moved aside.
/// `file_name` is the last part of `target`, if it has one, and `taken` are
/// the names already in use beside it. The name is the first backup name of
/// the file that is not taken. A target without a file name is an error;
/// so is a directory in which every backup name is taken.
pub fn next_backup_path(target: &str, file_name: Option<&str>, taken: &Vec<String>) -> (res: Result<
    String,
    SetupError,
>)
    ensures
        file_name is None ==> {
            &&& res is Err
            &&& res->Err_0 is PathResolution
            &&& res->Err_0->path@ == target@
            &&& res->Err_0->problem@ == target@ + " has no file name"@
        },
        file_name is Some && res is Ok ==> exists|attempt: nat|
            attempt < u64::MAX && #[trigger] first_free(file_name->0@, texts(taken@), attempt)
                && res->Ok_0@ == backup_name_text(file_name->0@, attempt),
        file_name is Some && res is Err ==> {
            &&& res->Err_0 is Io
            &&& forall|attempt: nat|
                attempt < u64::MAX ==> texts(taken@).contains(
                    #[trigger] backup_name_text(file_name->0@, attempt),
                )
        },
{
    let base = match file_name {
        Some(base) => base,
        None => {
            let mut problem = String::from_str(target);
            problem.append(" has no file name");
            return Err(SetupError::PathResolution { path: String::from_str(target), problem });
        },
    };
    let mut attempt: u64 = 0;
    while attempt < u64::MAX
        invariant
            file_name == Some(base),
            forall|earlier: nat|
                earlier < attempt ==> texts(taken@).contains(
                    #[trigger] backup_name_text(base@, earlier),
                ),
        decreases u64::MAX - attempt,
    {
        let candidate = backup_name(base, attempt);
        if !name_taken(taken, candidate.as_str()) {
            proof {
                let found = attempt as nat;
                assert(first_free(file_name->0@, texts(taken@), found));
                assert(found < u64::MAX && candidate@ == backup_name_text(file_name->0@, found));
            }
            return Ok(candidate);
        }
        attempt += 1;
    }
    Err(SetupError::io("picking a backup name", "every backup name is taken"))
}

} // verus!
