//! The package-manager step: Homebrew formulas and casks.

use vstd::prelude::*;
use vstd::string::StringExecFns;
use crate::command::CommandSpec;
use crate::config::HomebrewConfig;
use crate::error::{is_command_failure, SetupError};
use crate::steps::StepContext;
use crate::style::with_emoji;
use crate::text::texts;

verus! {

/// One line of a Brewfile for each of `names`, in order: the kind of the
/// package, then its name in double quotes.
pub open spec fn brewfile_lines(kind: Seq<char>, names: Seq<Seq<char>>) -> Seq<char>
    decreases names.len(),
{
    if names.len() == 0 {
        Seq::empty()
    } else {
        brewfile_lines(kind, names.drop_last()) + kind + " \""@ + names.last() + "\"\n"@
    }
}

/// The Brewfile for the configured packages: the formulas, then the casks.
pub open spec fn brewfile(cfg: HomebrewConfig) -> Seq<char> {
    brewfile_lines("brew"@, texts(cfg.brews@)) + brewfile_lines("cask"@, texts(cfg.casks@))
}

fn push_lines(contents: &mut String, kind: &str, names: &Vec<String>)
    ensures
        final(contents)@ == old(contents)@ + brewfile_lines(kind@, texts(names@)),
{
    let mut i: usize = 0;
    assert(texts(names@).take(0) =~= Seq::empty());
    assert(contents@ + Seq::<char>::empty() =~= contents@);
    while i < names.len()
        invariant
            i <= names.len(),
            contents@ == old(contents)@ + brewfile_lines(kind@, texts(names@).take(i as int)),
        decreases names.len() - i,
    {
        let ghost before = contents@;
        let ghost done = brewfile_lines(kind@, texts(names@).take(i as int));
        contents.append(kind);
        contents.append(" \"");
        contents.append(names[i].as_str());
        contents.append("\"\n");
        proof {
            let next = texts(names@).take(i + 1);
            assert(next.drop_last() =~= texts(names@).take(i as int));
            assert(next.last() == names@[i as int]@);
            assert(contents@ =~= old(contents)@ + (done + kind@ + " \""@ + names@[i as int]@
                + "\"\n"@));
        }
        i += 1;
    }
    proof {
        assert(texts(names@).take(names.len() as int) =~= texts(names@));
    }
}

/// The Brewfile for the configured packages.
pub fn render_brewfile(cfg: &HomebrewConfig) -> (contents: String)
    ensures
        contents@ == brewfile(*cfg),
{
    let mut contents = String::new();
    push_lines(&mut contents, "brew", &cfg.brews);
    push_lines(&mut contents, "cask", &cfg.casks);
    contents
}

/// How the step begins, from the context before it to the context after
/// it and the command it hands back. With the package manager disabled the
/// step says so and there is nothing to run; otherwise the command that
/// checks that the package manager is installed is handed back.
pub open spec fn decided(before: StepContext, after: StepContext, check: Option<CommandSpec>) -> bool {
    &&& check is Some <==> before.cfg.homebrew.enable
    &&& check is Some ==> check->0.argv() == seq!["brew"@, "--version"@]
    &&& check is Some ==> after.progress.message == before.progress.message
    &&& check is None ==> after.progress.message@ == "Homebrew disabled in config, skipping"@
    &&& after.progress.lines == before.progress.lines
    &&& after.same_setting(before)
}

/// Begins the step, as `decided` has it.
pub fn run(ctx: &mut StepContext<'_>) -> (check: Option<CommandSpec>)
    ensures
        decided(*old(ctx), *final(ctx), check),
        *final(final(ctx).sudo) == *final(old(ctx).sudo),
{
    if !ctx.cfg.homebrew.enable {
        ctx.status("Homebrew disabled in config, skipping");
        None
    } else {
        let check = CommandSpec::new("brew", &["--version"]);
        assert(check.argv() =~= seq!["brew"@, "--version"@]);
        Some(check)
    }
}

/// Reads how the check for the package manager ended.
pub fn ensure_brew_available(success: bool, exit_code: Option<i32>) -> (res: Result<
    (),
    SetupError,
>)
    ensures
        res is Ok <==> success,
        !success ==> is_command_failure(
            res->Err_0,
            "brew"@,
            "brew is not available"@,
            exit_code,
            None,
        ),
{
    SetupError::expect_success("brew", String::from_str("brew is not available"), success, exit_code)
}

/// Goes on once the package manager is known to be installed. With no
/// package configured the step says so and is done; otherwise it announces
/// the bundle and hands back the Brewfile to install from.
pub fn ensure_bundle(ctx: &mut StepContext<'_>) -> (contents: Option<String>)
    ensures
        contents is None <==> old(ctx).cfg.homebrew.brews@.len() == 0
            && old(ctx).cfg.homebrew.casks@.len() == 0,
        contents is None ==> final(ctx).progress.message@
            == "No Homebrew packages configured, skipping"@,
        contents is Some ==> contents->0@ == brewfile(old(ctx).cfg.homebrew),
        contents is Some ==> (final(ctx).progress.message@ == "📦"@ + " brew bundle"@
            || final(ctx).progress.message@ == "[pkg]"@ + " brew bundle"@),
        final(ctx).progress.lines == old(ctx).progress.lines,
        final(ctx).same_setting(*old(ctx)),
        *final(final(ctx).sudo) == *final(old(ctx).sudo),
{
    let cfg = ctx.cfg;
    if cfg.homebrew.brews.len() == 0 && cfg.homebrew.casks.len() == 0 {
        ctx.status("No Homebrew packages configured, skipping");
        None
    } else {
        let message = with_emoji("📦", "[pkg]", " brew bundle");
        ctx.status(message.as_str());
        Some(render_brewfile(&cfg.homebrew))
    }
}

/// The command that installs from the Brewfile at `brewfile_path`. Its
/// output is streamed under the label `brew bundle`.
pub fn bundle_command(brewfile_path: &str) -> (spec: CommandSpec)
    ensures
        spec.argv() == seq!["brew"@, "bundle"@, "--file"@, brewfile_path@],
{
    CommandSpec::new("brew", &["bundle", "--file", brewfile_path])
}

/// Reads how the bundle command ended.
pub fn bundle_finished(success: bool, exit_code: Option<i32>) -> (res: Result<(), SetupError>)
    ensures
        res is Ok <==> success,
        !success ==> is_command_failure(
            res->Err_0,
            "brew"@,
            "brew bundle failed"@,
            exit_code,
            None,
        ),
{
    SetupError::expect_success("brew", String::from_str("brew bundle failed"), success, exit_code)
}

} // verus!
