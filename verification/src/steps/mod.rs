//! Step identifiers and the per-step context.

pub mod dotfiles;
pub mod git;
pub mod homebrew;
pub mod ssh;
pub mod system;

use vstd::prelude::*;
use vstd::string::StringExecFns;
use crate::config::Config;
use crate::style::{
    bold, cyan, decorates, dim, green_bold, red, red_bold, spaced, styled_pair, yellow,
};
use crate::sudo::SudoHelper;
use crate::text::{lemma_texts_push, texts};

verus! {

/// One independently runnable unit of bootstrap work.
#[derive(Copy, Clone, Debug, PartialEq, Eq, Hash, Structural)]
pub enum StepKind {
    /// System preferences: timezone, Touch ID for sudo, trackpad.
    System,
    /// The package-manager step.
    Homebrew,
    /// Dotfile placement.
    Dotfiles,
    /// The SSH client configuration.
    Ssh,
    /// Global git preferences.
    Git,
}

impl StepKind {
    /// The human-readable name of the step, as a sequence of characters.
    pub open spec fn name(self) -> Seq<char> {
        match self {
            StepKind::System => "System"@,
            StepKind::Homebrew => "Homebrew"@,
            StepKind::Dotfiles => "Dotfiles"@,
            StepKind::Ssh => "SSH"@,
            StepKind::Git => "Git"@,
        }
    }

    /// The name under which the step is shown to the user.
    pub fn display_name(&self) -> (name: &'static str)
        ensures
            name@ == self.name(),
    {
        match self {
            StepKind::System => "System",
            StepKind::Homebrew => "Homebrew",
            StepKind::Dotfiles => "Dotfiles",
            StepKind::Ssh => "SSH",
            StepKind::Git => "Git",
        }
    }

    /// What the progress indicator shows while the step runs: an arrow,
    /// then the name of the step.
    pub fn running_message(&self) -> (out: String)
        ensures
            styled_pair(out@, "›"@, self.name()),
    {
        let mark = cyan("›");
        let name = bold(self.display_name());
        spaced(mark.as_str(), name.as_str())
    }

    /// What the progress indicator shows once the step has succeeded: a
    /// check mark, then the name of the step.
    pub fn completed_message(&self) -> (out: String)
        ensures
            styled_pair(out@, "✔"@, self.name()),
    {
        let mark = green_bold("✔");
        let name = bold(self.display_name());
        spaced(mark.as_str(), name.as_str())
    }

    /// What the progress indicator shows once the step has failed: a
    /// cross, then the name of the step.
    pub fn failed_message(&self) -> (out: String)
        ensures
            styled_pair(out@, "✖"@, self.name()),
    {
        let mark = red_bold("✖");
        let name = bold(self.display_name());
        spaced(mark.as_str(), name.as_str())
    }
}


/// How much a log line matters.
#[derive(Copy, Clone, Debug, PartialEq, Eq, Structural)]
pub enum StepLogLevel {
    Info,
    Warn,
    Error,
}

impl StepLogLevel {
    /// The tag that a log line of this level begins with, before styling.
    pub open spec fn tag(self) -> Seq<char> {
        match self {
            StepLogLevel::Info => "[info]"@,
            StepLogLevel::Warn => "[warn]"@,
            StepLogLevel::Error => "[error]"@,
        }
    }

    /// The tag of this level as the terminal shows it: dimmed for
    /// information, yellow for warnings, red for errors.
    pub fn label(self) -> (label: String)
        ensures
            decorates(label@, self.tag()),
    {
        match self {
            StepLogLevel::Info => dim("[info]"),
            StepLogLevel::Warn => yellow("[warn]"),
            StepLogLevel::Error => red("[error]"),
        }
    }
}

/// A log line: two spaces, the label, a space, the message.
pub open spec fn log_line_text(label: Seq<char>, message: Seq<char>) -> Seq<char> {
    "  "@ + label + " "@ + message
}

/// The log line that shows `message` under `label`.
pub fn log_line(label: &str, message: &str) -> (line: String)
    ensures
        line@ == log_line_text(label@, message@),
{
    let mut line = String::from_str("  ");
    line.append(label);
    line.append(" ");
    line.append(message);
    line
}

/// Whether `line` is a log line of `level` with `message`, however the
/// terminal styles the level's tag.
pub open spec fn is_log_line(line: Seq<char>, level: StepLogLevel, message: Seq<char>) -> bool {
    exists|label: Seq<char>| decorates(label, level.tag()) && line == log_line_text(label, message)
}

/// What a step has shown so far: its current status message, and the log
/// lines it has written, oldest first.
#[derive(Debug)]
pub struct Progress {
    pub message: String,
    pub lines: Vec<String>,
}

impl Progress {
    /// A sink that has been shown nothing yet.
    pub fn new() -> (progress: Progress)
        ensures
            progress.message@ == Seq::<char>::empty(),
            progress.lines@.len() == 0,
    {
        Progress { message: String::new(), lines: Vec::new() }
    }
}

/// What a step is given to work with: the configuration, the directory
/// against which relative paths are resolved, the privilege ticket manager
/// of the run, and the sink for its status and log lines. A context is made
/// afresh for each step.
pub struct StepContext<'cfg> {
    pub cfg: &'cfg Config,
    pub root: &'cfg str,
    pub sudo: &'cfg mut SudoHelper,
    pub progress: Progress,
}

impl<'cfg> StepContext<'cfg> {
    /// A fresh context around the given configuration, root and ticket
    /// manager, with nothing shown yet.
    pub fn new(cfg: &'cfg Config, root: &'cfg str, sudo: &'cfg mut SudoHelper) -> (ctx: StepContext<
        'cfg,
    >)
        ensures
            ctx.cfg == cfg,
            ctx.root@ == root@,
            *ctx.sudo == *old(sudo),
            *final(sudo) == *final(ctx.sudo),
            ctx.progress.message@ == Seq::<char>::empty(),
            ctx.progress.lines@.len() == 0,
    {
        StepContext { cfg, root, sudo, progress: Progress::new() }
    }

    /// Whether this context differs from `before` in nothing but what the
    /// step has shown.
    pub open spec fn same_setting(self, before: Self) -> bool {
        &&& self.cfg == before.cfg
        &&& self.root@ == before.root@
        &&& *self.sudo == *before.sudo
    }

    /// Sets the step's status message.
    pub fn status(&mut self, message: &str)
        ensures
            final(self).progress.message@ == message@,
            final(self).progress.lines == old(self).progress.lines,
            final(self).same_setting(*old(self)),
            *final(final(self).sudo) == *final(old(self).sudo),
    {
        self.progress.message = String::from_str(message);
    }

    /// Writes one log line of the given level.
    pub fn log(&mut self, level: StepLogLevel, message: &str)
        ensures
            exists|line: Seq<char>|
                is_log_line(line, level, message@) && texts(final(self).progress.lines@) == texts(
                    old(self).progress.lines@,
                ).push(line),
            final(self).progress.message == old(self).progress.message,
            final(self).same_setting(*old(self)),
            *final(final(self).sudo) == *final(old(self).sudo),
    {
        let label = level.label();
        let line = log_line(label.as_str(), message);
        proof {
            lemma_texts_push(self.progress.lines@, line);
            assert(is_log_line(line@, level, message@));
        }
        self.progress.lines.push(line);
    }

    /// Writes one log line of information.
    pub fn info(&mut self, message: &str)
        ensures
            exists|line: Seq<char>|
                is_log_line(line, StepLogLevel::Info, message@) && texts(
                    final(self).progress.lines@,
                ) == texts(old(self).progress.lines@).push(line),
            final(self).progress.message == old(self).progress.message,
            final(self).same_setting(*old(self)),
            *final(final(self).sudo) == *final(old(self).sudo),
    {
        self.log(StepLogLevel::Info, message)
    }

    /// Writes one log line of warning.
    pub fn warn(&mut self, message: &str)
        ensures
            exists|line: Seq<char>|
                is_log_line(line, StepLogLevel::Warn, message@) && texts(
                    final(self).progress.lines@,
                ) == texts(old(self).progress.lines@).push(line),
            final(self).progress.message == old(self).progress.message,
            final(self).same_setting(*old(self)),
            *final(final(self).sudo) == *final(old(self).sudo),
    {
        self.log(StepLogLevel::Warn, message)
    }

    /// Writes one log line of error.
    pub fn error(&mut self, message: &str)
        ensures
            exists|line: Seq<char>|
                is_log_line(line, StepLogLevel::Error, message@) && texts(
                    final(self).progress.lines@,
                ) == texts(old(self).progress.lines@).push(line),
            final(self).progress.message == old(self).progress.message,
            final(self).same_setting(*old(self)),
            *final(final(self).sudo) == *final(old(self).sudo),
    {
        self.log(StepLogLevel::Error, message)
    }

    /// The two forwarders for a command that runs under `label`: the first
    /// for its standard output, the second for its standard error. Each is
    /// to be fed the lines of its stream as they are read, independently of
    /// the other, until its stream ends or it says to stop; both have to be
    /// through before the command counts as finished.
    pub fn stream_command(&self, label: &str) -> (loggers: (StreamLogger, StreamLogger))
        ensures
            loggers.0.serves(label@, StreamKind::Stdout),
            loggers.1.serves(label@, StreamKind::Stderr),
    {
        (
            spawn_stream_logger(label, StreamKind::Stdout),
            spawn_stream_logger(label, StreamKind::Stderr),
        )
    }
}


/// One of the two output streams of a command.
#[derive(Copy, Clone, Debug, PartialEq, Eq, Structural)]
pub enum StreamKind {
    Stdout,
    Stderr,
}

impl StreamKind {
    /// The name of the stream.
    pub open spec fn name(self) -> Seq<char> {
        match self {
            StreamKind::Stdout => "stdout"@,
            StreamKind::Stderr => "stderr"@,
        }
    }

    /// The name of the stream.
    pub fn as_str(self) -> (name: &'static str)
        ensures
            name@ == self.name(),
    {
        match self {
            StreamKind::Stdout => "stdout",
            StreamKind::Stderr => "stderr",
        }
    }
}

/// The tag under which the lines of a stream are shown, before styling: the
/// label alone for standard output, the label and the stream's name for
/// standard error, so that error output stands out.
pub open spec fn stream_tag(label: Seq<char>, stream: StreamKind) -> Seq<char> {
    match stream {
        StreamKind::Stdout => "["@ + label + "]"@,
        StreamKind::Stderr => "["@ + label + ":"@ + stream.name() + "]"@,
    }
}

/// The tag under which a failed read of a stream is shown, before styling.
pub open spec fn stream_error_tag(label: Seq<char>, stream: StreamKind) -> Seq<char> {
    "["@ + label + ":"@ + stream.name() + "]"@
}

/// Forwards the lines of one output stream of a command to the log.
#[derive(Debug)]
pub struct StreamLogger {
    prefix: String,
    error_prefix: String,
}

impl StreamLogger {
    /// What every forwarded line begins with, after the indent.
    pub closed spec fn prefix(&self) -> Seq<char> {
        self.prefix@
    }

    /// What the report of a failed read begins with, after the indent.
    pub closed spec fn error_prefix(&self) -> Seq<char> {
        self.error_prefix@
    }

    /// The forwarder that shows lines behind `prefix` and failed reads
    /// behind `error_prefix`.
    pub fn with_prefixes(prefix: String, error_prefix: String) -> (logger: StreamLogger)
        ensures
            logger.prefix() == prefix@,
            logger.error_prefix() == error_prefix@,
    {
        StreamLogger { prefix, error_prefix }
    }

    /// Whether this forwarder is one for the stream `stream` of the command
    /// labelled `label`, however the terminal styles its tags.
    pub open spec fn serves(&self, label: Seq<char>, stream: StreamKind) -> bool {
        &&& decorates(self.prefix(), stream_tag(label, stream))
        &&& decorates(self.error_prefix(), stream_error_tag(label, stream))
    }

    /// The log line for one read of the stream: the line itself under the
    /// stream's tag, or the report of the failed read.
    pub open spec fn line_for(&self, read: Result<String, String>) -> Seq<char> {
        match read {
            Ok(text) => log_line_text(self.prefix(), text@),
            Err(cause) => log_line_text(self.error_prefix(), "stream read error: "@ + cause@),
        }
    }

    /// Takes in one read of the stream, a line or the message of a failed
    /// read, and hands back the log line to show for it and whether to go on
    /// reading: a failed read is shown once and ends the forwarding of this
    /// stream, and of this stream only.
    pub fn forward(&self, read: &Result<String, String>) -> (out: (String, bool))
        ensures
            out.0@ == self.line_for(*read),
            out.1 == (read is Ok),
    {
        match read {
            Ok(text) => (log_line(self.prefix.as_str(), text.as_str()), true),
            Err(cause) => {
                let mut message = String::from_str("stream read error: ");
                message.append(cause.as_str());
                (log_line(self.error_prefix.as_str(), message.as_str()), false)
            },
        }
    }
}

/// The forwarder for the stream `stream` of the command labelled `label`.
pub fn spawn_stream_logger(label: &str, stream: StreamKind) -> (logger: StreamLogger)
    ensures
        logger.serves(label@, stream),
{
    let mut tagged = String::from_str("[");
    tagged.append(label);
    tagged.append(":");
    tagged.append(stream.as_str());
    tagged.append("]");
    let prefix = match stream {
        StreamKind::Stdout => {
            let mut plain = String::from_str("[");
            plain.append(label);
            plain.append("]");
            dim(plain.as_str())
        },
        StreamKind::Stderr => dim(tagged.as_str()),
    };
    let error_prefix = red(tagged.as_str());
    StreamLogger::with_prefixes(prefix, error_prefix)
}

/// What a forwarder shows for the reads of its stream, taken in order up to
/// and including the first failed one.
pub open spec fn forwarded(logger: StreamLogger, reads: Seq<Result<String, String>>) -> Seq<
    Seq<char>,
>
    decreases reads.len(),
{
    if reads.len() == 0 {
        Seq::empty()
    } else if reads[0] is Ok {
        seq![logger.line_for(reads[0])] + forwarded(logger, reads.drop_first())
    } else {
        seq![logger.line_for(reads[0])]
    }
}

/// A stream whose reads all succeed is forwarded whole and in order: one
/// log line for each line read, the `i`-th for the `i`-th.
pub proof fn law_stream_is_forwarded_in_order(
    logger: StreamLogger,
    reads: Seq<Result<String, String>>,
)
    requires
        forall|i: int| 0 <= i < reads.len() ==> (#[trigger] reads[i]) is Ok,
    ensures
        forwarded(logger, reads).len() == reads.len(),
        forall|i: int|
            0 <= i < reads.len() ==> (#[trigger] forwarded(logger, reads)[i]) == logger.line_for(
                reads[i],
            ),
    decreases reads.len(),
{
    if reads.len() > 0 {
        let rest = reads.drop_first();
        assert forall|i: int| 0 <= i < rest.len() implies (#[trigger] rest[i]) is Ok by {
            assert(rest[i] == reads[i + 1]);
        }
        law_stream_is_forwarded_in_order(logger, rest);
        assert forall|i: int| 0 <= i < reads.len() implies (#[trigger] forwarded(logger, reads)[i])
            == logger.line_for(reads[i]) by {
            if i > 0 {
                assert(forwarded(logger, reads)[i] == forwarded(logger, rest)[i - 1]);
                assert(rest[i - 1] == reads[i]);
            }
        }
    }
}

/// A failed read ends the forwarding of its stream: the lines before it are
/// shown, then the failure once, and nothing after it.
pub proof fn law_stream_stops_at_failed_read(
    logger: StreamLogger,
    reads: Seq<Result<String, String>>,
    failing: int,
)
    requires
        0 <= failing < reads.len(),
        forall|i: int| 0 <= i < failing ==> (#[trigger] reads[i]) is Ok,
        reads[failing] is Err,
    ensures
        forwarded(logger, reads).len() == failing + 1,
        forall|i: int|
            0 <= i <= failing ==> (#[trigger] forwarded(logger, reads)[i]) == logger.line_for(
                reads[i],
            ),
    decreases reads.len(),
{
    if failing > 0 {
        let rest = reads.drop_first();
        assert forall|i: int| 0 <= i < failing - 1 implies (#[trigger] rest[i]) is Ok by {
            assert(rest[i] == reads[i + 1]);
        }
        assert(rest[failing - 1] == reads[failing]);
        law_stream_stops_at_failed_read(logger, rest, failing - 1);
        assert forall|i: int| 0 <= i <= failing implies (#[trigger] forwarded(logger, reads)[i])
            == logger.line_for(reads[i]) by {
            if i > 0 {
                assert(forwarded(logger, reads)[i] == forwarded(logger, rest)[i - 1]);
                assert(rest[i - 1] == reads[i]);
            }
        }
    }
}


/// The turns left after the first one is taken.
pub open spec fn later_turns(turns: Seq<bool>) -> Seq<bool> {
    if turns.len() > 0 {
        turns.drop_first()
    } else {
        turns
    }
}

/// What the log holds once the two readers of a command are through, each
/// line with the stream it came from. The readers run side by side: while
/// both have lines left, `turns` says whose line reaches the log next, `true`
/// for standard output; it stands for the scheduling, of which nothing is
/// known. A reader that is alone shows the rest of its lines.
pub open spec fn interleaved(
    out_lines: Seq<Seq<char>>,
    err_lines: Seq<Seq<char>>,
    turns: Seq<bool>,
) -> Seq<(StreamKind, Seq<char>)>
    decreases out_lines.len() + err_lines.len(),
{
    if out_lines.len() == 0 && err_lines.len() == 0 {
        Seq::empty()
    } else if err_lines.len() == 0 || (out_lines.len() > 0 && turns.len() > 0 && turns[0]) {
        seq![(StreamKind::Stdout, out_lines[0])] + interleaved(
            out_lines.drop_first(),
            err_lines,
            later_turns(turns),
        )
    } else {
        seq![(StreamKind::Stderr, err_lines[0])] + interleaved(
            out_lines,
            err_lines.drop_first(),
            later_turns(turns),
        )
    }
}

/// The lines of `shown` that came from `stream`, in the order in which they
/// stand in `shown`.
pub open spec fn lines_from(shown: Seq<(StreamKind, Seq<char>)>, stream: StreamKind) -> Seq<
    Seq<char>,
>
    decreases shown.len(),
{
    if shown.len() == 0 {
        Seq::empty()
    } else if shown[0].0 == stream {
        seq![shown[0].1] + lines_from(shown.drop_first(), stream)
    } else {
        lines_from(shown.drop_first(), stream)
    }
}

/// However the two readers take turns, the log ends up with every line of
/// both, and with the lines of each stream in the order of that stream.
pub proof fn law_interleaving_loses_and_reorders_nothing(
    out_lines: Seq<Seq<char>>,
    err_lines: Seq<Seq<char>>,
    turns: Seq<bool>,
)
    ensures
        interleaved(out_lines, err_lines, turns).len() == out_lines.len() + err_lines.len(),
        lines_from(interleaved(out_lines, err_lines, turns), StreamKind::Stdout) == out_lines,
        lines_from(interleaved(out_lines, err_lines, turns), StreamKind::Stderr) == err_lines,
    decreases out_lines.len() + err_lines.len(),
{
    let shown = interleaved(out_lines, err_lines, turns);
    if out_lines.len() == 0 && err_lines.len() == 0 {
        assert(out_lines =~= Seq::empty());
        assert(err_lines =~= Seq::empty());
    } else if err_lines.len() == 0 || (out_lines.len() > 0 && turns.len() > 0 && turns[0]) {
        let rest = interleaved(out_lines.drop_first(), err_lines, later_turns(turns));
        law_interleaving_loses_and_reorders_nothing(
            out_lines.drop_first(),
            err_lines,
            later_turns(turns),
        );
        assert(shown.drop_first() =~= rest);
        assert(seq![out_lines[0]] + out_lines.drop_first() =~= out_lines);
    } else {
        let rest = interleaved(out_lines, err_lines.drop_first(), later_turns(turns));
        law_interleaving_loses_and_reorders_nothing(
            out_lines,
            err_lines.drop_first(),
            later_turns(turns),
        );
        assert(shown.drop_first() =~= rest);
        assert(seq![err_lines[0]] + err_lines.drop_first() =~= err_lines);
    }
}

/// A command that writes `N` lines to standard output and `M` lines to
/// standard error, all of them read without failure, leaves exactly `N + M`
/// lines in the log, however its two readers take turns; the lines of each
/// stream stand in the order in which they were written, the `i`-th line of
/// a stream shown as its forwarder shows it.
pub proof fn law_streamed_command_shows_every_line(
    out_logger: StreamLogger,
    err_logger: StreamLogger,
    out_reads: Seq<Result<String, String>>,
    err_reads: Seq<Result<String, String>>,
    turns: Seq<bool>,
)
    requires
        forall|i: int| 0 <= i < out_reads.len() ==> (#[trigger] out_reads[i]) is Ok,
        forall|i: int| 0 <= i < err_reads.len() ==> (#[trigger] err_reads[i]) is Ok,
    ensures
        ({
            let shown = interleaved(
                forwarded(out_logger, out_reads),
                forwarded(err_logger, err_reads),
                turns,
            );
            &&& shown.len() == out_reads.len() + err_reads.len()
            &&& lines_from(shown, StreamKind::Stdout).len() == out_reads.len()
            &&& lines_from(shown, StreamKind::Stderr).len() == err_reads.len()
            &&& forall|i: int|
                0 <= i < out_reads.len() ==> (#[trigger] lines_from(shown, StreamKind::Stdout)[i])
                    == out_logger.line_for(out_reads[i])
            &&& forall|i: int|
                0 <= i < err_reads.len() ==> (#[trigger] lines_from(shown, StreamKind::Stderr)[i])
                    == err_logger.line_for(err_reads[i])
        }),
{
    law_stream_is_forwarded_in_order(out_logger, out_reads);
    law_stream_is_forwarded_in_order(err_logger, err_reads);
    law_interleaving_loses_and_reorders_nothing(
        forwarded(out_logger, out_reads),
        forwarded(err_logger, err_reads),
        turns,
    );
}

} // verus!
