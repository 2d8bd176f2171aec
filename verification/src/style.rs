//! Terminal styling of short pieces of text.
//!
//! Whether a piece of text is coloured, and whether an emoji is shown,
//! depends on the terminal the process runs in. The contracts here say what
//! holds either way.

use vstd::prelude::*;
use vstd::string::StringExecFns;

verus! {

/// Whether `out` is `text` with something, possibly nothing, put before and
/// after it.
pub open spec fn decorates(out: Seq<char>, text: Seq<char>) -> bool {
    exists|before: Seq<char>, after: Seq<char>| out == before + text + after
}

/// `text`, dimmed where the terminal shows styles.
///
/// Trusted: stands for `console::style` with `dim`, rendered to a string,
/// which writes the text unchanged, between escape sequences where styles
/// are enabled.
#[verifier::external_body]
pub(crate) fn dim(text: &str) -> (out: String)
    ensures
        decorates(out@, text@),
{
    console::style(text).dim().to_string()
}

/// `text`, in bold where the terminal shows styles.
///
/// Trusted: stands for `console::style` with `bold`, rendered to a string,
/// which writes the text unchanged, between escape sequences where styles
/// are enabled.
#[verifier::external_body]
pub(crate) fn bold(text: &str) -> (out: String)
    ensures
        decorates(out@, text@),
{
    console::style(text).bold().to_string()
}

/// `text`, in yellow where the terminal shows styles.
///
/// Trusted: stands for `console::style` with `yellow`, rendered to a string,
/// which writes the text unchanged, between escape sequences where styles
/// are enabled.
#[verifier::external_body]
pub(crate) fn yellow(text: &str) -> (out: String)
    ensures
        decorates(out@, text@),
{
    console::style(text).yellow().to_string()
}

/// `text`, in red where the terminal shows styles.
///
/// Trusted: stands for `console::style` with `red`, rendered to a string,
/// which writes the text unchanged, between escape sequences where styles
/// are enabled.
#[verifier::external_body]
pub(crate) fn red(text: &str) -> (out: String)
    ensures
        decorates(out@, text@),
{
    console::style(text).red().to_string()
}

/// `text`, in cyan where the terminal shows styles.
///
/// Trusted: stands for `console::style` with `cyan`, rendered to a string,
/// which writes the text unchanged, between escape sequences where styles
/// are enabled.
#[verifier::external_body]
pub(crate) fn cyan(text: &str) -> (out: String)
    ensures
        decorates(out@, text@),
{
    console::style(text).cyan().to_string()
}

/// `text`, in bold green where the terminal shows styles.
///
/// Trusted: stands for `console::style` with `green` and `bold`, rendered
/// to a string, which writes the text unchanged, between escape sequences
/// where styles are enabled.
#[verifier::external_body]
pub(crate) fn green_bold(text: &str) -> (out: String)
    ensures
        decorates(out@, text@),
{
    console::style(text).green().bold().to_string()
}

/// `text`, in bold red where the terminal shows styles.
///
/// Trusted: stands for `console::style` with `red` and `bold`, rendered to
/// a string, which writes the text unchanged, between escape sequences
/// where styles are enabled.
#[verifier::external_body]
pub(crate) fn red_bold(text: &str) -> (out: String)
    ensures
        decorates(out@, text@),
{
    console::style(text).red().bold().to_string()
}

/// `symbol` where the terminal wants emoji, `fallback` where it does not.
///
/// Trusted: stands for `console::Emoji`, rendered to a string, which writes
/// the first of its two texts or the second.
#[verifier::external_body]
pub(crate) fn emoji(symbol: &str, fallback: &str) -> (out: String)
    ensures
        out@ == symbol@ || out@ == fallback@,
{
    console::Emoji(symbol, fallback).to_string()
}

/// `rest` behind an emoji: behind `symbol` where the terminal wants emoji,
/// behind `fallback` where it does not.
pub fn with_emoji(symbol: &str, fallback: &str, rest: &str) -> (out: String)
    ensures
        out@ == symbol@ + rest@ || out@ == fallback@ + rest@,
{
    let mut out = emoji(symbol, fallback);
    out.append(rest);
    out
}

/// Whether `out` is `left`, a space and `right`, each however the terminal
/// styles it.
pub open spec fn styled_pair(out: Seq<char>, left: Seq<char>, right: Seq<char>) -> bool {
    exists|first: Seq<char>, second: Seq<char>|
        decorates(first, left) && decorates(second, right) && out == first + " "@ + second
}

/// `left`, a space, `right`.
pub fn spaced(left: &str, right: &str) -> (out: String)
    ensures
        out@ == left@ + " "@ + right@,
{
    let mut out = String::from_str(left);
    out.append(" ");
    out.append(right);
    out
}

} // verus!
