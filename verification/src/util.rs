//! Paths and file contents.

use vstd::prelude::*;
use crate::text::{
    chars_of,
    ends_with,
    same_chars,
    starts_with,
    str_starts_with,
    string_of,
    trim,
    trimmed,
};

verus! {

/// Whether `path` is absolute: whether it begins with a slash. Paths are
/// Unix paths throughout.
pub open spec fn is_absolute(path: Seq<char>) -> bool {
    path.len() > 0 && path[0] == '/'
}

/// `path` taken relative to `base`: an absolute path stands as it is; any
/// other is put behind the base, with a slash between them unless the base
/// is empty or brings one.
pub open spec fn joined_path(base: Seq<char>, path: Seq<char>) -> Seq<char> {
    if is_absolute(path) {
        path
    } else if base.len() == 0 || base.last() == '/' {
        base + path
    } else {
        base.push('/') + path
    }
}

/// `path` taken relative to `base`.
pub fn join_path(base: &str, path: &str) -> (out: String)
    ensures
        out@ == joined_path(base@, path@),
{
    let head = chars_of(base);
    let tail = chars_of(path);
    if tail.len() > 0 && tail[0] == '/' {
        return string_of(&tail);
    }
    let mut out = head;
    if out.len() > 0 && out[out.len() - 1] != '/' {
        out.push('/');
    }
    let mut i: usize = 0;
    let ghost start = out@;
    assert(tail@.take(0) =~= Seq::<char>::empty());
    assert(start + Seq::<char>::empty() =~= start);
    while i < tail.len()
        invariant
            i <= tail.len(),
            out@ == start + tail@.take(i as int),
        decreases tail.len() - i,
    {
        out.push(tail[i]);
        proof {
            assert(tail@.take(i + 1) =~= tail@.take(i as int).push(tail@[i as int]));
            assert(out@ =~= start + tail@.take(i + 1));
        }
        i += 1;
    }
    proof {
        assert(tail@.take(tail.len() as int) =~= tail@);
    }
    string_of(&out)
}

/// `path` with a leading tilde replaced by the user's home directory.
///
/// Trusted: stands for `shellexpand::tilde`, which returns its input
/// unchanged, or, for an input that begins with a tilde, the home directory
/// followed by what stands after the tilde. Which of the two depends on the
/// input and on whether the environment knows a home directory.
#[verifier::external_body]
fn expand_tilde(path: &str) -> (out: String)
    ensures
        out@ == path@ || (starts_with(path@, "~"@) && ends_with(out@, path@.skip(1))),
{
    shellexpand::tilde(path).into_owned()
}

/// Whether `out` may be where the path `path` lies, taken against the
/// directory `base`. A path that begins with a tilde has the home directory
/// put in place of the tilde, or stands as it is where no home directory is
/// to be had; any other path is taken relative to the base.
pub open spec fn may_lie_at(path: Seq<char>, base: Seq<char>, out: Seq<char>) -> bool {
    if starts_with(path, "~"@) {
        out == path || ends_with(out, path.skip(1))
    } else {
        out == joined_path(base, path)
    }
}

/// Whether `out` may be what the path `input` resolves to against the
/// directory `base`: where `input` lies once the white space around it is
/// dropped.
pub open spec fn may_resolve_to(input: Seq<char>, base: Seq<char>, out: Seq<char>) -> bool {
    may_lie_at(trimmed(input), base, out)
}

/// Where the path `path` lies: a path that begins with a tilde has the
/// home directory put in, an absolute path stands as it is, and any other
/// path is taken relative to `base_dir`.
pub fn place_path(path: &str, base_dir: &str) -> (out: String)
    ensures
        may_lie_at(path@, base_dir@, out@),
{
    if str_starts_with(path, "~") {
        expand_tilde(path)
    } else {
        join_path(base_dir, path)
    }
}

/// The path that `input` stands for: white space around it is dropped, and
/// what is left is placed against `base_dir`.
pub fn resolve_path(input: &str, base_dir: &str) -> (out: String)
    ensures
        may_resolve_to(input@, base_dir@, out@),
{
    let path = trim(input);
    place_path(path.as_str(), base_dir)
}

/// `s` with every carriage return that is followed by a line feed dropped,
/// read from the left.
pub open spec fn unix_newlines(s: Seq<char>) -> Seq<char>
    decreases s.len(),
{
    if s.len() == 0 {
        s
    } else if s.len() >= 2 && s[0] == '\r' && s[1] == '\n' {
        seq!['\n'] + unix_newlines(s.skip(2))
    } else {
        seq![s[0]] + unix_newlines(s.drop_first())
    }
}

/// `s` without the line feeds at its end.
pub open spec fn without_final_newlines(s: Seq<char>) -> Seq<char>
    decreases s.len(),
{
    if s.len() > 0 && s.last() == '\n' {
        without_final_newlines(s.drop_last())
    } else {
        s
    }
}

/// `s` with Unix line ends and exactly one line feed at its end.
pub open spec fn normalized(s: Seq<char>) -> Seq<char> {
    without_final_newlines(unix_newlines(s)).push('\n')
}

fn normalize_chars(chars: &Vec<char>) -> (out: Vec<char>)
    ensures
        out@ == normalized(chars@),
{
    let mut body: Vec<char> = Vec::new();
    let mut i: usize = 0;
    proof {
        assert(chars@.skip(0) == chars@);
    }
    while i < chars.len()
        invariant
            i <= chars.len(),
            unix_newlines(chars@) == body@ + unix_newlines(chars@.skip(i as int)),
        decreases chars.len() - i,
    {
        let ghost rest = chars@.skip(i as int);
        let ghost before = body@;
        if chars[i] == '\r' && i + 1 < chars.len() && chars[i + 1] == '\n' {
            body.push('\n');
            proof {
                assert(rest.skip(2) == chars@.skip(i + 2));
                assert(before + (seq!['\n'] + unix_newlines(rest.skip(2))) == before.push('\n')
                    + unix_newlines(rest.skip(2)));
            }
            i += 2;
        } else {
            body.push(chars[i]);
            proof {
                assert(rest.drop_first() == chars@.skip(i + 1));
                assert(before + (seq![rest[0]] + unix_newlines(rest.drop_first())) == before.push(
                    rest[0],
                ) + unix_newlines(rest.drop_first()));
            }
            i += 1;
        }
    }
    proof {
        assert(body@ + Seq::<char>::empty() == body@);
    }
    let mut end: usize = body.len();
    proof {
        assert(body@.take(end as int) == body@);
    }
    while end > 0 && body[end - 1] == '\n'
        invariant
            end <= body.len(),
            without_final_newlines(body@) == without_final_newlines(body@.take(end as int)),
        decreases end,
    {
        proof {
            assert(body@.take(end as int).drop_last() == body@.take(end - 1));
        }
        end -= 1;
    }
    let mut out: Vec<char> = Vec::new();
    let mut k: usize = 0;
    while k < end
        invariant
            k <= end <= body.len(),
            out@ == body@.take(k as int),
        decreases end - k,
    {
        out.push(body[k]);
        proof {
            assert(body@.take(k + 1) == body@.take(k as int).push(body@[k as int]));
        }
        k += 1;
    }
    out.push('\n');
    out
}

/// `input` with Unix line ends and exactly one line feed at its end.
pub fn normalize_newlines(input: &str) -> (out: String)
    ensures
        out@ == normalized(input@),
{
    let chars = chars_of(input);
    let out = normalize_chars(&chars);
    string_of(&out)
}

/// Whether `contents` has to be written to a file: `existing` is what the
/// file holds now, if it exists. A file that holds the same text, line ends
/// and final line feeds aside, is left alone.
pub fn write_if_changed(existing: Option<&str>, contents: &str) -> (write: bool)
    ensures
        write == match existing {
            Some(held) => normalized(held@) != normalized(contents@),
            None => true,
        },
{
    match existing {
        Some(held) => {
            let old = normalize_chars(&chars_of(held));
            let new = normalize_chars(&chars_of(contents));
            !same_chars(&old, &new)
        },
        None => true,
    }
}

} // verus!
