//! Character-level helpers on strings.

use vstd::prelude::*;
use vstd::string::StringExecFns;

verus! {

/// The characters of `s`, in order.
pub fn chars_of(s: &str) -> (out: Vec<char>)
    ensures
        out@ == s@,
{
    let mut out: Vec<char> = Vec::new();
    let chars = s.chars();
    for c in it: chars
        invariant
            out@ == s@.take(it.index@),
            it.seq() == s@,
    {
        out.push(c);
    }
    out
}


/// Appends one character to `s`.
///
/// Trusted: stands for `String::push`, which by its documentation appends the
/// given character to the end of the string.
#[verifier::external_body]
fn push_char(s: &mut String, c: char)
    ensures
        final(s)@ == old(s)@.push(c),
{
    s.push(c)
}

/// The string made of the characters of `chars`, in order.
pub fn string_of(chars: &Vec<char>) -> (out: String)
    ensures
        out@ == chars@,
{
    let mut out = String::new();
    let mut i: usize = 0;
    while i < chars.len()
        invariant
            i <= chars.len(),
            out@ == chars@.take(i as int),
        decreases chars.len() - i,
    {
        push_char(&mut out, chars[i]);
        i += 1;
    }
    out
}

/// Whether `a` and `b` hold the same characters.
pub fn same_chars(a: &Vec<char>, b: &Vec<char>) -> (same: bool)
    ensures
        same == (a@ == b@),
{
    if a.len() != b.len() {
        return false;
    }
    let mut i: usize = 0;
    while i < a.len()
        invariant
            i <= a.len(),
            a.len() == b.len(),
            a@.take(i as int) == b@.take(i as int),
        decreases a.len() - i,
    {
        if a[i] != b[i] {
            return false;
        }
        proof {
            assert(a@.take(i + 1) == a@.take(i as int).push(a@[i as int]));
            assert(b@.take(i + 1) == b@.take(i as int).push(b@[i as int]));
        }
        i += 1;
    }
    proof {
        assert(a@.take(a.len() as int) == a@);
        assert(b@.take(b.len() as int) == b@);
    }
    true
}

/// Whether `a` and `b` are the same text.
pub fn same_text(a: &str, b: &str) -> (same: bool)
    ensures
        same == (a@ == b@),
{
    let left = chars_of(a);
    let right = chars_of(b);
    same_chars(&left, &right)
}


/// Whether `c` is white space in the sense of `char::is_whitespace`: whether
/// it has the Unicode property White_Space.
pub uninterp spec fn white_space(c: char) -> bool;

/// Whether `c` is white space.
///
/// Trusted: stands for `char::is_whitespace`, whose answer depends on the
/// character alone; the contract gives that answer a name and says no more.
#[verifier::external_body]
fn is_whitespace(c: char) -> (yes: bool)
    ensures
        yes == white_space(c),
{
    c.is_whitespace()
}

/// Each character of `s` with whether it is white space.
pub open spec fn marked(s: Seq<char>) -> Seq<(char, bool)> {
    Seq::new(s.len(), |i: int| (s[i], white_space(s[i])))
}

/// `marked` without the marked characters at its beginning.
pub open spec fn without_marked_start(marked: Seq<(char, bool)>) -> Seq<(char, bool)>
    decreases marked.len(),
{
    if marked.len() > 0 && marked[0].1 {
        without_marked_start(marked.drop_first())
    } else {
        marked
    }
}

/// `marked` without the marked characters at its end.
pub open spec fn without_marked_end(marked: Seq<(char, bool)>) -> Seq<(char, bool)>
    decreases marked.len(),
{
    if marked.len() > 0 && marked.last().1 {
        without_marked_end(marked.drop_last())
    } else {
        marked
    }
}

/// The characters of `marked`, without their marks.
pub open spec fn letters(marked: Seq<(char, bool)>) -> Seq<char> {
    Seq::new(marked.len(), |i: int| marked[i].0)
}

/// The characters of `marked` without the marked ones at its beginning and
/// at its end.
pub open spec fn trimmed_marked(marked: Seq<(char, bool)>) -> Seq<char> {
    letters(without_marked_end(without_marked_start(marked)))
}

/// `s` without leading and trailing white space.
pub open spec fn trimmed(s: Seq<char>) -> Seq<char> {
    trimmed_marked(marked(s))
}

/// Each character of `chars` with whether it is white space.
pub fn mark_spaces(chars: &Vec<char>) -> (out: Vec<(char, bool)>)
    ensures
        out@ == marked(chars@),
{
    let mut out: Vec<(char, bool)> = Vec::new();
    let mut i: usize = 0;
    while i < chars.len()
        invariant
            i <= chars.len(),
            out@ == marked(chars@).take(i as int),
        decreases chars.len() - i,
    {
        out.push((chars[i], is_whitespace(chars[i])));
        proof {
            assert(out@ =~= marked(chars@).take(i + 1));
        }
        i += 1;
    }
    proof {
        assert(marked(chars@).take(chars.len() as int) =~= marked(chars@));
    }
    out
}

/// The characters of `marked` without the marked ones at its beginning and
/// at its end.
pub fn trim_marked(marked: &Vec<(char, bool)>) -> (out: Vec<char>)
    ensures
        out@ == trimmed_marked(marked@),
{
    let mut start: usize = 0;
    proof {
        assert(marked@.skip(0) == marked@);
    }
    while start < marked.len() && marked[start].1
        invariant
            start <= marked.len(),
            without_marked_start(marked@) == without_marked_start(marked@.skip(start as int)),
        decreases marked.len() - start,
    {
        proof {
            assert(marked@.skip(start as int).drop_first() == marked@.skip(start + 1));
        }
        start += 1;
    }
    let mut end: usize = marked.len();
    proof {
        assert(marked@.skip(start as int) == marked@.subrange(start as int, end as int));
    }
    while start < end && marked[end - 1].1
        invariant
            start <= end <= marked.len(),
            without_marked_end(without_marked_start(marked@)) == without_marked_end(
                marked@.subrange(start as int, end as int),
            ),
        decreases end - start,
    {
        proof {
            assert(marked@.subrange(start as int, end as int).drop_last() == marked@.subrange(
                start as int,
                end - 1,
            ));
        }
        end -= 1;
    }
    let mut out: Vec<char> = Vec::new();
    let mut i: usize = start;
    while i < end
        invariant
            start <= i <= end <= marked.len(),
            out@ == letters(marked@.subrange(start as int, i as int)),
        decreases end - i,
    {
        out.push(marked[i].0);
        proof {
            assert(out@ =~= letters(marked@.subrange(start as int, i + 1)));
        }
        i += 1;
    }
    out
}

/// `chars` without leading and trailing white space.
pub fn trim_chars(chars: &Vec<char>) -> (out: Vec<char>)
    ensures
        out@ == trimmed(chars@),
{
    let marked = mark_spaces(chars);
    trim_marked(&marked)
}

/// `s` without leading and trailing white space.
pub fn trim(s: &str) -> (out: String)
    ensures
        out@ == trimmed(s@),
{
    let chars = chars_of(s);
    let kept = trim_chars(&chars);
    string_of(&kept)
}

/// Whether `s` begins with `prefix`.
pub open spec fn starts_with(s: Seq<char>, prefix: Seq<char>) -> bool {
    prefix.len() <= s.len() && s.take(prefix.len() as int) == prefix
}

/// Whether `s` ends with `suffix`.
pub open spec fn ends_with(s: Seq<char>, suffix: Seq<char>) -> bool {
    suffix.len() <= s.len() && s.skip(s.len() - suffix.len()) == suffix
}

/// Whether `pattern` stands in `s` at position `at`.
pub open spec fn occurs_at(s: Seq<char>, pattern: Seq<char>, at: int) -> bool {
    0 <= at && at + pattern.len() <= s.len() && s.subrange(at, at + pattern.len()) == pattern
}

/// Whether `pattern` stands somewhere in `s`.
pub open spec fn contains(s: Seq<char>, pattern: Seq<char>) -> bool {
    exists|at: int| occurs_at(s, pattern, at)
}

/// Whether `pattern` stands in `chars` at position `at`.
pub fn chars_occur_at(chars: &Vec<char>, pattern: &Vec<char>, at: usize) -> (yes: bool)
    ensures
        yes == occurs_at(chars@, pattern@, at as int),
{
    if pattern.len() > chars.len() || at > chars.len() - pattern.len() {
        return false;
    }
    let mut i: usize = 0;
    while i < pattern.len()
        invariant
            i <= pattern.len(),
            at + pattern.len() <= chars.len(),
            chars@.subrange(at as int, at + i) == pattern@.take(i as int),
        decreases pattern.len() - i,
    {
        if chars[at + i] != pattern[i] {
            proof {
                assert(chars@.subrange(at as int, at + pattern.len())[i as int] == chars@[at + i]);
            }
            return false;
        }
        proof {
            assert(chars@.subrange(at as int, at + i + 1) == chars@.subrange(
                at as int,
                at + i,
            ).push(chars@[at + i]));
            assert(pattern@.take(i + 1) == pattern@.take(i as int).push(pattern@[i as int]));
        }
        i += 1;
    }
    proof {
        assert(pattern@.take(pattern.len() as int) == pattern@);
    }
    true
}

/// Whether `chars` begins with `prefix`.
pub fn chars_start_with(chars: &Vec<char>, prefix: &Vec<char>) -> (yes: bool)
    ensures
        yes == starts_with(chars@, prefix@),
{
    let yes = chars_occur_at(chars, prefix, 0);
    proof {
        if prefix.len() <= chars.len() {
            assert(chars@.take(prefix.len() as int) == chars@.subrange(0, 0 + prefix.len()));
        }
    }
    yes
}

/// Whether `chars` ends with `suffix`.
pub fn chars_end_with(chars: &Vec<char>, suffix: &Vec<char>) -> (yes: bool)
    ensures
        yes == ends_with(chars@, suffix@),
{
    if suffix.len() > chars.len() {
        return false;
    }
    let at = chars.len() - suffix.len();
    let yes = chars_occur_at(chars, suffix, at);
    proof {
        assert(chars@.skip(at as int) == chars@.subrange(at as int, at + suffix.len()));
    }
    yes
}

/// Whether `pattern` stands somewhere in `chars`.
pub fn chars_contain(chars: &Vec<char>, pattern: &Vec<char>) -> (yes: bool)
    ensures
        yes == contains(chars@, pattern@),
{
    if pattern.len() > chars.len() {
        return false;
    }
    let last = chars.len() - pattern.len();
    let mut at: usize = 0;
    while at < last
        invariant
            at <= last,
            forall|k: int| 0 <= k < at ==> !occurs_at(chars@, pattern@, k),
        decreases last - at,
    {
        if chars_occur_at(chars, pattern, at) {
            return true;
        }
        at += 1;
    }
    chars_occur_at(chars, pattern, last)
}

/// Whether `s` begins with `prefix`.
pub fn str_starts_with(s: &str, prefix: &str) -> (yes: bool)
    ensures
        yes == starts_with(s@, prefix@),
{
    chars_start_with(&chars_of(s), &chars_of(prefix))
}

/// Whether `s` ends with `suffix`.
pub fn str_ends_with(s: &str, suffix: &str) -> (yes: bool)
    ensures
        yes == ends_with(s@, suffix@),
{
    chars_end_with(&chars_of(s), &chars_of(suffix))
}

/// Whether `pattern` stands somewhere in `s`.
pub fn str_contains(s: &str, pattern: &str) -> (yes: bool)
    ensures
        yes == contains(s@, pattern@),
{
    chars_contain(&chars_of(s), &chars_of(pattern))
}


/// The character that writes the digit `d`.
pub open spec fn digit(d: nat) -> char {
    if d == 0 {
        '0'
    } else if d == 1 {
        '1'
    } else if d == 2 {
        '2'
    } else if d == 3 {
        '3'
    } else if d == 4 {
        '4'
    } else if d == 5 {
        '5'
    } else if d == 6 {
        '6'
    } else if d == 7 {
        '7'
    } else if d == 8 {
        '8'
    } else {
        '9'
    }
}

/// `n` written in base ten, without leading zeros.
pub open spec fn decimal(n: nat) -> Seq<char>
    decreases n,
{
    if n < 10 {
        seq![digit(n)]
    } else {
        decimal(n / 10).push(digit(n % 10))
    }
}

fn digit_char(d: u64) -> (c: char)
    requires
        d < 10,
    ensures
        c == digit(d as nat),
{
    if d == 0 {
        '0'
    } else if d == 1 {
        '1'
    } else if d == 2 {
        '2'
    } else if d == 3 {
        '3'
    } else if d == 4 {
        '4'
    } else if d == 5 {
        '5'
    } else if d == 6 {
        '6'
    } else if d == 7 {
        '7'
    } else if d == 8 {
        '8'
    } else {
        '9'
    }
}

/// Appends `n`, written in base ten, to `out`.
pub fn push_decimal(out: &mut String, n: u64)
    ensures
        final(out)@ == old(out)@ + decimal(n as nat),
    decreases n,
{
    if n >= 10 {
        push_decimal(out, n / 10);
    }
    push_char(out, digit_char(n % 10));
}

/// `parts` written one after the other with `separator` between neighbours.
pub open spec fn joined(parts: Seq<Seq<char>>, separator: Seq<char>) -> Seq<char>
    decreases parts.len(),
{
    if parts.len() == 0 {
        Seq::empty()
    } else if parts.len() == 1 {
        parts[0]
    } else {
        joined(parts.drop_last(), separator) + separator + parts.last()
    }
}

/// The text of each string of `items`, in order.
pub open spec fn texts<T: View<V = Seq<char>>>(items: Seq<T>) -> Seq<Seq<char>> {
    Seq::new(items.len(), |i: int| items[i]@)
}

/// The texts of a sequence with one more item are the texts of the
/// sequence with the text of that item.
pub proof fn lemma_texts_push<T: View<V = Seq<char>>>(items: Seq<T>, item: T)
    ensures
        texts(items.push(item)) == texts(items).push(item@),
{
    assert(texts(items.push(item)) =~= texts(items).push(item@));
}

/// A copy of `items`.
pub fn clone_strings(items: &Vec<String>) -> (out: Vec<String>)
    ensures
        texts(out@) == texts(items@),
{
    let mut out: Vec<String> = Vec::new();
    let mut i: usize = 0;
    assert(texts(out@) =~= texts(items@).take(0));
    while i < items.len()
        invariant
            i <= items.len(),
            texts(out@) == texts(items@).take(i as int),
        decreases items.len() - i,
    {
        let ghost before = out@;
        let item = items[i].clone();
        out.push(item);
        proof {
            lemma_texts_push(before, item);
            assert(texts(items@).take(i + 1) =~= texts(items@).take(i as int).push(
                items@[i as int]@,
            ));
        }
        i += 1;
    }
    proof {
        assert(texts(items@).take(items.len() as int) == texts(items@));
    }
    out
}

/// The strings of `items` written one after the other with `separator`
/// between neighbours.
pub fn join(items: &Vec<String>, separator: &str) -> (out: String)
    ensures
        out@ == joined(texts(items@), separator@),
{
    let mut out = String::new();
    let mut i: usize = 0;
    while i < items.len()
        invariant
            i <= items.len(),
            out@ == joined(texts(items@).take(i as int), separator@),
        decreases items.len() - i,
    {
        proof {
            let next = texts(items@).take(i + 1);
            assert(next.drop_last() == texts(items@).take(i as int));
            assert(next.last() == items@[i as int]@);
        }
        if i > 0 {
            out.append(separator);
        }
        out.append(items[i].as_str());
        i += 1;
    }
    proof {
        assert(texts(items@).take(items.len() as int) == texts(items@));
    }
    out
}

} // verus!
