//! Text: what the library does to strings and to the paths it writes as
//! strings.

use vstd::prelude::*;

verus! {

/// `String::push` appends `c` to the end of `s` and leaves the rest as it was.
pub assume_specification[ String::push ](s: &mut String, c: char)
    ensures
        final(s)@ == old(s)@.push(c),
;

/// `str::eq` holds of two texts that are made of the same chars, and of no
/// others.
pub assume_specification[ <str as PartialEq>::eq ](a: &str, b: &str) -> (r: bool)
    ensures
        r == (a@ == b@),
;

/// Whether two texts hold the same chars.
pub fn same_str(a: &str, b: &str) -> (r: bool)
    ensures
        r == (a@ == b@),
{
    *a == *b
}

/// The path that `std::path::Path::join` makes of `base` and `segment`, on
/// the platform the library is built for.
pub uninterp spec fn joined_path(base: Seq<char>, segment: Seq<char>) -> Seq<char>;

/// `std::path::Path::join`, on paths written as text: `segment` is put behind
/// `base` as the standard library does it, and the result is that path as
/// text again.
#[verifier::external_body]
pub(crate) fn join_path(base: &str, segment: &str) -> (joined: String)
    ensures
        joined@ == joined_path(base@, segment@),
{
    std::path::Path::new(base).join(segment).to_string_lossy().into_owned()
}

/// The file name that `sanitize_filename::sanitize` makes of `name`, on the
/// platform the library is built for.
pub uninterp spec fn sanitized(name: Seq<char>) -> Seq<char>;

/// `sanitize_filename::sanitize`: `name` without what a file system does not
/// take in a file name, by the rules of that crate.
#[verifier::external_body]
pub(crate) fn sanitize(name: &str) -> (clean: String)
    ensures
        clean@ == sanitized(name@),
{
    sanitize_filename::sanitize(name)
}

/// Whether `a` comes before `b` in the order of the dictionary, the chars
/// taken by their code points.
pub open spec fn text_less(a: Seq<char>, b: Seq<char>) -> bool
    decreases a.len(),
{
    if b.len() == 0 {
        false
    } else if a.len() == 0 {
        true
    } else if a[0] != b[0] {
        (a[0] as u32) < (b[0] as u32)
    } else {
        text_less(a.drop_first(), b.drop_first())
    }
}

/// No text comes before itself.
pub proof fn lemma_text_less_irreflexive(a: Seq<char>)
    ensures
        !text_less(a, a),
    decreases a.len(),
{
    if a.len() > 0 {
        lemma_text_less_irreflexive(a.drop_first());
    }
}

/// Of two different texts one comes before the other.
pub proof fn lemma_text_less_total(a: Seq<char>, b: Seq<char>)
    ensures
        a == b || text_less(a, b) || text_less(b, a),
    decreases a.len(),
{
    if a.len() == 0 || b.len() == 0 {
        if a.len() == 0 && b.len() == 0 {
            assert(a =~= b);
        }
    } else if a[0] == b[0] {
        lemma_text_less_total(a.drop_first(), b.drop_first());
        if a.drop_first() == b.drop_first() {
            assert(a =~= seq![a[0]] + a.drop_first());
            assert(b =~= seq![b[0]] + b.drop_first());
        }
    } else {
        vstd::utf8::char_u32_cast(a[0], a[0] as u32);
        vstd::utf8::char_u32_cast(b[0], b[0] as u32);
    }
}

/// What comes before a text comes before all that the text comes before.
pub proof fn lemma_text_less_transitive(a: Seq<char>, b: Seq<char>, c: Seq<char>)
    requires
        text_less(a, b),
        text_less(b, c),
    ensures
        text_less(a, c),
    decreases a.len(),
{
    if a.len() > 0 && a[0] == b[0] && b[0] == c[0] {
        lemma_text_less_transitive(a.drop_first(), b.drop_first(), c.drop_first());
    }
}

/// The chars of `text`, in their order.
pub fn chars_of(text: &str) -> (chars: Vec<char>)
    ensures
        chars@ == text@,
{
    let mut chars: Vec<char> = Vec::new();
    for c in it: text.chars()
        invariant
            it.seq() == text@,
            chars@ == text@.take(it.index() as int),
    {
        chars.push(c);
    }
    chars
}

/// Whether `a` comes before `b` in the order of the dictionary, as
/// [`text_less`] says: the first chars that differ decide, and a text comes
/// after every text that it begins with.
pub fn str_less(a: &str, b: &str) -> (r: bool)
    ensures
        r == text_less(a@, b@),
{
    let xs = chars_of(a);
    let ys = chars_of(b);
    let mut i: usize = 0;
    assert(xs@.skip(0) =~= xs@ && ys@.skip(0) =~= ys@);
    while i < xs.len() && i < ys.len()
        invariant
            i <= xs.len(),
            i <= ys.len(),
            xs@ == a@,
            ys@ == b@,
            text_less(xs@, ys@) == text_less(xs@.skip(i as int), ys@.skip(i as int)),
        decreases xs.len() - i,
    {
        let x = xs[i];
        let y = ys[i];
        assert(xs@.skip(i as int)[0] == x && ys@.skip(i as int)[0] == y);
        if x != y {
            return (x as u32) < (y as u32);
        }
        assert(xs@.skip(i as int).drop_first() =~= xs@.skip(i + 1));
        assert(ys@.skip(i as int).drop_first() =~= ys@.skip(i + 1));
        i += 1;
    }
    i < ys.len()
}

/// The text made of `chars[from..to]`.
pub fn string_of(chars: &Vec<char>, from: usize, to: usize) -> (text: String)
    requires
        from <= to <= chars.len(),
    ensures
        text@ == chars@.subrange(from as int, to as int),
{
    let mut text = String::new();
    let mut i: usize = from;
    while i < to
        invariant
            from <= i <= to <= chars.len(),
            text@ == chars@.subrange(from as int, i as int),
        decreases to - i,
    {
        text.push(chars[i]);
        i += 1;
    }
    text
}

/// `a` and `b` put together.
pub fn concat_str(a: &str, b: &str) -> (both: String)
    ensures
        both@ == a@ + b@,
{
    let mut both = a.to_owned();
    both.append(b);
    both
}

/// Where `mark` stands first in `text`; the length of `text` where it does
/// not stand in it.
pub open spec fn position_of(text: Seq<char>, mark: char) -> int
    decreases text.len(),
{
    if text.len() == 0 || text[0] == mark {
        0
    } else {
        1 + position_of(text.drop_first(), mark)
    }
}

/// Where `mark` stands first in `text`, as [`position_of`] says it.
pub fn find_char(chars: &Vec<char>, mark: char) -> (at: usize)
    ensures
        at == position_of(chars@, mark),
        at <= chars.len(),
{
    let mut i: usize = 0;
    assert(chars@.skip(0) =~= chars@);
    while i < chars.len() && chars[i] != mark
        invariant
            i <= chars.len(),
            position_of(chars@, mark) == i + position_of(chars@.skip(i as int), mark),
        decreases chars.len() - i,
    {
        assert(chars@.skip(i as int).drop_first() =~= chars@.skip(i + 1));
        i += 1;
    }
    i
}

/// One digit as text.
pub open spec fn digit_text(digit: int) -> Seq<char> {
    if digit == 0 {
        "0"@
    } else if digit == 1 {
        "1"@
    } else if digit == 2 {
        "2"@
    } else if digit == 3 {
        "3"@
    } else if digit == 4 {
        "4"@
    } else if digit == 5 {
        "5"@
    } else if digit == 6 {
        "6"@
    } else if digit == 7 {
        "7"@
    } else if digit == 8 {
        "8"@
    } else {
        "9"@
    }
}

/// `n` written in decimal, without leading zeros.
pub open spec fn decimal_text(n: nat) -> Seq<char>
    decreases n,
{
    if n < 10 {
        digit_text(n as int)
    } else {
        decimal_text(n / 10) + digit_text((n % 10) as int)
    }
}

fn digit_str(digit: usize) -> (text: &'static str)
    requires
        digit < 10,
    ensures
        text@ == digit_text(digit as int),
{
    match digit {
        0 => "0",
        1 => "1",
        2 => "2",
        3 => "3",
        4 => "4",
        5 => "5",
        6 => "6",
        7 => "7",
        8 => "8",
        _ => "9",
    }
}

/// `n` written in decimal.
pub fn decimal_string(n: usize) -> (text: String)
    ensures
        text@ == decimal_text(n as nat),
    decreases n,
{
    if n < 10 {
        digit_str(n).to_owned()
    } else {
        let mut text = decimal_string(n / 10);
        text.append(digit_str(n % 10));
        text
    }
}

/// `text` with every `from` replaced by `to`.
pub open spec fn replaced_text(text: Seq<char>, from: char, to: Seq<char>) -> Seq<char>
    decreases text.len(),
{
    if text.len() == 0 {
        text
    } else if text.last() == from {
        replaced_text(text.drop_last(), from, to) + to
    } else {
        replaced_text(text.drop_last(), from, to).push(text.last())
    }
}

/// `text` with every `from` replaced by `to`.
pub fn replace_char(text: &str, from: char, to: &str) -> (changed: String)
    ensures
        changed@ == replaced_text(text@, from, to@),
{
    let mut changed = String::new();
    for c in it: text.chars()
        invariant
            it.seq() == text@,
            changed@ == replaced_text(text@.take(it.index() as int), from, to@),
    {
        assert(text@.take(it.index() + 1).drop_last() =~= text@.take(it.index() as int));
        if c == from {
            changed.append(to);
        } else {
            changed.push(c);
        }
    }
    assert(text@.take(text@.len() as int) =~= text@);
    changed
}

/// Whether `c` is white space, as `char::is_whitespace` tells it.
pub uninterp spec fn white_space(c: char) -> bool;

/// `char::is_whitespace`: whether `c` has the Unicode property `White_Space`.
#[verifier::external_body]
pub(crate) fn is_whitespace(c: char) -> (r: bool)
    ensures
        r == white_space(c),
{
    c.is_whitespace()
}

/// `text` without the white space at its end.
pub open spec fn trimmed_end(text: Seq<char>) -> Seq<char>
    decreases text.len(),
{
    if text.len() > 0 && white_space(text.last()) {
        trimmed_end(text.drop_last())
    } else {
        text
    }
}

/// How much of `chars[..to]` is left when the white space at its end is
/// taken away.
pub fn trimmed_length(chars: &Vec<char>, to: usize) -> (n: usize)
    requires
        to <= chars.len(),
    ensures
        n <= to,
        chars@.take(n as int) == trimmed_end(chars@.take(to as int)),
{
    let mut n: usize = to;
    while n > 0 && is_whitespace(chars[n - 1])
        invariant
            n <= to <= chars.len(),
            trimmed_end(chars@.take(n as int)) == trimmed_end(chars@.take(to as int)),
        decreases n,
    {
        assert(chars@.take(n as int).drop_last() =~= chars@.take(n - 1));
        n -= 1;
    }
    n
}

/// Whether `text` ends with `suffix`.
pub open spec fn ends_with(text: Seq<char>, suffix: Seq<char>) -> bool {
    suffix.len() <= text.len() && text.skip(text.len() - suffix.len()) == suffix
}

/// Whether `chars` ends with `suffix`.
pub fn has_suffix(chars: &Vec<char>, suffix: &Vec<char>) -> (r: bool)
    ensures
        r == ends_with(chars@, suffix@),
{
    if suffix.len() > chars.len() {
        return false;
    }
    let start = chars.len() - suffix.len();
    let mut i: usize = 0;
    while i < suffix.len()
        invariant
            i <= suffix.len(),
            start + suffix.len() == chars.len(),
            forall|j: int| 0 <= j < i ==> chars[start + j] == suffix[j],
        decreases suffix.len() - i,
    {
        if chars[start + i] != suffix[i] {
            return false;
        }
        i += 1;
    }
    assert(chars@.skip(start as int) =~= suffix@);
    true
}

} // verus!
