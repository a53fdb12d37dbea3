//! Text helpers: prefixes and suffixes, replacing a pattern, cutting at a
//! character, and writing an integer in decimal.
//!
//! Every function is specified over the characters of its arguments, as
//! `Seq<char>`.

use vstd::prelude::*;
use vstd::string::*;

verus! {

/// `s` with every occurrence of `from` replaced by `to`, scanning from the
/// left and never looking inside a replacement. An empty `from` occurs
/// nowhere.
pub open spec fn replace_all(s: Seq<char>, from: Seq<char>, to: Seq<char>) -> Seq<char>
    decreases s.len(),
{
    if from.len() == 0 || s.len() < from.len() {
        s
    } else if from.is_prefix_of(s) {
        to + replace_all(s.skip(from.len() as int), from, to)
    } else {
        seq![s[0]] + replace_all(s.skip(1), from, to)
    }
}

/// The part of `s` before the first `stop`, or all of `s` if it holds none.
pub open spec fn before_first(s: Seq<char>, stop: char) -> Seq<char>
    decreases s.len(),
{
    if s.len() == 0 || s[0] == stop {
        Seq::empty()
    } else {
        seq![s[0]] + before_first(s.skip(1), stop)
    }
}

/// The character that stands for the digit `d`.
pub open spec fn digit_char(d: int) -> char {
    if d == 0 {
        '0'
    } else if d == 1 {
        '1'
    } else if d == 2 {
        '2'
    } else if d == 3 {
        '3'
    } else if d == 4 {
        '4'
    } else if d == 5 {
        '5'
    } else if d == 6 {
        '6'
    } else if d == 7 {
        '7'
    } else if d == 8 {
        '8'
    } else {
        '9'
    }
}

/// The decimal digits of `n`, most significant first, without leading zeros.
pub open spec fn decimal_digits(n: nat) -> Seq<char>
    decreases n,
{
    if n < 10 {
        seq![digit_char(n as int)]
    } else {
        decimal_digits(n / 10).push(digit_char((n % 10) as int))
    }
}

/// `n` written in decimal, with a leading minus sign when it is negative.
pub open spec fn decimal(n: int) -> Seq<char> {
    if n < 0 {
        seq!['-'] + decimal_digits((-n) as nat)
    } else {
        decimal_digits(n as nat)
    }
}

/// The characters of `s`, in order.
pub fn to_chars(s: &str) -> (v: Vec<char>)
    ensures
        v@ == s@,
{
    let mut v: Vec<char> = Vec::new();
    for c in it: s.chars()
        invariant
            v@ == it.seq().take(it.index() as int),
            it.seq() == s@,
    {
        v.push(c);
    }
    v
}

/// Whether `pattern` stands in `text` at position `at`.
fn occurs_at(text: &Vec<char>, at: usize, pattern: &Vec<char>) -> (found: bool)
    requires
        at <= text.len(),
    ensures
        found == pattern@.is_prefix_of(text@.skip(at as int)),
{
    if pattern.len() > text.len() - at {
        return false;
    }
    let mut k: usize = 0;
    while k < pattern.len()
        invariant
            at <= text.len(),
            pattern.len() <= text.len() - at,
            k <= pattern.len(),
            forall|j: int| 0 <= j < k ==> pattern@[j] == text@[at + j],
        decreases pattern.len() - k,
    {
        if pattern[k] != text[at + k] {
            proof {
                let rest = text@.skip(at as int);
                assert(rest[k as int] == text@[at + k]);
            }
            return false;
        }
        k += 1;
    }
    proof {
        let rest = text@.skip(at as int);
        assert(rest.subrange(0, pattern@.len() as int) =~= pattern@);
    }
    true
}

/// Whether `s` begins with `prefix`.
pub fn starts_with(s: &str, prefix: &str) -> (found: bool)
    ensures
        found == prefix@.is_prefix_of(s@),
{
    let text = to_chars(s);
    let pattern = to_chars(prefix);
    proof {
        assert(text@.skip(0) =~= text@);
    }
    occurs_at(&text, 0, &pattern)
}

/// Whether `s` ends with `suffix`.
pub fn ends_with(s: &str, suffix: &str) -> (found: bool)
    ensures
        found == suffix@.is_suffix_of(s@),
{
    let text = to_chars(s);
    let pattern = to_chars(suffix);
    if pattern.len() > text.len() {
        return false;
    }
    let at = text.len() - pattern.len();
    let found = occurs_at(&text, at, &pattern);
    proof {
        let rest = text@.skip(at as int);
        assert(rest.len() == pattern@.len());
        assert(rest.subrange(0, pattern@.len() as int) =~= rest);
        assert(text@.subrange(at as int, text@.len() as int) =~= rest);
    }
    found
}

/// Whether `a` and `b` hold the same characters.
pub fn same_text(a: &str, b: &str) -> (same: bool)
    ensures
        same == (a@ == b@),
{
    let left = to_chars(a);
    let right = to_chars(b);
    if left.len() != right.len() {
        return false;
    }
    let same = occurs_at(&left, 0, &right);
    proof {
        assert(left@.skip(0) =~= left@);
        assert(left@.subrange(0, right@.len() as int) =~= left@);
    }
    same
}

/// Unfolds `replace_all` once at position `at` of `s`.
proof fn lemma_replace_all_step(s: Seq<char>, at: int, from: Seq<char>, to: Seq<char>)
    requires
        0 <= at <= s.len(),
        from.len() > 0,
    ensures
        s.len() - at < from.len() ==> replace_all(s.skip(at), from, to) == s.skip(at),
        s.len() - at >= from.len() && from.is_prefix_of(s.skip(at)) ==> replace_all(
            s.skip(at),
            from,
            to,
        ) == to + replace_all(s.skip(at + from.len()), from, to),
        s.len() - at >= from.len() && !from.is_prefix_of(s.skip(at)) ==> replace_all(
            s.skip(at),
            from,
            to,
        ) == seq![s[at]] + replace_all(s.skip(at + 1), from, to),
{
    let rest = s.skip(at);
    if rest.len() >= from.len() {
        assert(rest.skip(from.len() as int) =~= s.skip(at + from.len()));
        assert(rest.skip(1) =~= s.skip(at + 1));
        assert(rest[0] == s[at]);
    }
}

/// Replaces every occurrence of `from` in `s` by `to`.
pub fn replace(s: &str, from: &str, to: &str) -> (out: String)
    ensures
        out@ == replace_all(s@, from@, to@),
{
    let text = to_chars(s);
    let pattern = to_chars(from);
    if pattern.len() == 0 {
        return String::from_str(s);
    }
    let mut out = String::new();
    let mut kept: usize = 0;
    let mut at: usize = 0;
    proof {
        assert(text@.skip(0) =~= text@);
        assert(text@.subrange(0, 0) =~= Seq::<char>::empty());
        assert(out@ + text@.subrange(0, 0) =~= Seq::<char>::empty());
        assert(Seq::<char>::empty() + replace_all(text@, from@, to@) =~= replace_all(
            text@,
            from@,
            to@,
        ));
    }
    while at < text.len()
        invariant
            text@ == s@,
            pattern@ == from@,
            pattern@.len() > 0,
            kept <= at <= text.len(),
            replace_all(s@, from@, to@) == out@ + text@.subrange(kept as int, at as int)
                + replace_all(text@.skip(at as int), from@, to@),
        decreases text.len() - at,
    {
        proof {
            lemma_replace_all_step(text@, at as int, from@, to@);
        }
        let ghost before = out@;
        let ghost pending = text@.subrange(kept as int, at as int);
        if occurs_at(&text, at, &pattern) {
            out.append(s.substring_char(kept, at));
            out.append(to);
            proof {
                let tail = replace_all(text@.skip(at + pattern@.len()), from@, to@);
                assert((before + pending) + (to@ + tail) =~= ((before + pending) + to@)
                    + Seq::<char>::empty() + tail);
                assert(text@.subrange(at + pattern@.len(), at + pattern@.len())
                    =~= Seq::<char>::empty());
            }
            at = at + pattern.len();
            kept = at;
        } else {
            proof {
                if text@.len() - at >= pattern@.len() {
                    let tail = replace_all(text@.skip(at + 1), from@, to@);
                    assert(pending + seq![text@[at as int]] =~= text@.subrange(
                        kept as int,
                        at + 1,
                    ));
                    assert((before + pending) + (seq![text@[at as int]] + tail) =~= (before
                        + text@.subrange(kept as int, at + 1)) + tail);
                } else {
                    let tail = replace_all(text@.skip(at + 1), from@, to@);
                    lemma_replace_all_step(text@, at + 1, from@, to@);
                    assert(tail == text@.skip(at + 1));
                    assert((before + pending) + text@.skip(at as int) =~= (before
                        + text@.subrange(kept as int, at + 1)) + tail);
                }
            }
            at = at + 1;
        }
    }
    out.append(s.substring_char(kept, at));
    proof {
        lemma_replace_all_step(text@, at as int, from@, to@);
        assert(text@.skip(at as int) =~= Seq::<char>::empty());
    }
    out
}

/// `before_first` is the prefix that ends where `stop` first occurs.
proof fn lemma_before_first_is_prefix(s: Seq<char>, stop: char, at: int)
    requires
        0 <= at <= s.len(),
        forall|j: int| 0 <= j < at ==> s[j] != stop,
        at < s.len() ==> s[at] == stop,
    ensures
        before_first(s, stop) == s.take(at),
    decreases at,
{
    if at == 0 {
        assert(s.take(0) =~= Seq::<char>::empty());
    } else {
        let rest = s.skip(1);
        assert forall|j: int| 0 <= j < at - 1 implies rest[j] != stop by {
            assert(rest[j] == s[j + 1]);
        }
        lemma_before_first_is_prefix(rest, stop, at - 1);
        assert(seq![s[0]] + rest.take(at - 1) =~= s.take(at));
    }
}

/// The part of `s` before the first `stop`, or all of `s` if it holds none.
pub fn cut_before<'a>(s: &'a str, stop: char) -> (head: &'a str)
    ensures
        head@ == before_first(s@, stop),
{
    let text = to_chars(s);
    let mut at: usize = 0;
    while at < text.len() && text[at] != stop
        invariant
            at <= text.len(),
            forall|j: int| 0 <= j < at ==> text@[j] != stop,
        decreases text.len() - at,
    {
        at += 1;
    }
    proof {
        lemma_before_first_is_prefix(s@, stop, at as int);
    }
    s.substring_char(0, at)
}

/// The digit `d` as a one-character string.
fn digit_text(d: u64) -> (t: &'static str)
    requires
        d < 10,
    ensures
        t@ == seq![digit_char(d as int)],
{
    proof {
        reveal_strlit("0");
        reveal_strlit("1");
        reveal_strlit("2");
        reveal_strlit("3");
        reveal_strlit("4");
        reveal_strlit("5");
        reveal_strlit("6");
        reveal_strlit("7");
        reveal_strlit("8");
        reveal_strlit("9");
    }
    let t = if d == 0 {
        "0"
    } else if d == 1 {
        "1"
    } else if d == 2 {
        "2"
    } else if d == 3 {
        "3"
    } else if d == 4 {
        "4"
    } else if d == 5 {
        "5"
    } else if d == 6 {
        "6"
    } else if d == 7 {
        "7"
    } else if d == 8 {
        "8"
    } else {
        "9"
    };
    assert(t@ =~= seq![digit_char(d as int)]);
    t
}

/// Appends the decimal digits of `n` to `out`.
fn append_digits(out: &mut String, n: u64)
    ensures
        final(out)@ == old(out)@ + decimal_digits(n as nat),
    decreases n,
{
    if n >= 10 {
        append_digits(out, n / 10);
    }
    out.append(digit_text(n % 10));
    proof {
        if n >= 10 {
            assert(old(out)@ + decimal_digits((n / 10) as nat) + seq![digit_char((n % 10) as int)]
                =~= old(out)@ + decimal_digits((n / 10) as nat).push(
                digit_char((n % 10) as int),
            ));
        }
    }
}

/// Appends `n`, written in decimal, to `out`.
pub fn append_decimal(out: &mut String, n: i64)
    ensures
        final(out)@ == old(out)@ + decimal(n as int),
{
    if n < 0 {
        proof {
            reveal_strlit("-");
        }
        out.append("-");
        let magnitude: u64 = (-(n + 1)) as u64 + 1;
        append_digits(out, magnitude);
        proof {
            assert("-"@ =~= seq!['-']);
            assert(old(out)@ + seq!['-'] + decimal_digits(magnitude as nat) =~= old(out)@ + (
            seq!['-'] + decimal_digits((-n) as nat)));
        }
    } else {
        append_digits(out, n as u64);
    }
}

} // verus!
