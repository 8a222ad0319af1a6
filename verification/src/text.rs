//! Character-level helpers shared by the command parser and the handlers.
//!
//! Strings are modelled by their view, a `Seq<char>`; a `Vec<String>` by its
//! deep view, a `Seq<Seq<char>>`.

use vstd::prelude::*;
use vstd::utf8::*;

verus! {

/// Whether two string slices hold the same characters.
pub fn str_eq(a: &str, b: &str) -> (same: bool)
    ensures
        same == (a@ == b@),
{
    let x = a.as_bytes();
    let y = b.as_bytes();
    proof {
        encode_utf8_decode_utf8(a@);
        encode_utf8_decode_utf8(b@);
    }
    if x.len() != y.len() {
        return false;
    }
    let mut i: usize = 0;
    while i < x.len()
        invariant
            i <= x.len(),
            x.len() == y.len(),
            x@ == encode_utf8(a@),
            y@ == encode_utf8(b@),
            forall|k: int| 0 <= k < i ==> x@[k] == y@[k],
        decreases x.len() - i,
    {
        if x[i] != y[i] {
            return false;
        }
        i += 1;
    }
    assert(x@ =~= y@);
    true
}

/// The characters of a string slice, in order.
pub fn chars_of(s: &str) -> (chars: Vec<char>)
    ensures
        chars@ == s@,
{
    let mut chars: Vec<char> = Vec::new();
    for c in it: s.chars()
        invariant
            chars@ == it.seq().take(it.index()),
    {
        chars.push(c);
    }
    chars
}

/// `String::push` of the standard library: the character is appended at the
/// end and nothing else changes.
#[verifier::external_body]
pub(crate) fn push_char(s: &mut String, c: char)
    ensures
        final(s)@ == old(s)@.push(c),
{
    s.push(c);
}

/// The string made of `chars[from..to]`.
pub(crate) fn string_from(chars: &Vec<char>, from: usize, to: usize) -> (s: String)
    requires
        from <= to <= chars.len(),
    ensures
        s@ == chars@.subrange(from as int, to as int),
{
    let mut s = String::new();
    let mut i: usize = from;
    while i < to
        invariant
            from <= i <= to <= chars.len(),
            s@ == chars@.subrange(from as int, i as int),
        decreases to - i,
    {
        push_char(&mut s, chars[i]);
        i += 1;
        assert(s@ =~= chars@.subrange(from as int, i as int));
    }
    s
}

/// The characters that separate words: those with the Unicode property
/// `White_Space`.
pub open spec fn is_whitespace(c: char) -> bool {
    let u = c as u32;
    ||| 0x09 <= u <= 0x0D
    ||| u == 0x20
    ||| u == 0x85
    ||| u == 0xA0
    ||| u == 0x1680
    ||| 0x2000 <= u <= 0x200A
    ||| u == 0x2028
    ||| u == 0x2029
    ||| u == 0x202F
    ||| u == 0x205F
    ||| u == 0x3000
}

/// Executable form of [`is_whitespace`].
pub fn char_is_whitespace(c: char) -> (space: bool)
    ensures
        space == is_whitespace(c),
{
    let u: u32 = c as u32;
    (0x09 <= u && u <= 0x0D) || u == 0x20 || u == 0x85 || u == 0xA0 || u == 0x1680 || (0x2000 <= u
        && u <= 0x200A) || u == 0x2028 || u == 0x2029 || u == 0x202F || u == 0x205F || u == 0x3000
}

/// The first position at or after `from` that holds whitespace, or the
/// length of `s` where the word that starts at `from` runs to the end.
pub open spec fn word_end(s: Seq<char>, from: int) -> int
    decreases s.len() - from,
{
    if from < 0 || from >= s.len() || is_whitespace(s[from]) {
        from
    } else {
        word_end(s, from + 1)
    }
}

/// The words of `s` that start at or after `from`: the maximal runs of
/// characters that are not whitespace.
pub open spec fn words_from(s: Seq<char>, from: int) -> Seq<Seq<char>>
    decreases s.len() - from,
{
    if from < 0 || from >= s.len() {
        Seq::empty()
    } else if is_whitespace(s[from]) {
        words_from(s, from + 1)
    } else {
        let end = word_end(s, from);
        if from < end <= s.len() {
            seq![s.subrange(from, end)] + words_from(s, end)
        } else {
            Seq::empty()
        }
    }
}

/// The words of `s`, in order. No word is empty and none holds whitespace.
pub open spec fn words(s: Seq<char>) -> Seq<Seq<char>> {
    words_from(s, 0)
}

/// A word ends after it starts and inside the text, and holds no whitespace.
pub proof fn lemma_word_end(s: Seq<char>, from: int)
    requires
        0 <= from < s.len(),
        !is_whitespace(s[from]),
    ensures
        from < word_end(s, from) <= s.len(),
        forall|k: int| from <= k < word_end(s, from) ==> !is_whitespace(#[trigger] s[k]),
        word_end(s, from) < s.len() ==> is_whitespace(s[word_end(s, from)]),
    decreases s.len() - from,
{
    assert(word_end(s, from) == word_end(s, from + 1));
    if from + 1 < s.len() && !is_whitespace(s[from + 1]) {
        lemma_word_end(s, from + 1);
    } else {
        assert(word_end(s, from + 1) == from + 1);
    }
}

/// Splits `s` at whitespace. Runs of whitespace separate words; leading and
/// trailing whitespace gives no empty word.
pub fn split_whitespace(s: &str) -> (out: Vec<String>)
    ensures
        out.deep_view() == words(s@),
{
    let chars = chars_of(s);
    let mut out: Vec<String> = Vec::new();
    let mut i: usize = 0;
    while i < chars.len()
        invariant
            i <= chars.len(),
            chars@ == s@,
            words(s@) == out.deep_view() + words_from(s@, i as int),
        decreases chars.len() - i,
    {
        if char_is_whitespace(chars[i]) {
            i += 1;
        } else {
            let start = i;
            let mut j: usize = i + 1;
            while j < chars.len() && !char_is_whitespace(chars[j])
                invariant
                    start < j <= chars.len(),
                    chars@ == s@,
                    !is_whitespace(s@[start as int]),
                    word_end(s@, start as int) == word_end(s@, j as int),
                decreases chars.len() - j,
            {
                j += 1;
            }
            let word = string_from(&chars, start, j);
            proof {
                lemma_word_end(s@, start as int);
                assert(word_end(s@, start as int) == j);
                assert(out.deep_view().push(word@) + words_from(s@, j as int) =~= out.deep_view()
                    + words_from(s@, start as int));
            }
            let ghost before = out.deep_view();
            out.push(word);
            assert(out.deep_view() =~= before.push(word@));
            i = j;
        }
    }
    assert(words_from(s@, chars.len() as int) =~= Seq::<Seq<char>>::empty());
    assert(out.deep_view() + Seq::<Seq<char>>::empty() =~= out.deep_view());
    out
}

/// The words joined by single spaces.
pub open spec fn joined(ws: Seq<Seq<char>>) -> Seq<char>
    decreases ws.len(),
{
    if ws.len() == 0 {
        Seq::empty()
    } else if ws.len() == 1 {
        ws[0]
    } else {
        joined(ws.drop_last()) + seq![' '] + ws.last()
    }
}

/// Joins the words from position `from` on with single spaces. Where there
/// are no words from there on, the result is empty.
pub fn join_words(ws: &Vec<String>, from: usize) -> (s: String)
    ensures
        s@ == if from <= ws.len() {
            joined(ws.deep_view().skip(from as int))
        } else {
            Seq::empty()
        },
{
    let mut s = String::new();
    if from > ws.len() {
        return s;
    }
    let mut i: usize = from;
    let ghost all = ws.deep_view();
    assert(all.subrange(from as int, from as int) =~= Seq::<Seq<char>>::empty());
    while i < ws.len()
        invariant
            from <= i <= ws.len(),
            all == ws.deep_view(),
            s@ == joined(all.subrange(from as int, i as int)),
        decreases ws.len() - i,
    {
        let ghost before = all.subrange(from as int, i as int);
        let ghost after = all.subrange(from as int, i + 1);
        assert(after.drop_last() =~= before);
        assert(after.last() == ws[i as int]@);
        if i > from {
            push_char(&mut s, ' ');
            assert(s@ =~= joined(before) + seq![' ']);
        }
        s.append(ws[i].as_str());
        i += 1;
    }
    assert(all.subrange(from as int, ws.len() as int) =~= all.skip(from as int));
    s
}

/// Whether `w` can be a word: it is not empty and holds no whitespace.
pub open spec fn is_word(w: Seq<char>) -> bool {
    w.len() > 0 && forall|i: int| 0 <= i < w.len() ==> !is_whitespace(#[trigger] w[i])
}

/// Every word of a text is a word: none is empty and none holds whitespace.
pub proof fn lemma_words_are_words(s: Seq<char>, from: int)
    ensures
        forall|i: int|
            0 <= i < words_from(s, from).len() ==> is_word(#[trigger] words_from(s, from)[i]),
    decreases s.len() - from,
{
    if 0 <= from < s.len() {
        if is_whitespace(s[from]) {
            lemma_words_are_words(s, from + 1);
            assert(words_from(s, from) == words_from(s, from + 1));
        } else {
            lemma_word_end(s, from);
            let end = word_end(s, from);
            lemma_words_are_words(s, end);
            let first = s.subrange(from, end);
            assert forall|k: int| 0 <= k < first.len() implies !is_whitespace(
                #[trigger] first[k],
            ) by {
                assert(first[k] == s[from + k]);
            }
            assert(first.len() == end - from);
            assert(is_word(first));
            let all = words_from(s, from);
            assert(all == seq![first] + words_from(s, end));
            assert forall|i: int| 0 <= i < all.len() implies is_word(#[trigger] all[i]) by {
                if i > 0 {
                    assert(all[i] == words_from(s, end)[i - 1]);
                } else {
                    assert(all[0] == first);
                }
            }
        }
    } else {
        assert(words_from(s, from) =~= Seq::empty());
    }
}

/// Behind a prefix a word ends where it ends without the prefix.
proof fn lemma_word_end_shift(a: Seq<char>, t: Seq<char>, k: int)
    requires
        0 <= k,
    ensures
        word_end(a + t, a.len() + k) == a.len() + word_end(t, k),
    decreases t.len() - k,
{
    if k < t.len() {
        assert((a + t)[a.len() + k] == t[k]);
        if !is_whitespace(t[k]) {
            lemma_word_end_shift(a, t, k + 1);
        }
    }
}

/// Behind a prefix a text has the words that it has without the prefix.
proof fn lemma_words_shift(a: Seq<char>, t: Seq<char>, k: int)
    requires
        0 <= k,
    ensures
        words_from(a + t, a.len() + k) == words_from(t, k),
    decreases t.len() - k,
{
    if k < t.len() {
        assert((a + t)[a.len() + k] == t[k]);
        if is_whitespace(t[k]) {
            lemma_words_shift(a, t, k + 1);
        } else {
            lemma_word_end(t, k);
            lemma_word_end_shift(a, t, k);
            let end = word_end(t, k);
            lemma_words_shift(a, t, end);
            assert((a + t).subrange(a.len() + k, a.len() + end) =~= t.subrange(k, end));
        }
    }
}

/// A word that is followed by nothing, or by whitespace, is the first word
/// of the text, and the words of the rest follow it.
pub proof fn lemma_words_of_word_then(w: Seq<char>, t: Seq<char>)
    requires
        is_word(w),
        t.len() == 0 || is_whitespace(t[0]),
    ensures
        words(w + t) == seq![w] + words(t),
{
    let s = w + t;
    assert(word_end(s, 0) == w.len()) by {
        lemma_word_starts(w, t, 0);
    }
    assert(s[0] == w[0]);
    assert(s.subrange(0, w.len() as int) =~= w);
    lemma_words_shift(w, t, 0);
}

/// Inside a word that is followed by nothing, or by whitespace, the end of
/// the word is the end of `w`.
proof fn lemma_word_starts(w: Seq<char>, t: Seq<char>, j: int)
    requires
        is_word(w),
        t.len() == 0 || is_whitespace(t[0]),
        0 <= j <= w.len(),
    ensures
        word_end(w + t, j) == w.len(),
    decreases w.len() - j,
{
    if j < w.len() {
        assert((w + t)[j] == w[j]);
        lemma_word_starts(w, t, j + 1);
    } else if t.len() > 0 {
        assert((w + t)[j] == t[0]);
    }
}

/// Several words joined are the first word, a space, and the rest joined.
pub proof fn lemma_joined_front(ws: Seq<Seq<char>>)
    requires
        ws.len() >= 2,
    ensures
        joined(ws) == ws[0] + seq![' '] + joined(ws.drop_first()),
    decreases ws.len(),
{
    if ws.len() == 2 {
        assert(ws.drop_last().len() == 1 && ws.drop_first().len() == 1);
        assert(joined(ws.drop_last()) == ws[0]);
        assert(joined(ws.drop_first()) == ws[1]);
    } else {
        lemma_joined_front(ws.drop_last());
        assert(ws.drop_first().drop_last() =~= ws.drop_last().drop_first());
        assert(ws.drop_first().last() == ws.last());
        assert(joined(ws) =~= ws[0] + seq![' '] + joined(ws.drop_first()));
    }
}

/// Splitting undoes joining: words that were joined with single spaces are
/// found again, each as it was.
pub proof fn lemma_words_of_joined(ws: Seq<Seq<char>>)
    requires
        forall|i: int| 0 <= i < ws.len() ==> is_word(#[trigger] ws[i]),
    ensures
        words(joined(ws)) == ws,
    decreases ws.len(),
{
    if ws.len() == 0 {
    } else if ws.len() == 1 {
        lemma_words_of_word_then(ws[0], Seq::empty());
        assert(ws[0] + Seq::<char>::empty() =~= ws[0]);
        assert(seq![ws[0]] + words(Seq::<char>::empty()) =~= ws);
    } else {
        let rest = ws.drop_first();
        lemma_joined_front(ws);
        assert forall|i: int| 0 <= i < rest.len() implies is_word(#[trigger] rest[i]) by {
            assert(rest[i] == ws[i + 1]);
        }
        lemma_words_of_joined(rest);
        let tail = seq![' '] + joined(rest);
        assert(is_whitespace(' '));
        assert(tail[0] == ' ');
        lemma_words_of_word_then(ws[0], tail);
        assert(ws[0] + tail =~= joined(ws));
        assert(words(tail) == words_from(tail, 1));
        lemma_words_shift(seq![' '], joined(rest), 0);
        assert(seq![ws[0]] + rest =~= ws);
    }
}

/// `s` with each occurrence of `pat` replaced by `to`, read from the left;
/// occurrences do not overlap. With an empty `pat` nothing is replaced.
pub open spec fn replaced(s: Seq<char>, pat: Seq<char>, to: Seq<char>) -> Seq<char>
    decreases s.len(),
{
    if pat.len() == 0 || s.len() < pat.len() {
        s
    } else if s.take(pat.len() as int) == pat {
        to + replaced(s.skip(pat.len() as int), pat, to)
    } else {
        seq![s[0]] + replaced(s.drop_first(), pat, to)
    }
}

/// Whether `pat` stands in `chars` at position `at`.
fn matches_at(chars: &Vec<char>, at: usize, pat: &Vec<char>) -> (found: bool)
    requires
        at <= chars.len(),
    ensures
        found == (at + pat.len() <= chars.len() && chars@.subrange(
            at as int,
            at + pat.len(),
        ) == pat@),
{
    if pat.len() > chars.len() - at {
        return false;
    }
    let mut k: usize = 0;
    while k < pat.len()
        invariant
            k <= pat.len(),
            at + pat.len() <= chars.len(),
            forall|j: int| 0 <= j < k ==> chars@[at + j] == pat@[j],
        decreases pat.len() - k,
    {
        if chars[at + k] != pat[k] {
            assert(chars@.subrange(at as int, at + pat.len())[k as int] != pat@[k as int]);
            return false;
        }
        k += 1;
    }
    assert(chars@.subrange(at as int, at + pat.len()) =~= pat@);
    true
}

/// Replaces each occurrence of `pat` in `s` by `to`.
pub fn replace_all(s: &str, pat: &str, to: &str) -> (out: String)
    ensures
        out@ == replaced(s@, pat@, to@),
{
    let chars = chars_of(s);
    let pattern = chars_of(pat);
    let mut out = String::new();
    let mut i: usize = 0;
    assert(chars@.skip(0) =~= chars@);
    while i < chars.len()
        invariant
            i <= chars.len(),
            chars@ == s@,
            pattern@ == pat@,
            replaced(s@, pat@, to@) == out@ + replaced(chars@.skip(i as int), pat@, to@),
        decreases chars.len() - i,
    {
        let ghost rest = chars@.skip(i as int);
        if pattern.len() > 0 && matches_at(&chars, i, &pattern) {
            assert(rest.take(pattern.len() as int) =~= chars@.subrange(
                i as int,
                i + pattern.len(),
            ));
            assert(rest.skip(pattern.len() as int) =~= chars@.skip(i + pattern.len()));
            let ghost before = out@;
            out.append(to);
            assert(before + (to@ + replaced(rest.skip(pattern.len() as int), pat@, to@)) =~= (
            before + to@) + replaced(rest.skip(pattern.len() as int), pat@, to@));
            i += pattern.len();
        } else {
            let ghost before = out@;
            proof {
                if pat@.len() > 0 && rest.len() >= pat@.len() {
                    assert(rest.take(pat@.len() as int) =~= chars@.subrange(
                        i as int,
                        i + pat@.len(),
                    ));
                }
                assert(rest.drop_first() =~= chars@.skip(i + 1));
                if pat@.len() == 0 || rest.len() < pat@.len() {
                    lemma_replaced_short(rest, pat@, to@);
                    lemma_replaced_short(rest.drop_first(), pat@, to@);
                    assert(rest =~= seq![rest[0]] + rest.drop_first());
                }
            }
            push_char(&mut out, chars[i]);
            assert(before + (seq![rest[0]] + replaced(rest.drop_first(), pat@, to@)) =~= (
            before.push(rest[0])) + replaced(rest.drop_first(), pat@, to@));
            i += 1;
        }
    }
    assert(out@ + Seq::<char>::empty() =~= out@);
    out
}

/// A text shorter than the pattern, or any text under an empty pattern,
/// stays as it is.
pub proof fn lemma_replaced_short(s: Seq<char>, pat: Seq<char>, to: Seq<char>)
    requires
        pat.len() == 0 || s.len() < pat.len(),
    ensures
        replaced(s, pat, to) == s,
{
}

/// Whether `c` is one of the ten decimal digits.
pub open spec fn is_digit(c: char) -> bool {
    0x30 <= c as u32 <= 0x39
}

/// The value of a decimal digit.
pub open spec fn digit_value(c: char) -> nat {
    (c as u32 - 0x30) as nat
}

/// Whether every character of `s` is a decimal digit.
pub open spec fn all_digits(s: Seq<char>) -> bool {
    forall|i: int| 0 <= i < s.len() ==> is_digit(#[trigger] s[i])
}

/// The number that a run of decimal digits writes; 0 for the empty run.
pub open spec fn digits_value(s: Seq<char>) -> nat
    decreases s.len(),
{
    if s.len() == 0 {
        0
    } else {
        digits_value(s.drop_last()) * 10 + digit_value(s.last())
    }
}

/// The magnitude that `s` writes: `Some` where `s` is a nonempty run of
/// digits, whatever its size.
pub open spec fn magnitude(s: Seq<char>) -> Option<nat> {
    if s.len() > 0 && all_digits(s) {
        Some(digits_value(s))
    } else {
        None
    }
}

/// What `s` means as a signed decimal integer of 64 bits: an optional `+` or
/// `-`, then at least one digit and nothing else, with the value in range.
pub open spec fn parsed_i64(s: Seq<char>) -> Option<i64> {
    let signed = s.len() > 0 && (s[0] == '-' || s[0] == '+');
    let negative = s.len() > 0 && s[0] == '-';
    match magnitude(if signed { s.drop_first() } else { s }) {
        Some(m) => {
            let v = if negative { -(m as int) } else { m as int };
            if i64::MIN <= v <= i64::MAX {
                Some(v as i64)
            } else {
                None
            }
        },
        None => None,
    }
}

/// What `s` means as an unsigned decimal integer of 64 bits: an optional
/// `+`, then at least one digit and nothing else, with the value in range.
pub open spec fn parsed_u64(s: Seq<char>) -> Option<u64> {
    let signed = s.len() > 0 && s[0] == '+';
    match magnitude(if signed { s.drop_first() } else { s }) {
        Some(m) => if m <= u64::MAX {
            Some(m as u64)
        } else {
            None
        },
        None => None,
    }
}

/// A run of digits is worth at least as much as any of its prefixes.
pub proof fn lemma_digits_value_prefix(s: Seq<char>, n: int)
    requires
        0 <= n <= s.len(),
    ensures
        digits_value(s.take(n)) <= digits_value(s),
    decreases s.len(),
{
    if n == s.len() {
        assert(s.take(n) =~= s);
    } else {
        assert(s.drop_last().take(n) =~= s.take(n));
        lemma_digits_value_prefix(s.drop_last(), n);
    }
}

/// Reads the digits `chars[from..]`. `None` where they are no nonempty run
/// of digits or write more than `limit`.
fn parse_magnitude(chars: &Vec<char>, from: usize, limit: u64) -> (m: Option<u64>)
    requires
        from <= chars.len(),
    ensures
        m == match magnitude(chars@.skip(from as int)) {
            Some(v) => if v <= limit {
                Some(v as u64)
            } else {
                None
            },
            None => None,
        },
{
    let ghost body = chars@.skip(from as int);
    if from == chars.len() {
        return None;
    }
    let mut acc: u128 = 0;
    let mut i: usize = from;
    assert(body.take(0) =~= Seq::<char>::empty());
    while i < chars.len()
        invariant
            from <= i <= chars.len(),
            body == chars@.skip(from as int),
            all_digits(body.take(i - from)),
            acc == digits_value(body.take(i - from)),
            acc <= limit,
        decreases chars.len() - i,
    {
        let c = chars[i];
        let u: u32 = c as u32;
        let ghost next = body.take(i - from + 1);
        assert(next.drop_last() =~= body.take(i - from));
        assert(next.last() == c);
        if u < 0x30 || u > 0x39 {
            assert(!is_digit(body[i - from]));
            return None;
        }
        acc = acc * 10 + (u - 0x30) as u128;
        if acc > limit as u128 {
            proof {
                lemma_digits_value_prefix(body, i - from + 1);
                if all_digits(body) {
                } else {
                }
            }
            return None;
        }
        i += 1;
    }
    assert(body.take(chars.len() - from) =~= body);
    Some(acc as u64)
}

/// Reads a signed decimal integer as `i64::from_str` does.
pub fn parse_i64(s: &str) -> (v: Option<i64>)
    ensures
        v == parsed_i64(s@),
{
    let chars = chars_of(s);
    if chars.len() == 0 {
        return None;
    }
    let negative = chars[0] == '-';
    let signed = negative || chars[0] == '+';
    let from: usize = if signed { 1 } else { 0 };
    assert(chars@.skip(0) =~= chars@);
    assert(chars@.skip(1) =~= chars@.drop_first());
    match parse_magnitude(&chars, from, 0x8000_0000_0000_0000) {
        Some(m) => {
            if negative {
                if m == 0x8000_0000_0000_0000 {
                    Some(i64::MIN)
                } else {
                    Some(-(m as i64))
                }
            } else if m <= 0x7fff_ffff_ffff_ffff {
                Some(m as i64)
            } else {
                None
            }
        },
        None => None,
    }
}

/// Reads an unsigned decimal integer as `u64::from_str` does.
pub fn parse_u64(s: &str) -> (v: Option<u64>)
    ensures
        v == parsed_u64(s@),
{
    let chars = chars_of(s);
    if chars.len() == 0 {
        return None;
    }
    let from: usize = if chars[0] == '+' { 1 } else { 0 };
    assert(chars@.skip(0) =~= chars@);
    assert(chars@.skip(1) =~= chars@.drop_first());
    parse_magnitude(&chars, from, u64::MAX)
}

/// The character that writes the digit `d`.
pub open spec fn digit_char(d: nat) -> char
    recommends
        d < 10,
{
    (0x30 + d) as u8 as char
}

/// The decimal digits of `n`, most significant first, without leading zeros.
pub open spec fn decimal(n: nat) -> Seq<char>
    decreases n,
{
    if n < 10 {
        seq![digit_char(n)]
    } else {
        decimal(n / 10).push(digit_char(n % 10))
    }
}

/// The decimal form of an integer, with `-` before a negative one.
pub open spec fn signed_decimal(v: int) -> Seq<char> {
    if v < 0 {
        seq!['-'] + decimal((-v) as nat)
    } else {
        decimal(v as nat)
    }
}

/// The digits still to be written before those already taken from `m`.
spec fn leading(m: nat) -> Seq<char> {
    if m == 0 {
        Seq::empty()
    } else {
        decimal(m)
    }
}

/// Writes the digits behind what `out` holds.
fn push_decimal(out: &mut String, whole: u64)
    ensures
        final(out)@ == old(out)@ + decimal(whole as nat),
{
    let mut rev: Vec<char> = Vec::new();
    rev.push(((0x30 + whole % 10) as u8) as char);
    let mut m: u64 = whole / 10;
    assert(decimal(whole as nat) =~= leading(m as nat) + rev@.reverse());
    while m > 0
        invariant
            rev.len() > 0,
            decimal(whole as nat) == leading(m as nat) + rev@.reverse(),
        decreases m,
    {
        let ghost before = rev@;
        let c = ((0x30 + m % 10) as u8) as char;
        rev.push(c);
        assert(rev@.reverse() =~= seq![c] + before.reverse());
        assert(leading(m as nat) =~= leading((m / 10) as nat).push(c));
        assert(leading((m / 10) as nat).push(c) + before.reverse() =~= leading((m / 10) as nat)
            + (seq![c] + before.reverse()));
        m = m / 10;
    }
    assert(leading(0) + rev@.reverse() =~= rev@.reverse());
    let ghost start = out@;
    let mut k: usize = rev.len();
    while k > 0
        invariant
            k <= rev.len(),
            out@ == start + rev@.reverse().take(rev.len() - k),
        decreases k,
    {
        k -= 1;
        push_char(out, rev[k]);
        assert(out@ =~= start + rev@.reverse().take(rev.len() - k));
    }
    assert(rev@.reverse().take(rev.len() as int) =~= rev@.reverse());
}

/// Writes a natural number in decimal.
pub fn decimal_of(n: u64) -> (s: String)
    ensures
        s@ == decimal(n as nat),
{
    let mut s = String::new();
    push_decimal(&mut s, n);
    assert(Seq::<char>::empty() + decimal(n as nat) =~= decimal(n as nat));
    s
}

/// Writes an integer in decimal, as `i64`'s `Display` does.
pub fn decimal_string(v: i64) -> (s: String)
    ensures
        s@ == signed_decimal(v as int),
{
    let mut s = String::new();
    if v < 0 {
        let whole: u64 = if v == i64::MIN {
            0x8000_0000_0000_0000
        } else {
            (-v) as u64
        };
        push_char(&mut s, '-');
        assert(s@ =~= seq!['-']);
        push_decimal(&mut s, whole);
    } else {
        push_decimal(&mut s, v as u64);
        assert(Seq::<char>::empty() + decimal(v as nat) =~= decimal(v as nat));
    }
    s
}

/// `s` without the characters that equal `c`.
pub open spec fn without(s: Seq<char>, c: char) -> Seq<char> {
    s.filter(|x: char| x != c)
}

/// Takes every `c` out of `s`.
pub fn remove_char(s: &str, c: char) -> (out: String)
    ensures
        out@ == without(s@, c),
{
    let chars = chars_of(s);
    let mut out = String::new();
    let mut i: usize = 0;
    assert(chars@.take(0) =~= Seq::<char>::empty());
    while i < chars.len()
        invariant
            i <= chars.len(),
            chars@ == s@,
            out@ == without(chars@.take(i as int), c),
        decreases chars.len() - i,
    {
        let ghost part = chars@.take(i + 1);
        assert(part.drop_last() =~= chars@.take(i as int));
        proof {
            reveal(Seq::filter);
        }
        if chars[i] != c {
            push_char(&mut out, chars[i]);
        }
        i += 1;
    }
    assert(chars@.take(chars.len() as int) =~= chars@);
    out
}

} // verus!
