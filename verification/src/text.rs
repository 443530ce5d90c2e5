//! Text handling on sequences of characters: conversion between strings and
//! character vectors, splitting on a separator, trimming, and decimal
//! numerals.
//!
//! Every function states its result over `Seq<char>`, the view of a string.

use vstd::prelude::*;

verus! {

/// The characters of `s`, in order.
pub fn chars_of(s: &str) -> (res: Vec<char>)
    ensures
        res@ == s@,
{
    let mut out: Vec<char> = Vec::new();
    for c in it: s.chars()
        invariant
            out@ == it.seq().take(it.index()),
            it.seq() == s@,
    {
        out.push(c);
    }
    out
}

/// `String::push` of the standard library: appends one character to the end
/// of the string and leaves the characters before it as they were.
#[verifier::external_body]
fn push_char(s: &mut String, c: char)
    ensures
        final(s)@ == old(s)@.push(c),
{
    s.push(c)
}

/// The string made of `chars`, in order.
pub fn string_of(chars: &Vec<char>) -> (res: String)
    ensures
        res@ == chars@,
{
    let mut out = String::new();
    let mut i: usize = 0;
    while i < chars.len()
        invariant
            i <= chars.len(),
            out@ == chars@.take(i as int),
        decreases chars.len() - i,
    {
        push_char(&mut out, chars[i]);
        i += 1;
    }
    out
}

/// Whether two strings hold the same characters.
pub fn same_text(a: &str, b: &str) -> (res: bool)
    ensures
        res == (a@ == b@),
{
    let x = a.to_owned();
    let y = b.to_owned();
    x == y
}

/// Whether two character vectors hold the same characters.
pub fn same_chars(a: &Vec<char>, b: &Vec<char>) -> (res: bool)
    ensures
        res == (a@ == b@),
{
    if a.len() != b.len() {
        return false;
    }
    let mut i: usize = 0;
    while i < a.len()
        invariant
            i <= a.len(),
            a.len() == b.len(),
            forall|j: int| 0 <= j < i ==> a@[j] == b@[j],
        decreases a.len() - i,
    {
        if a[i] != b[i] {
            return false;
        }
        i += 1;
    }
    assert(a@ =~= b@);
    true
}

/// Whether the characters of `s` are those of the string `word`.
pub fn reads(s: &Vec<char>, word: &str) -> (res: bool)
    ensures
        res == (s@ == word@),
{
    let w = chars_of(word);
    same_chars(s, &w)
}

/// Appends the characters of `tail` to `s`.
pub fn append_chars(s: &mut Vec<char>, tail: &Vec<char>)
    ensures
        final(s)@ == old(s)@ + tail@,
{
    let mut i: usize = 0;
    while i < tail.len()
        invariant
            i <= tail.len(),
            s@ == old(s)@ + tail@.take(i as int),
        decreases tail.len() - i,
    {
        s.push(tail[i]);
        i += 1;
    }
}

// ---------------------------------------------------------------------------
// Decimal numerals
// ---------------------------------------------------------------------------

/// `c` is one of the ASCII digits `0` to `9`.
pub open spec fn is_digit(c: char) -> bool {
    48 <= c as u32 && c as u32 <= 57
}

/// The number a digit stands for.
pub open spec fn digit_value(c: char) -> nat {
    (c as u32 - 48) as nat
}

/// Every character of `s` is an ASCII digit.
pub open spec fn all_digits(s: Seq<char>) -> bool {
    forall|i: int| 0 <= i < s.len() ==> is_digit(#[trigger] s[i])
}

/// The number that a run of digits denotes in base ten; zero for the empty run.
pub open spec fn digits_value(s: Seq<char>) -> nat
    decreases s.len(),
{
    if s.len() == 0 {
        0
    } else {
        digits_value(s.drop_last()) * 10 + digit_value(s.last())
    }
}

/// The digits of a numeral once an optional leading `+` is taken off.
pub open spec fn unsigned_body(s: Seq<char>) -> Seq<char> {
    if s.len() > 0 && s[0] == '+' {
        s.skip(1)
    } else {
        s
    }
}

/// What a numeral denotes as a `u64`: an optional `+`, then one or more ASCII
/// digits whose value fits in 64 bits. Anything else denotes nothing.
pub open spec fn parse_u64_spec(s: Seq<char>) -> Option<u64> {
    let body = unsigned_body(s);
    if body.len() > 0 && all_digits(body) && digits_value(body) <= u64::MAX {
        Some(digits_value(body) as u64)
    } else {
        None
    }
}

/// A run of digits denotes at least as much as any of its prefixes.
pub proof fn lemma_digits_value_prefix(s: Seq<char>, k: int)
    requires
        0 <= k <= s.len(),
    ensures
        digits_value(s.take(k)) <= digits_value(s),
    decreases s.len(),
{
    if k == s.len() {
        assert(s.take(k) =~= s);
    } else {
        lemma_digits_value_prefix(s.drop_last(), k);
        assert(s.drop_last().take(k) =~= s.take(k));
    }
}

/// Reads a `u64` numeral.
pub fn parse_u64(s: &Vec<char>) -> (res: Option<u64>)
    ensures
        res == parse_u64_spec(s@),
{
    let n: usize = s.len();
    let mut start: usize = 0;
    if n > 0 && s[0] == '+' {
        start = 1;
    }
    let ghost body = unsigned_body(s@);
    assert(body =~= s@.skip(start as int));
    if start == n {
        return None;
    }
    let mut acc: u64 = 0;
    let mut i: usize = start;
    while i < n
        invariant
            start <= i <= n,
            n == s.len(),
            body == s@.skip(start as int),
            body == unsigned_body(s@),
            all_digits(body.take(i - start)),
            acc == digits_value(body.take(i - start)),
        decreases n - i,
    {
        let c: char = s[i];
        let code: u32 = c as u32;
        if code < 48 || code > 57 {
            assert(!is_digit(body[i - start]));
            return None;
        }
        let d: u64 = (code - 48) as u64;
        let ghost next = body.take(i - start + 1);
        assert(next.drop_last() =~= body.take(i - start));
        assert(next.last() == c);
        assert(digits_value(next) == acc * 10 + d);
        if acc > (u64::MAX - d) / 10 {
            proof {
                lemma_digits_value_prefix(body, i - start + 1);
                assert(digits_value(body) > u64::MAX);
            }
            return None;
        }
        acc = acc * 10 + d;
        i += 1;
    }
    assert(body.take(i - start) =~= body);
    Some(acc)
}

/// The character that writes the digit `d`.
pub open spec fn digit_char(d: nat) -> char
    recommends
        d < 10,
{
    ((48 + d) as u8) as char
}

/// The base-ten numeral of `n`, without sign or leading zeros.
pub open spec fn decimal_digits(n: nat) -> Seq<char>
    decreases n,
{
    if n < 10 {
        seq![digit_char(n)]
    } else {
        decimal_digits(n / 10).push(digit_char(n % 10))
    }
}

/// Writes `n` in base ten.
pub fn decimal(n: u64) -> (res: Vec<char>)
    ensures
        res@ == decimal_digits(n as nat),
    decreases n,
{
    if n < 10 {
        let c: char = ((48 + n) as u8) as char;
        let mut out: Vec<char> = Vec::new();
        out.push(c);
        assert(out@ =~= seq![digit_char(n as nat)]);
        out
    } else {
        let mut out = decimal(n / 10);
        let c: char = ((48 + n % 10) as u8) as char;
        out.push(c);
        out
    }
}

/// A numeral written by `decimal_digits` is made of digits only and denotes
/// the number it was written from.
pub proof fn lemma_decimal_digits_value(n: nat)
    ensures
        decimal_digits(n).len() > 0,
        all_digits(decimal_digits(n)),
        digits_value(decimal_digits(n)) == n,
    decreases n,
{
    if n < 10 {
        let s = decimal_digits(n);
        assert(s.len() == 1);
        assert(s.drop_last() =~= Seq::<char>::empty());
        assert(digits_value(s.drop_last()) == 0);
        assert(s.last() == digit_char(n));
    } else {
        lemma_decimal_digits_value(n / 10);
        let s = decimal_digits(n);
        assert(s.drop_last() =~= decimal_digits(n / 10));
        assert(s.last() == digit_char(n % 10));
        assert forall|i: int| 0 <= i < s.len() implies is_digit(#[trigger] s[i]) by {
            if i < s.len() - 1 {
                assert(s[i] == decimal_digits(n / 10)[i]);
            }
        }
    }
}

/// Reading what `decimal` wrote gives the number back.
pub proof fn lemma_parse_decimal(n: u64)
    ensures
        parse_u64_spec(decimal_digits(n as nat)) == Some(n),
{
    lemma_decimal_digits_value(n as nat);
    let s = decimal_digits(n as nat);
    assert(is_digit(s[0]));
}

// ---------------------------------------------------------------------------
// Splitting on a separator
// ---------------------------------------------------------------------------

/// The separator `sep` stands in `s` at index `i`.
pub open spec fn occurs_at(s: Seq<char>, sep: Seq<char>, i: int) -> bool {
    &&& 0 <= i
    &&& i + sep.len() <= s.len()
    &&& s.subrange(i, i + sep.len()) == sep
}

/// The fields of `s` from `start` on, cut at each occurrence of `sep` that is
/// met when reading left to right from `i`; an occurrence that overlaps an
/// earlier cut is no cut. No occurrence begins in `start..i`.
pub open spec fn fields_from(s: Seq<char>, sep: Seq<char>, start: int, i: int) -> Seq<Seq<char>>
    decreases s.len() - i,
{
    if i >= s.len() || sep.len() == 0 {
        seq![s.subrange(start, s.len() as int)]
    } else if occurs_at(s, sep, i) {
        seq![s.subrange(start, i)] + fields_from(s, sep, i + sep.len(), i + sep.len())
    } else {
        fields_from(s, sep, start, i + 1)
    }
}

/// The fields that `sep` parts `s` into, in order. A text without the
/// separator is one field; two separators in a row hold an empty field
/// between them. With an empty separator the whole text is the one field.
pub open spec fn split_spec(s: Seq<char>, sep: Seq<char>) -> Seq<Seq<char>> {
    fields_from(s, sep, 0, 0)
}

/// The fields put together again, with `sep` between each two.
pub open spec fn join_spec(fields: Seq<Seq<char>>, sep: Seq<char>) -> Seq<char>
    decreases fields.len(),
{
    if fields.len() == 0 {
        Seq::empty()
    } else if fields.len() == 1 {
        fields[0]
    } else {
        fields[0] + sep + join_spec(fields.skip(1), sep)
    }
}

/// Reading on from index `i` gives at least one field, and the fields put
/// together again are the text from `start` on.
pub proof fn lemma_fields_join(s: Seq<char>, sep: Seq<char>, start: int, i: int)
    requires
        0 <= start <= i <= s.len(),
    ensures
        fields_from(s, sep, start, i).len() >= 1,
        join_spec(fields_from(s, sep, start, i), sep) == s.subrange(start, s.len() as int),
    decreases s.len() - i,
{
    if i >= s.len() || sep.len() == 0 {
    } else if occurs_at(s, sep, i) {
        let next = i + sep.len();
        let rest = fields_from(s, sep, next, next);
        let fields = fields_from(s, sep, start, i);
        lemma_fields_join(s, sep, next, next);
        assert(fields.skip(1) =~= rest);
        assert(fields[0] == s.subrange(start, i));
        assert(s.subrange(start, i) + sep + s.subrange(next, s.len() as int) =~= s.subrange(
            start,
            s.len() as int,
        ));
    } else {
        lemma_fields_join(s, sep, start, i + 1);
    }
}

/// Splitting loses nothing: a text has at least one field, and its fields
/// put together again with the separator between them are the text.
pub proof fn lemma_split_join(s: Seq<char>, sep: Seq<char>)
    ensures
        split_spec(s, sep).len() >= 1,
        join_spec(split_spec(s, sep), sep) == s,
{
    lemma_fields_join(s, sep, 0, 0);
    assert(s.subrange(0, s.len() as int) =~= s);
}

/// The views of a vector of character vectors.
pub open spec fn views(fields: Seq<Vec<char>>) -> Seq<Seq<char>> {
    Seq::new(fields.len(), |i: int| fields[i]@)
}

/// Whether `sep` stands in `s` at index `i`.
pub fn has_at(s: &Vec<char>, sep: &Vec<char>, i: usize) -> (res: bool)
    ensures
        res == occurs_at(s@, sep@, i as int),
{
    let m: usize = sep.len();
    if i > s.len() || m > s.len() - i {
        return false;
    }
    let mut k: usize = 0;
    while k < m
        invariant
            k <= m,
            m == sep.len(),
            i + m <= s.len(),
            forall|j: int| 0 <= j < k ==> s@[i + j] == sep@[j],
        decreases m - k,
    {
        if s[i + k] != sep[k] {
            assert(s@.subrange(i as int, i + m)[k as int] == s@[i + k]);
            return false;
        }
        k += 1;
    }
    assert(s@.subrange(i as int, i + m) =~= sep@);
    true
}

/// Parts `s` into the fields between occurrences of `sep`.
pub fn split(s: &Vec<char>, sep: &Vec<char>) -> (res: Vec<Vec<char>>)
    ensures
        views(res@) == split_spec(s@, sep@),
        res.len() >= 1,
{
    let n: usize = s.len();
    let m: usize = sep.len();
    let mut out: Vec<Vec<char>> = Vec::new();
    if m == 0 {
        out.push(clone_chars(s));
        assert(s@.subrange(0, n as int) =~= s@);
        assert(views(out@) =~= seq![s@]);
        return out;
    }
    let mut field: Vec<char> = Vec::new();
    let mut i: usize = 0;
    let ghost mut start: int = 0;
    assert(views(out@) + fields_from(s@, sep@, 0, 0) =~= split_spec(s@, sep@));
    while i < n
        invariant
            n == s.len(),
            m == sep.len(),
            m > 0,
            0 <= start <= i <= n,
            field@ == s@.subrange(start, i as int),
            views(out@) + fields_from(s@, sep@, start, i as int) == split_spec(s@, sep@),
        decreases n - i,
    {
        if has_at(s, sep, i) {
            let ghost before = views(out@);
            out.push(field);
            field = Vec::new();
            proof {
                assert(views(out@) =~= before + seq![s@.subrange(start, i as int)]);
                assert(views(out@) + fields_from(s@, sep@, i + m, i + m) =~= before
                    + fields_from(s@, sep@, start, i as int));
                start = i + m;
            }
            i += m;
            assert(field@ =~= s@.subrange(start, i as int));
        } else {
            field.push(s[i]);
            i += 1;
            assert(field@ =~= s@.subrange(start, i as int));
        }
    }
    let ghost before = views(out@);
    out.push(field);
    assert(views(out@) =~= before + seq![s@.subrange(start, n as int)]);
    out
}

/// A copy of `s`.
pub fn clone_chars(s: &Vec<char>) -> (res: Vec<char>)
    ensures
        res@ == s@,
{
    let mut out: Vec<char> = Vec::new();
    append_chars(&mut out, s);
    assert(out@ =~= s@);
    out
}

// ---------------------------------------------------------------------------
// Stripping and trimming
// ---------------------------------------------------------------------------

/// The test that every character but `c` passes.
pub open spec fn other_than(c: char) -> spec_fn(char) -> bool {
    |x: char| x != c
}

/// `s` without the occurrences of the character `c`.
pub open spec fn without_char(s: Seq<char>, c: char) -> Seq<char> {
    s.filter(other_than(c))
}

/// Takes every occurrence of `c` out of `s`.
pub fn strip_char(s: &Vec<char>, c: char) -> (res: Vec<char>)
    ensures
        res@ == without_char(s@, c),
{
    let mut out: Vec<char> = Vec::new();
    let mut i: usize = 0;
    let ghost keep = other_than(c);
    assert(s@.take(0).filter(keep) =~= Seq::<char>::empty()) by {
        s@.take(0).lemma_filter_len(keep);
    }
    while i < s.len()
        invariant
            i <= s.len(),
            keep == other_than(c),
            out@ == s@.take(i as int).filter(keep),
        decreases s.len() - i,
    {
        proof {
            assert(s@.take(i + 1) =~= s@.take(i as int).push(s@[i as int]));
            s@.take(i as int).lemma_filter_push(s@[i as int], keep);
        }
        if s[i] != c {
            out.push(s[i]);
        }
        i += 1;
    }
    assert(s@.take(i as int) =~= s@);
    out
}

/// `c` is white space: a character with the Unicode property `White_Space`.
pub open spec fn is_space(c: char) -> bool {
    let u = c as u32;
    ||| 0x09 <= u <= 0x0D
    ||| u == 0x20
    ||| u == 0x85
    ||| u == 0xA0
    ||| u == 0x1680
    ||| 0x2000 <= u <= 0x200A
    ||| u == 0x2028
    ||| u == 0x2029
    ||| u == 0x202F
    ||| u == 0x205F
    ||| u == 0x3000
}

/// Whether `c` is white space.
pub fn space(c: char) -> (res: bool)
    ensures
        res == is_space(c),
{
    let u: u32 = c as u32;
    (0x09 <= u && u <= 0x0D) || u == 0x20 || u == 0x85 || u == 0xA0 || u == 0x1680 || (0x2000 <= u
        && u <= 0x200A) || u == 0x2028 || u == 0x2029 || u == 0x202F || u == 0x205F || u
        == 0x3000
}

/// `s` without the white space it begins with.
pub open spec fn trim_start_spec(s: Seq<char>) -> Seq<char>
    decreases s.len(),
{
    if s.len() > 0 && is_space(s[0]) {
        trim_start_spec(s.drop_first())
    } else {
        s
    }
}

/// `s` without the white space it ends with.
pub open spec fn trim_end_spec(s: Seq<char>) -> Seq<char>
    decreases s.len(),
{
    if s.len() > 0 && is_space(s.last()) {
        trim_end_spec(s.drop_last())
    } else {
        s
    }
}

/// `s` without the white space at either end.
pub open spec fn trim_spec(s: Seq<char>) -> Seq<char> {
    trim_end_spec(trim_start_spec(s))
}

/// Takes the white space off both ends of `s`.
pub fn trim(s: &Vec<char>) -> (res: Vec<char>)
    ensures
        res@ == trim_spec(s@),
{
    let n: usize = s.len();
    let mut a: usize = 0;
    assert(s@.skip(0) =~= s@);
    while a < n && space(s[a])
        invariant
            a <= n,
            n == s.len(),
            trim_start_spec(s@) == trim_start_spec(s@.skip(a as int)),
        decreases n - a,
    {
        assert(s@.skip(a as int).drop_first() =~= s@.skip(a + 1));
        a += 1;
    }
    assert(trim_start_spec(s@) == s@.skip(a as int)) by {
        if a < n {
            assert(s@.skip(a as int)[0] == s@[a as int]);
        }
    }
    let mut b: usize = n;
    let ghost rest = s@.skip(a as int);
    assert(rest =~= s@.subrange(a as int, b as int));
    while b > a && space(s[b - 1])
        invariant
            a <= b <= n,
            n == s.len(),
            trim_end_spec(rest) == trim_end_spec(s@.subrange(a as int, b as int)),
        decreases b,
    {
        assert(s@.subrange(a as int, b as int).drop_last() =~= s@.subrange(a as int, b - 1));
        b -= 1;
    }
    assert(trim_end_spec(rest) == s@.subrange(a as int, b as int)) by {
        if b > a {
            assert(s@.subrange(a as int, b as int).last() == s@[b - 1]);
        }
    }
    let mut out: Vec<char> = Vec::new();
    let mut i: usize = a;
    while i < b
        invariant
            a <= i <= b <= n,
            n == s.len(),
            out@ == s@.subrange(a as int, i as int),
        decreases b - i,
    {
        out.push(s[i]);
        i += 1;
        assert(out@ =~= s@.subrange(a as int, i as int));
    }
    out
}

// ---------------------------------------------------------------------------
// Decimal fractions
// ---------------------------------------------------------------------------

/// How many ASCII digits stand in a row in `s` from index `i` on.
pub open spec fn digit_run(s: Seq<char>, i: int) -> nat
    decreases s.len() - i,
{
    if 0 <= i < s.len() && is_digit(s[i]) {
        1 + digit_run(s, i + 1)
    } else {
        0
    }
}

/// `c` is a plus or a minus sign.
pub open spec fn is_sign(c: char) -> bool {
    c == '+' || c == '-'
}

/// An ASCII capital letter as its small letter; any other character as it is.
pub open spec fn lowered(c: char) -> char {
    if 65 <= c as u32 && c as u32 <= 90 {
        ((c as u32 + 32) as u8) as char
    } else {
        c
    }
}

/// `s` in small letters.
pub open spec fn lowered_text(s: Seq<char>) -> Seq<char> {
    Seq::new(s.len(), |i: int| lowered(s[i]))
}

/// `s` reads `inf`, `infinity` or `nan`, in capital or small letters.
pub open spec fn is_special_number(s: Seq<char>) -> bool {
    let t = lowered_text(s);
    ||| t == seq!['i', 'n', 'f']
    ||| t == seq!['i', 'n', 'f', 'i', 'n', 'i', 't', 'y']
    ||| t == seq!['n', 'a', 'n']
}

/// From index `m` to its end, `s` is an exponent: `e` or `E`, an optional
/// sign, and one or more digits.
pub open spec fn is_exponent(s: Seq<char>, m: int) -> bool {
    &&& 0 <= m < s.len()
    &&& (s[m] == 'e' || s[m] == 'E')
    &&& {
        let j = if m + 1 < s.len() && is_sign(s[m + 1]) {
            m + 2
        } else {
            m + 1
        };
        digit_run(s, j) >= 1 && j + digit_run(s, j) == s.len()
    }
}

/// `s` is an unsigned decimal number: digits, optionally a point and more
/// digits, with at least one digit on one side of the point, and optionally
/// an exponent.
pub open spec fn is_unsigned_number(s: Seq<char>) -> bool {
    let whole = digit_run(s, 0) as int;
    let pointed = whole < s.len() && s[whole] == '.';
    let fraction = if pointed {
        digit_run(s, whole + 1) as int
    } else {
        0
    };
    let end = if pointed {
        whole + 1 + fraction
    } else {
        whole
    };
    whole + fraction >= 1 && (end == s.len() || is_exponent(s, end))
}

/// `s` is a decimal number as a floating-point reader takes it: an optional
/// sign, then `inf`, `infinity`, `nan` or an unsigned decimal number.
pub open spec fn is_number(s: Seq<char>) -> bool {
    let body = if s.len() > 0 && is_sign(s[0]) {
        s.skip(1)
    } else {
        s
    };
    is_special_number(body) || is_unsigned_number(body)
}

/// Counts the digits that stand in a row from index `i` on.
pub fn count_digits(s: &Vec<char>, i: usize) -> (res: usize)
    ensures
        res == digit_run(s@, i as int),
        i <= s.len() ==> i + res <= s.len(),
{
    let mut k: usize = 0;
    if i >= s.len() {
        return 0;
    }
    while i + k < s.len() && 48 <= s[i + k] as u32 && s[i + k] as u32 <= 57
        invariant
            i + k <= s.len(),
            digit_run(s@, i as int) == k + digit_run(s@, i + k),
        decreases s.len() - k,
    {
        k += 1;
    }
    k
}

/// Whether `s` in small letters reads as `word`, itself in small letters.
fn reads_as(s: &Vec<char>, word: &Vec<char>) -> (res: bool)
    ensures
        res == (lowered_text(s@) == word@),
{
    if s.len() != word.len() {
        return false;
    }
    let mut i: usize = 0;
    while i < s.len()
        invariant
            i <= s.len(),
            s.len() == word.len(),
            forall|j: int| 0 <= j < i ==> lowered(s@[j]) == word@[j],
        decreases s.len() - i,
    {
        let c: char = s[i];
        let u: u32 = c as u32;
        let low: char = if 65 <= u && u <= 90 {
            ((u + 32) as u8) as char
        } else {
            c
        };
        if low != word[i] {
            assert(lowered_text(s@)[i as int] != word@[i as int]);
            return false;
        }
        i += 1;
    }
    assert(lowered_text(s@) =~= word@);
    true
}

/// Whether `s` reads `inf`, `infinity` or `nan`.
fn special_number(s: &Vec<char>) -> (res: bool)
    ensures
        res == is_special_number(s@),
{
    let inf: Vec<char> = vec!['i', 'n', 'f'];
    let infinity: Vec<char> = vec!['i', 'n', 'f', 'i', 'n', 'i', 't', 'y'];
    let nan: Vec<char> = vec!['n', 'a', 'n'];
    assert(inf@ =~= seq!['i', 'n', 'f']);
    assert(infinity@ =~= seq!['i', 'n', 'f', 'i', 'n', 'i', 't', 'y']);
    assert(nan@ =~= seq!['n', 'a', 'n']);
    reads_as(s, &inf) || reads_as(s, &infinity) || reads_as(s, &nan)
}

/// Whether `s` is an unsigned decimal number.
fn unsigned_number(s: &Vec<char>) -> (res: bool)
    ensures
        res == is_unsigned_number(s@),
{
    let n: usize = s.len();
    let whole: usize = count_digits(s, 0);
    let pointed: bool = whole < n && s[whole] == '.';
    let mut fraction: usize = 0;
    let mut end: usize = whole;
    if pointed {
        fraction = count_digits(s, whole + 1);
        end = whole + 1 + fraction;
    }
    if whole == 0 && fraction == 0 {
        return false;
    }
    if end == n {
        return true;
    }
    if s[end] != 'e' && s[end] != 'E' {
        return false;
    }
    let mut j: usize = end + 1;
    if j < n && (s[j] == '+' || s[j] == '-') {
        j += 1;
    }
    let digits: usize = count_digits(s, j);
    digits >= 1 && j + digits == n
}

/// Whether `s` is a decimal number as a floating-point reader takes it.
pub fn number(s: &Vec<char>) -> (res: bool)
    ensures
        res == is_number(s@),
{
    if s.len() > 0 && (s[0] == '+' || s[0] == '-') {
        let mut body: Vec<char> = Vec::new();
        let mut i: usize = 1;
        while i < s.len()
            invariant
                1 <= i <= s.len(),
                body@ == s@.subrange(1, i as int),
            decreases s.len() - i,
        {
            body.push(s[i]);
            i += 1;
            assert(body@ =~= s@.subrange(1, i as int));
        }
        assert(body@ =~= s@.skip(1));
        special_number(&body) || unsigned_number(&body)
    } else {
        special_number(s) || unsigned_number(s)
    }
}

} // verus!
