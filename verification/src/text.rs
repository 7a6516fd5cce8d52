//! Character-sequence model of strings and the text primitives used across
//! the crate (trimming, line splitting, searching, decimal formatting).
//!
//! Every string is specified through its view, a `Seq<char>`. The spec
//! functions here follow the documented behaviour of the corresponding
//! `str` methods, and the executable functions are proved against them.

use vstd::prelude::*;

verus! {

broadcast use vstd::string::group_string_axioms;

// ---------------------------------------------------------------------------
// Specifications
// ---------------------------------------------------------------------------

/// Unicode `White_Space` property, as used by `char::is_whitespace`.
pub open spec fn is_ws(c: char) -> bool {
    ||| ('\u{9}' <= c && c <= '\u{d}')
    ||| c == ' '
    ||| c == '\u{85}'
    ||| c == '\u{a0}'
    ||| c == '\u{1680}'
    ||| ('\u{2000}' <= c && c <= '\u{200a}')
    ||| c == '\u{2028}'
    ||| c == '\u{2029}'
    ||| c == '\u{202f}'
    ||| c == '\u{205f}'
    ||| c == '\u{3000}'
}

/// `s` with leading whitespace removed (`str::trim_start`).
pub open spec fn trim_start(s: Seq<char>) -> Seq<char>
    decreases s.len(),
{
    if s.len() > 0 && is_ws(s[0]) {
        trim_start(s.drop_first())
    } else {
        s
    }
}

/// `s` with trailing whitespace removed (`str::trim_end`).
pub open spec fn trim_end(s: Seq<char>) -> Seq<char>
    decreases s.len(),
{
    if s.len() > 0 && is_ws(s.last()) {
        trim_end(s.drop_last())
    } else {
        s
    }
}

/// `s` with leading and trailing whitespace removed (`str::trim`).
pub open spec fn trim(s: Seq<char>) -> Seq<char> {
    trim_end(trim_start(s))
}

/// Index of the first occurrence of `c` in `s`.
pub open spec fn find_char(s: Seq<char>, c: char) -> Option<int>
    decreases s.len(),
{
    if s.len() == 0 {
        None
    } else if s[0] == c {
        Some(0)
    } else {
        match find_char(s.drop_first(), c) {
            Some(i) => Some(i + 1),
            None => None,
        }
    }
}

/// `find_char` gives the first position holding `c`, or `None` when no
/// position does.
pub proof fn lemma_find_char(s: Seq<char>, c: char)
    ensures
        find_char(s, c) matches Some(i) ==> 0 <= i < s.len() && s[i] == c && forall|j: int|
            0 <= j < i ==> s[j] != c,
        find_char(s, c) is None ==> forall|j: int| 0 <= j < s.len() ==> s[j] != c,
    decreases s.len(),
{
    if s.len() > 0 && s[0] != c {
        lemma_find_char(s.drop_first(), c);
        assert forall|j: int| 0 < j < s.len() implies s[j] == s.drop_first()[j - 1] by {}
    }
}

/// Index of the last occurrence of `c` in `s`.
pub open spec fn rfind_char(s: Seq<char>, c: char) -> Option<int>
    decreases s.len(),
{
    if s.len() == 0 {
        None
    } else if s.last() == c {
        Some(s.len() - 1)
    } else {
        rfind_char(s.drop_last(), c)
    }
}

/// `str::split_once` with a character delimiter: the text before and after
/// the first occurrence of `c`.
pub open spec fn split_once(s: Seq<char>, c: char) -> Option<(Seq<char>, Seq<char>)> {
    match find_char(s, c) {
        Some(i) => Some((s.take(i), s.skip(i + 1))),
        None => None,
    }
}

/// `str::rsplit_once` with a character delimiter.
pub open spec fn rsplit_once(s: Seq<char>, c: char) -> Option<(Seq<char>, Seq<char>)> {
    match rfind_char(s, c) {
        Some(i) => Some((s.take(i), s.skip(i + 1))),
        None => None,
    }
}

/// `s` begins with `p`.
pub open spec fn starts_with(s: Seq<char>, p: Seq<char>) -> bool {
    p.len() <= s.len() && s.take(p.len() as int) == p
}

/// `s` ends with `p`.
pub open spec fn ends_with(s: Seq<char>, p: Seq<char>) -> bool {
    p.len() <= s.len() && s.skip(s.len() - p.len()) == p
}

/// `s` holds `p` at position `i`.
pub open spec fn occurs_at(s: Seq<char>, p: Seq<char>, i: int) -> bool {
    0 <= i && i + p.len() <= s.len() && s.subrange(i, i + p.len()) == p
}

/// `s` contains `p` as a contiguous substring (`str::contains`).
pub open spec fn contains_str(s: Seq<char>, p: Seq<char>) -> bool {
    exists|i: int| occurs_at(s, p, i)
}

/// The prefix of `s` before the first newline, with a trailing `'\r'`
/// removed when it precedes that newline.
pub open spec fn strip_cr(s: Seq<char>) -> Seq<char> {
    if s.len() > 0 && s.last() == '\r' {
        s.drop_last()
    } else {
        s
    }
}

/// `str::lines`: split at `"\n"` or `"\r\n"`; a final line ending is
/// optional and yields no empty last line.
pub open spec fn lines(s: Seq<char>) -> Seq<Seq<char>>
    decreases s.len(),
{
    if s.len() == 0 {
        Seq::empty()
    } else {
        match find_char(s, '\n') {
            Some(i) => {
                proof {
                    lemma_find_char(s, '\n');
                }
                seq![strip_cr(s.take(i))] + lines(s.skip(i + 1))
            },
            None => seq![s],
        }
    }
}

/// `str::split` on a character: every field between delimiters, empty
/// fields included; never empty.
pub open spec fn split_char(s: Seq<char>, c: char) -> Seq<Seq<char>>
    decreases s.len(),
{
    match find_char(s, c) {
        Some(i) => {
            proof {
                lemma_find_char(s, c);
            }
            seq![s.take(i)] + split_char(s.skip(i + 1), c)
        },
        None => seq![s],
    }
}

/// Length of the longest whitespace-free prefix of `s`.
pub open spec fn word_len(s: Seq<char>) -> nat
    decreases s.len(),
{
    if s.len() == 0 || is_ws(s[0]) {
        0
    } else {
        1 + word_len(s.drop_first())
    }
}

/// `str::split_whitespace`: the maximal whitespace-free runs of `s`.
pub open spec fn split_ws(s: Seq<char>) -> Seq<Seq<char>>
    decreases s.len(),
{
    if s.len() == 0 {
        Seq::empty()
    } else if is_ws(s[0]) {
        split_ws(s.drop_first())
    } else {
        let n = word_len(s);
        if 0 < n <= s.len() {
            seq![s.take(n as int)] + split_ws(s.skip(n as int))
        } else {
            seq![s]
        }
    }
}

/// `parts` joined with `sep` between consecutive parts (`[T]::join`).
pub open spec fn join(parts: Seq<Seq<char>>, sep: Seq<char>) -> Seq<char>
    decreases parts.len(),
{
    if parts.len() == 0 {
        Seq::empty()
    } else if parts.len() == 1 {
        parts[0]
    } else {
        join(parts.drop_last(), sep) + sep + parts.last()
    }
}

/// `str::replace` with a character pattern: every `c` becomes `rep`.
pub open spec fn replace_char(s: Seq<char>, c: char, rep: Seq<char>) -> Seq<char>
    decreases s.len(),
{
    if s.len() == 0 {
        Seq::empty()
    } else if s[0] == c {
        rep + replace_char(s.drop_first(), c, rep)
    } else {
        seq![s[0]] + replace_char(s.drop_first(), c, rep)
    }
}

/// `str::replace` with a non-empty string pattern: matches are taken from
/// left to right without overlap.
pub open spec fn replace_str(s: Seq<char>, pat: Seq<char>, rep: Seq<char>) -> Seq<char>
    decreases s.len(),
{
    if s.len() == 0 || pat.len() == 0 {
        s
    } else if starts_with(s, pat) {
        rep + replace_str(s.skip(pat.len() as int), pat, rep)
    } else {
        seq![s[0]] + replace_str(s.drop_first(), pat, rep)
    }
}

/// ASCII lower-casing of one character (`char::to_ascii_lowercase`).
pub open spec fn ascii_lower(c: char) -> char {
    if 'A' <= c && c <= 'Z' {
        ((c as u32) + 32) as char
    } else {
        c
    }
}

/// `str::eq_ignore_ascii_case`.
pub open spec fn eq_ignore_ascii_case(a: Seq<char>, b: Seq<char>) -> bool {
    a.len() == b.len() && forall|i: int| 0 <= i < a.len() ==> ascii_lower(a[i]) == ascii_lower(b[i])
}

/// ASCII letters and digits (`char::is_ascii_alphanumeric`).
pub open spec fn is_ascii_alnum(c: char) -> bool {
    ('0' <= c && c <= '9') || ('a' <= c && c <= 'z') || ('A' <= c && c <= 'Z')
}

/// The decimal digit character for `d < 10`.
pub open spec fn digit_char(d: int) -> char {
    if d == 0 {
        '0'
    } else if d == 1 {
        '1'
    } else if d == 2 {
        '2'
    } else if d == 3 {
        '3'
    } else if d == 4 {
        '4'
    } else if d == 5 {
        '5'
    } else if d == 6 {
        '6'
    } else if d == 7 {
        '7'
    } else if d == 8 {
        '8'
    } else {
        '9'
    }
}

/// The value of a decimal digit character.
pub open spec fn digit_value(c: char) -> int {
    if c == '1' {
        1
    } else if c == '2' {
        2
    } else if c == '3' {
        3
    } else if c == '4' {
        4
    } else if c == '5' {
        5
    } else if c == '6' {
        6
    } else if c == '7' {
        7
    } else if c == '8' {
        8
    } else if c == '9' {
        9
    } else {
        0
    }
}

/// Decimal representation of a natural number, without leading zeros.
pub open spec fn nat_decimal(n: nat) -> Seq<char>
    decreases n,
{
    if n < 10 {
        seq![digit_char(n as int)]
    } else {
        nat_decimal(n / 10).push(digit_char((n % 10) as int))
    }
}

/// Decimal representation of an integer, as `Display` writes it.
pub open spec fn int_decimal(n: int) -> Seq<char> {
    if n < 0 {
        seq!['-'] + nat_decimal((-n) as nat)
    } else {
        nat_decimal(n as nat)
    }
}

/// The character is an ASCII decimal digit.
pub open spec fn is_digit(c: char) -> bool {
    '0' <= c && c <= '9'
}

/// Value of a string of decimal digits.
pub open spec fn digits_value(s: Seq<char>) -> int
    decreases s.len(),
{
    if s.len() == 0 {
        0
    } else {
        digits_value(s.drop_last()) * 10 + digit_value(s.last())
    }
}

/// A non-empty string of decimal digits.
pub open spec fn all_digits(s: Seq<char>) -> bool {
    s.len() > 0 && forall|i: int| 0 <= i < s.len() ==> is_digit(#[trigger] s[i])
}

/// `s` without a leading sign character (`'-'` is accepted only when `signed`).
pub open spec fn unsigned_part(s: Seq<char>, signed: bool) -> Seq<char> {
    if s.len() > 0 && (s[0] == '+' || (signed && s[0] == '-')) {
        s.drop_first()
    } else {
        s
    }
}

/// The value that `FromStr` for a signed integer type reads from `s`:
/// an optional sign followed by at least one decimal digit, and nothing else.
pub open spec fn parse_signed(s: Seq<char>) -> Option<int> {
    let body = unsigned_part(s, true);
    if all_digits(body) {
        Some(if s.len() > 0 && s[0] == '-' { -digits_value(body) } else { digits_value(body) })
    } else {
        None
    }
}

/// The value that `FromStr` for an unsigned integer type reads from `s`:
/// an optional `'+'` followed by at least one decimal digit, and nothing else.
pub open spec fn parse_unsigned(s: Seq<char>) -> Option<int> {
    let body = unsigned_part(s, false);
    if all_digits(body) {
        Some(digits_value(body))
    } else {
        None
    }
}

/// The decimal text of a natural number is all digits and reads back as
/// that number.
pub proof fn lemma_nat_decimal_digits(n: nat)
    ensures
        all_digits(nat_decimal(n)),
        digits_value(nat_decimal(n)) == n,
    decreases n,
{
    let r = (n % 10) as int;
    assert(digit_value(digit_char(r)) == r);
    assert(is_digit(digit_char(r)));
    if n < 10 {
        let s = seq![digit_char(n as int)];
        assert(s.drop_last() =~= Seq::<char>::empty());
        assert(digits_value(Seq::<char>::empty()) == 0);
        assert(digits_value(s) == digits_value(s.drop_last()) * 10 + digit_value(s.last()));
    } else {
        lemma_nat_decimal_digits(n / 10);
        let d = nat_decimal(n / 10);
        let s = d.push(digit_char((n % 10) as int));
        assert(s.drop_last() =~= d);
        assert(digits_value(s) == digits_value(d) * 10 + r);
        assert((n / 10) * 10 + n % 10 == n);
        assert forall|i: int| 0 <= i < s.len() implies is_digit(#[trigger] s[i]) by {
            if i < d.len() {
                assert(s[i] == d[i]);
            }
        }
    }
}

/// Decimal text reads back as the number it was written from: what
/// `Display` writes for an integer, `FromStr` parses to the same integer.
pub proof fn law_decimal_roundtrip(n: int)
    ensures
        parse_signed(int_decimal(n)) == Some(n),
{
    if n < 0 {
        let m = (-n) as nat;
        lemma_nat_decimal_digits(m);
        let s = seq!['-'] + nat_decimal(m);
        assert(s.drop_first() =~= nat_decimal(m));
    } else {
        lemma_nat_decimal_digits(n as nat);
        assert(is_digit(nat_decimal(n as nat)[0]));
    }
}

// ---------------------------------------------------------------------------
// Conversions between `str`/`String` and character vectors
// ---------------------------------------------------------------------------

/// Append one character to a `String` (std `String::push`).
#[verifier::external_body]
pub(crate) fn push_char(s: &mut String, c: char)
    ensures
        final(s)@ == old(s)@.push(c),
{
    s.push(c);
}

/// The characters of a string slice, in order.
pub fn chars_of(s: &str) -> (v: Vec<char>)
    ensures
        v@ == s@,
{
    let mut v: Vec<char> = Vec::new();
    for c in it: s.chars()
        invariant
            v@ == it.seq().take(it.index() as int),
            it.seq() == s@,
    {
        v.push(c);
    }
    v
}

/// A `String` holding exactly the given characters.
pub fn string_from(v: &[char]) -> (s: String)
    ensures
        s@ == v@,
{
    let mut s = String::new();
    let mut i: usize = 0;
    while i < v.len()
        invariant
            i <= v.len(),
            s@ == v@.take(i as int),
        decreases v.len() - i,
    {
        push_char(&mut s, v[i]);
        i = i + 1;
        assert(v@.take(i as int) == v@.take((i - 1) as int).push(v@[i - 1]));
    }
    assert(v@.take(v.len() as int) == v@);
    s
}

/// Copy of `v[lo..hi]`.
pub fn slice_chars(v: &[char], lo: usize, hi: usize) -> (r: Vec<char>)
    requires
        lo <= hi <= v.len(),
    ensures
        r@ == v@.subrange(lo as int, hi as int),
{
    let mut r: Vec<char> = Vec::new();
    let mut i: usize = lo;
    while i < hi
        invariant
            lo <= i <= hi <= v.len(),
            r@ == v@.subrange(lo as int, i as int),
        decreases hi - i,
    {
        r.push(v[i]);
        i = i + 1;
        assert(v@.subrange(lo as int, i as int) == v@.subrange(lo as int, (i - 1) as int).push(
            v@[i - 1],
        ));
    }
    r
}

/// `String` copy of `v[lo..hi]`.
pub fn sub_string(v: &[char], lo: usize, hi: usize) -> (r: String)
    requires
        lo <= hi <= v.len(),
    ensures
        r@ == v@.subrange(lo as int, hi as int),
{
    let c = slice_chars(v, lo, hi);
    string_from(c.as_slice())
}

/// Append the characters of `v` to `s`.
pub fn push_chars(s: &mut String, v: &[char])
    ensures
        final(s)@ == old(s)@ + v@,
{
    let mut i: usize = 0;
    while i < v.len()
        invariant
            i <= v.len(),
            s@ == old(s)@ + v@.take(i as int),
        decreases v.len() - i,
    {
        push_char(s, v[i]);
        i = i + 1;
        assert(v@.take(i as int) == v@.take((i - 1) as int).push(v@[i - 1]));
    }
    assert(v@.take(v.len() as int) == v@);
}

/// Append a string slice to `s`.
pub fn push_str(s: &mut String, t: &str)
    ensures
        final(s)@ == old(s)@ + t@,
{
    let v = chars_of(t);
    push_chars(s, v.as_slice());
}

/// The concatenation of two string slices.
pub fn concat2(a: &str, b: &str) -> (r: String)
    ensures
        r@ == a@ + b@,
{
    let mut r = String::new();
    push_str(&mut r, a);
    push_str(&mut r, b);
    assert(r@ == a@ + b@);
    r
}

/// An owned copy of a string slice.
pub fn owned(a: &str) -> (r: String)
    ensures
        r@ == a@,
{
    let mut r = String::new();
    push_str(&mut r, a);
    r
}

/// Two strings hold the same characters.
pub fn str_eq(a: &str, b: &str) -> (r: bool)
    ensures
        r == (a@ == b@),
{
    let x = chars_of(a);
    let y = chars_of(b);
    seq_eq(x.as_slice(), y.as_slice())
}

/// Two character slices are equal.
pub fn seq_eq(x: &[char], y: &[char]) -> (r: bool)
    ensures
        r == (x@ == y@),
{
    if x.len() != y.len() {
        return false;
    }
    let mut i: usize = 0;
    while i < x.len()
        invariant
            x.len() == y.len(),
            i <= x.len(),
            forall|j: int| 0 <= j < i ==> x@[j] == y@[j],
        decreases x.len() - i,
    {
        if x[i] != y[i] {
            return false;
        }
        i = i + 1;
    }
    assert(x@ =~= y@);
    true
}


// ---------------------------------------------------------------------------
// Sequences of strings
// ---------------------------------------------------------------------------

/// Views of a sequence of character vectors.
pub open spec fn vviews(v: Seq<Vec<char>>) -> Seq<Seq<char>> {
    v.map_values(|x: Vec<char>| x@)
}

/// Views of a sequence of strings.
pub open spec fn sviews(v: Seq<String>) -> Seq<Seq<char>> {
    v.map_values(|x: String| x@)
}

/// Views of a sequence of string slices.
pub open spec fn strviews(v: Seq<&str>) -> Seq<Seq<char>> {
    v.map_values(|x: &str| x@)
}

/// Owned copies of string slices.
pub fn to_strings(v: &[&str]) -> (r: Vec<String>)
    ensures
        sviews(r@) == strviews(v@),
{
    let mut r: Vec<String> = Vec::new();
    let mut i: usize = 0;
    while i < v.len()
        invariant
            i <= v.len(),
            r.len() == i,
            forall|j: int| 0 <= j < i ==> #[trigger] r@[j]@ == v@[j]@,
        decreases v.len() - i,
    {
        r.push(owned(v[i]));
        i = i + 1;
    }
    assert(sviews(r@) =~= strviews(v@));
    r
}

/// A copy of a list of strings.
pub fn copy_strings_of(v: &Vec<String>) -> (r: Vec<String>)
    ensures
        r@ == v@,
{
    take_strings(v, v.len())
}

/// The first `n` strings of `v`, copied.
pub fn take_strings(v: &Vec<String>, n: usize) -> (r: Vec<String>)
    requires
        n <= v.len(),
    ensures
        r@ == v@.take(n as int),
{
    let mut r: Vec<String> = Vec::new();
    let mut i: usize = 0;
    while i < n
        invariant
            i <= n <= v.len(),
            r@ == v@.take(i as int),
        decreases n - i,
    {
        r.push(v[i].clone());
        i = i + 1;
        assert(r@ =~= v@.take(i as int));
    }
    r
}

/// Strings built from character vectors.
pub fn strings_from(v: &Vec<Vec<char>>) -> (r: Vec<String>)
    ensures
        sviews(r@) == vviews(v@),
{
    let mut r: Vec<String> = Vec::new();
    let mut i: usize = 0;
    while i < v.len()
        invariant
            i <= v.len(),
            r.len() == i,
            forall|j: int| 0 <= j < i ==> #[trigger] r@[j]@ == v@[j]@,
        decreases v.len() - i,
    {
        r.push(string_from(v[i].as_slice()));
        i = i + 1;
    }
    assert(sviews(r@) =~= vviews(v@));
    r
}

// ---------------------------------------------------------------------------
// Searching
// ---------------------------------------------------------------------------

/// Position of the first `c` in `v[start..]`, counted from the start of `v`.
pub fn find_from(v: &[char], c: char, start: usize) -> (r: Option<usize>)
    requires
        start <= v.len(),
    ensures
        match find_char(v@.skip(start as int), c) {
            Some(k) => r matches Some(x) && x == k + start,
            None => r is None,
        },
        r matches Some(j) ==> start <= j < v.len() && v@[j as int] == c && forall|k: int|
            start <= k < j ==> v@[k] != c,
{
    let ghost t = v@.skip(start as int);
    proof {
        lemma_find_char(t, c);
    }
    let mut i: usize = start;
    while i < v.len()
        invariant
            start <= i <= v.len(),
            t == v@.skip(start as int),
            forall|j: int| start <= j < i ==> v@[j] != c,
        decreases v.len() - i,
    {
        if v[i] == c {
            proof {
                lemma_find_char(t, c);
                assert(t[i - start] == c);
                if let Some(k) = find_char(t, c) {
                    if k < i - start {
                        assert(t[k] == v@[k + start]);
                    }
                }
            }
            return Some(i);
        }
        i = i + 1;
    }
    proof {
        lemma_find_char(t, c);
        assert forall|j: int| 0 <= j < t.len() implies t[j] != c by {
            assert(t[j] == v@[j + start]);
        }
    }
    None
}

/// Position of the first `c` in `v`.
pub fn find(v: &[char], c: char) -> (r: Option<usize>)
    ensures
        match find_char(v@, c) {
            Some(k) => r matches Some(x) && x == k,
            None => r is None,
        },
{
    assert(v@.skip(0) == v@);
    find_from(v, c, 0)
}

/// `rfind_char` gives the last position holding `c`, or `None` when no
/// position does.
pub proof fn lemma_rfind_char(s: Seq<char>, c: char)
    ensures
        rfind_char(s, c) matches Some(i) ==> 0 <= i < s.len() && s[i] == c && forall|j: int|
            i < j < s.len() ==> s[j] != c,
        rfind_char(s, c) is None ==> forall|j: int| 0 <= j < s.len() ==> s[j] != c,
    decreases s.len(),
{
    if s.len() > 0 && s.last() != c {
        lemma_rfind_char(s.drop_last(), c);
        assert forall|j: int| 0 <= j < s.len() - 1 implies s[j] == s.drop_last()[j] by {}
    }
}

/// Position of the last `c` in `v`.
pub fn rfind(v: &[char], c: char) -> (r: Option<usize>)
    ensures
        match rfind_char(v@, c) {
            Some(k) => r matches Some(x) && x == k,
            None => r is None,
        },
{
    proof {
        lemma_rfind_char(v@, c);
    }
    let mut i: usize = v.len();
    while i > 0
        invariant
            i <= v.len(),
            forall|j: int| i <= j < v.len() ==> v@[j] != c,
        decreases i,
    {
        if v[i - 1] == c {
            proof {
                lemma_rfind_char(v@, c);
                if let Some(k) = rfind_char(v@, c) {
                    if k > i - 1 {
                        assert(v@[k] == c);
                    }
                }
            }
            return Some(i - 1);
        }
        i = i - 1;
    }
    proof {
        lemma_rfind_char(v@, c);
    }
    None
}

/// `p` occurs in `v` at position `i`.
pub fn occurs_at_exec(v: &[char], p: &[char], i: usize) -> (r: bool)
    ensures
        r == occurs_at(v@, p@, i as int),
{
    if i > v.len() || p.len() > v.len() - i {
        return false;
    }
    let mut k: usize = 0;
    while k < p.len()
        invariant
            i + p.len() <= v.len(),
            k <= p.len(),
            forall|j: int| 0 <= j < k ==> v@[i + j] == p@[j],
        decreases p.len() - k,
    {
        if v[i + k] != p[k] {
            assert(v@.subrange(i as int, i + p.len())[k as int] != p@[k as int]);
            return false;
        }
        k = k + 1;
    }
    assert(v@.subrange(i as int, i + p.len()) =~= p@);
    true
}

/// The first position at or after `k` where `p` occurs in `s`.
pub open spec fn find_str_from(s: Seq<char>, p: Seq<char>, k: int) -> Option<int>
    decreases s.len() + 1 - k,
{
    if k < 0 || k + p.len() > s.len() {
        None
    } else if occurs_at(s, p, k) {
        Some(k)
    } else {
        find_str_from(s, p, k + 1)
    }
}

/// `str::find` with a string pattern: the first position where `p` occurs.
pub open spec fn find_str(s: Seq<char>, p: Seq<char>) -> Option<int> {
    find_str_from(s, p, 0)
}

/// The first position where `p` occurs in `v`.
pub fn find_str_exec(v: &[char], p: &[char]) -> (r: Option<usize>)
    ensures
        match find_str(v@, p@) {
            Some(i) => r matches Some(k) && k == i,
            None => r is None,
        },
{
    if p.len() > v.len() {
        return None;
    }
    if p.len() == 0 {
        assert(occurs_at(v@, p@, 0)) by {
            assert(v@.subrange(0, 0) =~= p@);
        }
        return Some(0);
    }
    let lim = v.len() - p.len();
    let mut k: usize = 0;
    while k <= lim
        invariant
            p.len() <= v.len(),
            p.len() > 0,
            lim == v.len() - p.len(),
            k <= lim + 1,
            find_str(v@, p@) == find_str_from(v@, p@, k as int),
        decreases lim + 1 - k,
    {
        if occurs_at_exec(v, p, k) {
            return Some(k);
        }
        k = k + 1;
    }
    None
}

/// `v` begins with `p`.
pub fn starts_with_exec(v: &[char], p: &[char]) -> (r: bool)
    ensures
        r == starts_with(v@, p@),
{
    let r = occurs_at_exec(v, p, 0);
    assert(v@.subrange(0, p@.len() as int) =~= v@.take(p@.len() as int));
    r
}

/// `v` contains `p`.
pub fn contains_exec(v: &[char], p: &[char]) -> (r: bool)
    ensures
        r == contains_str(v@, p@),
{
    if p.len() == 0 {
        assert(v@.subrange(0, 0) =~= p@);
        assert(occurs_at(v@, p@, 0));
        return true;
    }
    let mut i: usize = 0;
    while i < v.len()
        invariant
            i <= v.len(),
            p.len() > 0,
            forall|j: int| 0 <= j < i ==> !occurs_at(v@, p@, j),
        decreases v.len() - i,
    {
        if occurs_at_exec(v, p, i) {
            return true;
        }
        i = i + 1;
    }
    assert forall|j: int| !occurs_at(v@, p@, j) by {
        if 0 <= j && j < i {
        }
    }
    false
}

/// `v` holds the character `c`.
pub fn has_char(v: &[char], c: char) -> (r: bool)
    ensures
        r == v@.contains(c),
{
    let f = find(v, c);
    proof {
        lemma_find_char(v@, c);
    }
    f.is_some()
}

// ---------------------------------------------------------------------------
// Trimming
// ---------------------------------------------------------------------------

/// Number of leading whitespace characters of `v[lo..hi]`, as an index.
fn skip_ws_forward(v: &[char], lo: usize, hi: usize) -> (r: usize)
    requires
        lo <= hi <= v.len(),
    ensures
        lo <= r <= hi,
        trim_start(v@.subrange(lo as int, hi as int)) == v@.subrange(r as int, hi as int),
{
    let mut i = lo;
    while i < hi && is_ws_exec(v[i])
        invariant
            lo <= i <= hi <= v.len(),
            trim_start(v@.subrange(lo as int, hi as int)) == trim_start(
                v@.subrange(i as int, hi as int),
            ),
        decreases hi - i,
    {
        assert(v@.subrange(i as int, hi as int).drop_first() =~= v@.subrange(i + 1, hi as int));
        i = i + 1;
    }
    i
}

/// Index past the last non-whitespace character of `v[lo..hi]`.
fn skip_ws_backward(v: &[char], lo: usize, hi: usize) -> (r: usize)
    requires
        lo <= hi <= v.len(),
    ensures
        lo <= r <= hi,
        trim_end(v@.subrange(lo as int, hi as int)) == v@.subrange(lo as int, r as int),
{
    let mut j = hi;
    while j > lo && is_ws_exec(v[j - 1])
        invariant
            lo <= j <= hi <= v.len(),
            trim_end(v@.subrange(lo as int, hi as int)) == trim_end(
                v@.subrange(lo as int, j as int),
            ),
        decreases j - lo,
    {
        assert(v@.subrange(lo as int, j as int).drop_last() =~= v@.subrange(lo as int, j - 1));
        j = j - 1;
    }
    j
}

/// Bounds of `trim(v[lo..hi])` inside `v`.
pub fn trim_bounds(v: &[char], lo: usize, hi: usize) -> (r: (usize, usize))
    requires
        lo <= hi <= v.len(),
    ensures
        lo <= r.0 <= r.1 <= hi,
        trim(v@.subrange(lo as int, hi as int)) == v@.subrange(r.0 as int, r.1 as int),
{
    let a = skip_ws_forward(v, lo, hi);
    let b = skip_ws_backward(v, a, hi);
    (a, b)
}

/// The whitespace test of `char::is_whitespace`.
pub fn is_ws_exec(c: char) -> (r: bool)
    ensures
        r == is_ws(c),
{
    ('\u{9}' <= c && c <= '\u{d}') || c == ' ' || c == '\u{85}' || c == '\u{a0}' || c == '\u{1680}'
        || ('\u{2000}' <= c && c <= '\u{200a}') || c == '\u{2028}' || c == '\u{2029}' || c
        == '\u{202f}' || c == '\u{205f}' || c == '\u{3000}'
}

/// `str::trim` on characters.
pub fn trim_chars(v: &[char]) -> (r: Vec<char>)
    ensures
        r@ == trim(v@),
{
    let (a, b) = trim_bounds(v, 0, v.len());
    assert(v@.subrange(0, v@.len() as int) == v@);
    slice_chars(v, a, b)
}

/// `str::trim` producing an owned `String`.
pub fn trim_str(s: &str) -> (r: String)
    ensures
        r@ == trim(s@),
{
    let v = chars_of(s);
    let t = trim_chars(v.as_slice());
    string_from(t.as_slice())
}


// ---------------------------------------------------------------------------
// Splitting
// ---------------------------------------------------------------------------

/// `str::lines` on characters.
pub fn lines_of(v: &[char]) -> (r: Vec<Vec<char>>)
    ensures
        vviews(r@) == lines(v@),
{
    let mut r: Vec<Vec<char>> = Vec::new();
    let mut i: usize = 0;
    assert(v@.skip(0) =~= v@);
    while i < v.len()
        invariant
            i <= v.len(),
            vviews(r@) + lines(v@.skip(i as int)) == lines(v@),
        decreases v.len() - i,
    {
        let ghost t = v@.skip(i as int);
        let ghost old_r = vviews(r@);
        match find_from(v, '\n', i) {
            Some(j) => {
                let mut e = j;
                if e > i && v[e - 1] == '\r' {
                    e = e - 1;
                }
                let piece = slice_chars(v, i, e);
                proof {
                    lemma_find_char(t, '\n');
                    assert(t.take(j - i) =~= v@.subrange(i as int, j as int));
                    assert(strip_cr(t.take(j - i)) =~= piece@);
                    assert(t.skip(j - i + 1) =~= v@.skip(j + 1));
                    assert(lines(t) == seq![piece@] + lines(v@.skip(j + 1)));
                }
                r.push(piece);
                proof {
                    assert(vviews(r@) =~= old_r.push(piece@));
                    assert(vviews(r@) + lines(v@.skip(j + 1)) =~= old_r + lines(t));
                }
                i = j + 1;
            },
            None => {
                let piece = slice_chars(v, i, v.len());
                proof {
                    assert(piece@ =~= t);
                    assert(lines(t) == seq![t]);
                    assert(v@.skip(v.len() as int) =~= Seq::<char>::empty());
                }
                r.push(piece);
                proof {
                    assert(vviews(r@) =~= old_r.push(piece@));
                    assert(vviews(r@) + lines(v@.skip(v.len() as int)) =~= old_r + lines(t));
                }
                i = v.len();
            },
        }
    }
    assert(v@.skip(v.len() as int) =~= Seq::<char>::empty());
    assert(vviews(r@) + Seq::<Seq<char>>::empty() =~= vviews(r@));
    r
}

/// The lines of a string slice.
pub fn lines_str(s: &str) -> (r: Vec<Vec<char>>)
    ensures
        vviews(r@) == lines(s@),
{
    let v = chars_of(s);
    lines_of(v.as_slice())
}

/// `str::split` on a character.
pub fn split_char_of(v: &[char], c: char) -> (r: Vec<Vec<char>>)
    ensures
        vviews(r@) == split_char(v@, c),
{
    let mut r: Vec<Vec<char>> = Vec::new();
    let mut i: usize = 0;
    assert(v@.skip(0) =~= v@);
    loop
        invariant
            i <= v.len(),
            vviews(r@) + split_char(v@.skip(i as int), c) == split_char(v@, c),
        decreases v.len() + 1 - i,
    {
        let ghost t = v@.skip(i as int);
        let ghost old_r = vviews(r@);
        match find_from(v, c, i) {
            Some(j) => {
                let piece = slice_chars(v, i, j);
                proof {
                    lemma_find_char(t, c);
                    assert(t.take(j - i) =~= piece@);
                    assert(t.skip(j - i + 1) =~= v@.skip(j + 1));
                }
                r.push(piece);
                proof {
                    assert(vviews(r@) =~= old_r.push(piece@));
                    assert(vviews(r@) + split_char(v@.skip(j + 1), c) =~= old_r + split_char(t, c));
                }
                i = j + 1;
            },
            None => {
                let piece = slice_chars(v, i, v.len());
                proof {
                    assert(piece@ =~= t);
                }
                r.push(piece);
                proof {
                    assert(vviews(r@) =~= old_r.push(piece@));
                    assert(vviews(r@) =~= old_r + split_char(t, c));
                }
                return r;
            },
        }
    }
}

/// `word_len` is the index of the first whitespace character, or the
/// length when there is none.
pub proof fn lemma_word_len(s: Seq<char>, n: int)
    requires
        0 <= n <= s.len(),
        forall|k: int| 0 <= k < n ==> !is_ws(s[k]),
        n == s.len() || is_ws(s[n]),
    ensures
        word_len(s) == n,
    decreases n,
{
    if n > 0 {
        lemma_word_len(s.drop_first(), n - 1);
    }
}

/// `str::split_whitespace` on characters.
pub fn split_ws_of(v: &[char]) -> (r: Vec<Vec<char>>)
    ensures
        vviews(r@) == split_ws(v@),
{
    let mut r: Vec<Vec<char>> = Vec::new();
    let mut i: usize = 0;
    assert(v@.skip(0) =~= v@);
    while i < v.len()
        invariant
            i <= v.len(),
            vviews(r@) + split_ws(v@.skip(i as int)) == split_ws(v@),
        decreases v.len() - i,
    {
        let ghost t = v@.skip(i as int);
        if is_ws_exec(v[i]) {
            assert(t.drop_first() =~= v@.skip(i + 1));
            i = i + 1;
        } else {
            let mut j = i + 1;
            while j < v.len() && !is_ws_exec(v[j])
                invariant
                    i < j <= v.len(),
                    forall|k: int| i <= k < j ==> !is_ws(v@[k]),
                decreases v.len() - j,
            {
                j = j + 1;
            }
            let ghost old_r = vviews(r@);
            let piece = slice_chars(v, i, j);
            proof {
                lemma_word_len(t, j - i);
                assert(t.take(j - i) =~= piece@);
                assert(t.skip(j - i) =~= v@.skip(j as int));
            }
            r.push(piece);
            proof {
                assert(vviews(r@) =~= old_r.push(piece@));
                assert(vviews(r@) + split_ws(v@.skip(j as int)) =~= old_r + split_ws(t));
            }
            i = j;
        }
    }
    assert(v@.skip(v.len() as int) =~= Seq::<char>::empty());
    assert(vviews(r@) + Seq::<Seq<char>>::empty() =~= vviews(r@));
    r
}

/// Position of the first `c` in `v` and the text around it.
pub fn split_once_of(v: &[char], c: char) -> (r: Option<(Vec<char>, Vec<char>)>)
    ensures
        match split_once(v@, c) {
            Some((a, b)) => r matches Some((x, y)) && x@ == a && y@ == b,
            None => r is None,
        },
{
    match find(v, c) {
        Some(i) => {
            proof {
                lemma_find_char(v@, c);
            }
            let n = v.len();
            assert(i < n);
            Some((slice_chars(v, 0, i), slice_chars(v, i + 1, n)))
        },
        None => None,
    }
}

/// Position of the last `c` in `v` and the text around it.
pub fn rsplit_once_of(v: &[char], c: char) -> (r: Option<(Vec<char>, Vec<char>)>)
    ensures
        match rsplit_once(v@, c) {
            Some((a, b)) => r matches Some((x, y)) && x@ == a && y@ == b,
            None => r is None,
        },
{
    match rfind(v, c) {
        Some(i) => {
            proof {
                lemma_rfind_char(v@, c);
            }
            let n = v.len();
            assert(i < n);
            Some((slice_chars(v, 0, i), slice_chars(v, i + 1, n)))
        },
        None => None,
    }
}

/// The text after the last `'@'`, or all of `v` when there is none.
pub open spec fn after_last_at(s: Seq<char>) -> Seq<char> {
    match rsplit_once(s, '@') {
        Some((_, h)) => h,
        None => s,
    }
}

// ---------------------------------------------------------------------------
// Joining and replacing
// ---------------------------------------------------------------------------

/// `[String]::join`.
pub fn join_strings(parts: &[String], sep: &str) -> (r: String)
    ensures
        r@ == join(sviews(parts@), sep@),
{
    let mut r = String::new();
    let mut i: usize = 0;
    while i < parts.len()
        invariant
            i <= parts.len(),
            r@ == join(sviews(parts@).take(i as int), sep@),
        decreases parts.len() - i,
    {
        let ghost pre = sviews(parts@).take(i as int);
        if i > 0 {
            push_str(&mut r, sep);
        }
        push_str(&mut r, parts[i].as_str());
        proof {
            let nxt = sviews(parts@).take(i + 1);
            assert(nxt.drop_last() =~= pre);
            assert(nxt.last() == parts@[i as int]@);
            if i == 0 {
                assert(r@ =~= nxt[0]);
            } else {
                assert(r@ =~= join(pre, sep@) + sep@ + nxt.last());
            }
        }
        i = i + 1;
    }
    assert(sviews(parts@).take(parts.len() as int) =~= sviews(parts@));
    r
}

/// `str::replace` with a character pattern.
pub fn replace_char_of(v: &[char], c: char, rep: &[char]) -> (r: Vec<char>)
    ensures
        r@ == replace_char(v@, c, rep@),
{
    let mut r: Vec<char> = Vec::new();
    let mut i: usize = 0;
    assert(v@.skip(0) =~= v@);
    while i < v.len()
        invariant
            i <= v.len(),
            r@ + replace_char(v@.skip(i as int), c, rep@) == replace_char(v@, c, rep@),
        decreases v.len() - i,
    {
        let ghost t = v@.skip(i as int);
        let ghost old_r = r@;
        assert(t.drop_first() =~= v@.skip(i + 1));
        if v[i] == c {
            let mut k: usize = 0;
            while k < rep.len()
                invariant
                    k <= rep.len(),
                    r@ == old_r + rep@.take(k as int),
                decreases rep.len() - k,
            {
                r.push(rep[k]);
                k = k + 1;
                assert(rep@.take(k as int) =~= rep@.take(k - 1).push(rep@[k - 1]));
            }
            assert(rep@.take(rep.len() as int) =~= rep@);
            assert(r@ + replace_char(v@.skip(i + 1), c, rep@) =~= old_r + replace_char(t, c, rep@));
        } else {
            r.push(v[i]);
            assert(r@ + replace_char(v@.skip(i + 1), c, rep@) =~= old_r + replace_char(t, c, rep@));
        }
        i = i + 1;
    }
    assert(v@.skip(v.len() as int) =~= Seq::<char>::empty());
    assert(r@ + Seq::<char>::empty() =~= r@);
    r
}

/// `str::replace` with a non-empty string pattern.
pub fn replace_str_of(v: &[char], pat: &[char], rep: &[char]) -> (r: Vec<char>)
    requires
        pat.len() > 0,
    ensures
        r@ == replace_str(v@, pat@, rep@),
{
    let mut r: Vec<char> = Vec::new();
    let mut i: usize = 0;
    assert(v@.skip(0) =~= v@);
    while i < v.len()
        invariant
            i <= v.len(),
            pat.len() > 0,
            r@ + replace_str(v@.skip(i as int), pat@, rep@) == replace_str(v@, pat@, rep@),
        decreases v.len() - i,
    {
        let ghost t = v@.skip(i as int);
        let ghost old_r = r@;
        if occurs_at_exec(v, pat, i) {
            proof {
                assert(t.take(pat.len() as int) =~= v@.subrange(i as int, i + pat.len()));
                assert(t.skip(pat.len() as int) =~= v@.skip(i + pat.len()));
            }
            let mut k: usize = 0;
            while k < rep.len()
                invariant
                    k <= rep.len(),
                    r@ == old_r + rep@.take(k as int),
                decreases rep.len() - k,
            {
                r.push(rep[k]);
                k = k + 1;
                assert(rep@.take(k as int) =~= rep@.take(k - 1).push(rep@[k - 1]));
            }
            assert(rep@.take(rep.len() as int) =~= rep@);
            assert(r@ + replace_str(v@.skip(i + pat.len()), pat@, rep@) =~= old_r + replace_str(
                t,
                pat@,
                rep@,
            ));
            i = i + pat.len();
        } else {
            proof {
                if starts_with(t, pat@) {
                    assert(t.take(pat.len() as int) =~= v@.subrange(i as int, i + pat.len()));
                }
                assert(t.drop_first() =~= v@.skip(i + 1));
            }
            r.push(v[i]);
            assert(r@ + replace_str(v@.skip(i + 1), pat@, rep@) =~= old_r + replace_str(
                t,
                pat@,
                rep@,
            ));
            i = i + 1;
        }
    }
    assert(v@.skip(v.len() as int) =~= Seq::<char>::empty());
    assert(r@ + Seq::<char>::empty() =~= r@);
    r
}

// ---------------------------------------------------------------------------
// Case
// ---------------------------------------------------------------------------

/// What `str::to_lowercase` returns for a string: its Unicode lower-case
/// mapping, character by character.
pub uninterp spec fn unicode_lowercase(s: Seq<char>) -> Seq<char>;

/// A character of the ASCII range.
pub open spec fn is_ascii_char(c: char) -> bool {
    (c as u32) < 128
}

/// Every character of `s` is ASCII.
pub open spec fn all_ascii(s: Seq<char>) -> bool {
    forall|i: int| 0 <= i < s.len() ==> is_ascii_char(#[trigger] s[i])
}

/// ASCII lower-casing of every character of `s`.
pub open spec fn ascii_lowercase(s: Seq<char>) -> Seq<char> {
    s.map_values(|c: char| ascii_lower(c))
}

/// The lower case of `s` as `str::to_lowercase` gives it: the ASCII lower
/// case of ASCII text, the Unicode lower case of other text.
pub open spec fn lowercase(s: Seq<char>) -> Seq<char> {
    if all_ascii(s) {
        ascii_lowercase(s)
    } else {
        unicode_lowercase(s)
    }
}

/// `str::to_lowercase` (std): the Unicode lower-case form of `s`. The
/// contract names the result; the Unicode case tables are not restated,
/// beyond their ASCII part: an ASCII letter lower-cases to its ASCII small
/// letter and every other ASCII character to itself, one for one.
#[verifier::external_body]
pub(crate) fn to_lowercase(s: &str) -> (r: String)
    ensures
        r@ == unicode_lowercase(s@),
        all_ascii(s@) ==> r@ == ascii_lowercase(s@),
{
    s.to_lowercase()
}

/// `char::to_ascii_lowercase`.
pub fn ascii_lower_exec(c: char) -> (r: char)
    ensures
        r == ascii_lower(c),
{
    if 'A' <= c && c <= 'Z' {
        let u: u8 = (c as u32) as u8 + 32;
        assert(u == (c as u32) + 32);
        u as char
    } else {
        c
    }
}

/// `str::eq_ignore_ascii_case` on characters.
pub fn eq_ignore_ascii_case_exec(a: &[char], b: &[char]) -> (r: bool)
    ensures
        r == eq_ignore_ascii_case(a@, b@),
{
    if a.len() != b.len() {
        return false;
    }
    let mut i: usize = 0;
    while i < a.len()
        invariant
            a.len() == b.len(),
            i <= a.len(),
            forall|j: int| 0 <= j < i ==> ascii_lower(a@[j]) == ascii_lower(b@[j]),
        decreases a.len() - i,
    {
        if ascii_lower_exec(a[i]) != ascii_lower_exec(b[i]) {
            return false;
        }
        i = i + 1;
    }
    true
}


// ---------------------------------------------------------------------------
// Decimal numbers
// ---------------------------------------------------------------------------

/// The digit character of `d < 10`.
pub fn digit_char_exec(d: u64) -> (c: char)
    requires
        d < 10,
    ensures
        c == digit_char(d as int),
        is_digit(c),
        digit_value(c) == d,
{
    if d == 0 {
        '0'
    } else if d == 1 {
        '1'
    } else if d == 2 {
        '2'
    } else if d == 3 {
        '3'
    } else if d == 4 {
        '4'
    } else if d == 5 {
        '5'
    } else if d == 6 {
        '6'
    } else if d == 7 {
        '7'
    } else if d == 8 {
        '8'
    } else {
        '9'
    }
}

/// Decimal digits of `n`.
pub fn u64_digits(n: u64) -> (r: Vec<char>)
    ensures
        r@ == nat_decimal(n as nat),
    decreases n,
{
    if n < 10 {
        let mut r: Vec<char> = Vec::new();
        r.push(digit_char_exec(n));
        assert(r@ =~= seq![digit_char(n as int)]);
        r
    } else {
        let mut r = u64_digits(n / 10);
        r.push(digit_char_exec(n % 10));
        r
    }
}

/// `Display` of a `u64`.
pub fn u64_to_string(n: u64) -> (r: String)
    ensures
        r@ == nat_decimal(n as nat),
{
    let d = u64_digits(n);
    string_from(d.as_slice())
}

/// `Display` of an `i64`.
pub fn i64_to_string(n: i64) -> (r: String)
    ensures
        r@ == int_decimal(n as int),
{
    if n < 0 {
        let m: u64 = ((-(n + 1)) as u64) + 1;
        let d = u64_digits(m);
        let mut r = String::new();
        push_char(&mut r, '-');
        push_chars(&mut r, d.as_slice());
        assert(r@ =~= seq!['-'] + nat_decimal((-n) as nat));
        r
    } else {
        u64_to_string(n as u64)
    }
}

/// `Display` of an `i32`.
pub fn i32_to_string(n: i32) -> (r: String)
    ensures
        r@ == int_decimal(n as int),
{
    i64_to_string(n as i64)
}

/// `Display` of a `usize`.
pub fn usize_to_string(n: usize) -> (r: String)
    ensures
        r@ == nat_decimal(n as nat),
{
    u64_to_string(n as u64)
}

/// A prefix of a digit string has no greater value than the whole string.
pub proof fn lemma_digits_value_prefix(s: Seq<char>, k: int)
    requires
        0 <= k <= s.len(),
    ensures
        digits_value(s.take(k)) <= digits_value(s),
        0 <= digits_value(s),
    decreases s.len(),
{
    if s.len() > 0 {
        if k == s.len() {
            assert(s.take(k) =~= s);
            lemma_digits_value_prefix(s.drop_last(), 0);
        } else {
            lemma_digits_value_prefix(s.drop_last(), k);
            assert(s.drop_last().take(k) =~= s.take(k));
        }
    } else {
        assert(s.take(k) =~= s);
    }
}

/// Read an unsigned decimal number no greater than `limit` from `v[from..]`,
/// all of whose characters must be digits; `None` when a character is not a
/// digit, the text is empty, or the value exceeds `limit`.
fn read_digits(v: &[char], from: usize, limit: u64) -> (r: Option<u64>)
    requires
        from <= v.len(),
    ensures
        match r {
            Some(x) => all_digits(v@.skip(from as int)) && x == digits_value(v@.skip(from as int))
                && x <= limit,
            None => !all_digits(v@.skip(from as int)) || digits_value(v@.skip(from as int)) > limit,
        },
{
    let ghost body = v@.skip(from as int);
    if from == v.len() {
        return None;
    }
    let mut acc: u64 = 0;
    let mut i: usize = from;
    assert(body.take(0) =~= Seq::<char>::empty());
    while i < v.len()
        invariant
            from <= i <= v.len(),
            from < v.len(),
            body == v@.skip(from as int),
            acc == digits_value(body.take(i - from)),
            acc <= limit,
            forall|k: int| 0 <= k < i - from ==> is_digit(body[k]),
        decreases v.len() - i,
    {
        let c = v[i];
        let d: u64 = if c == '0' {
            0
        } else if c == '1' {
            1
        } else if c == '2' {
            2
        } else if c == '3' {
            3
        } else if c == '4' {
            4
        } else if c == '5' {
            5
        } else if c == '6' {
            6
        } else if c == '7' {
            7
        } else if c == '8' {
            8
        } else if c == '9' {
            9
        } else {
            assert(!is_digit(body[i - from]));
            return None;
        };
        assert(body.take(i - from + 1).drop_last() =~= body.take(i - from));
        assert(d == digit_value(body[i - from]));
        if d > limit || acc > (limit - d) / 10 {
            proof {
                assert(acc * 10 + d > limit) by (nonlinear_arith)
                    requires
                        d > limit || acc > (limit - d) / 10,
                        d <= limit ==> acc > (limit - d) / 10 || d > limit,
                        d < 10,
                ;
                lemma_digits_value_prefix(body, i - from + 1);
            }
            return None;
        }
        proof {
            assert(acc * 10 + d <= limit) by (nonlinear_arith)
                requires
                    acc <= (limit - d) / 10,
                    d <= limit,
            ;
        }
        acc = acc * 10 + d;
        i = i + 1;
    }
    assert(body.take(body.len() as int) =~= body);
    Some(acc)
}

/// `str::parse::<i64>`: `Some` exactly when `FromStr` succeeds.
pub fn parse_i64(v: &[char]) -> (r: Option<i64>)
    ensures
        match parse_signed(v@) {
            Some(x) => if i64::MIN <= x <= i64::MAX {
                r == Some(x as i64)
            } else {
                r is None
            },
            None => r is None,
        },
{
    let mut from: usize = 0;
    let mut neg = false;
    if v.len() > 0 && (v[0] == '-' || v[0] == '+') {
        neg = v[0] == '-';
        from = 1;
    }
    assert(unsigned_part(v@, true) =~= v@.skip(from as int));
    assert(neg == (v@.len() > 0 && v@[0] == '-'));
    let limit: u64 = if neg {
        9223372036854775808
    } else {
        9223372036854775807
    };
    match read_digits(v, from, limit) {
        Some(m) => {
            if neg {
                if m == 9223372036854775808 {
                    Some(i64::MIN)
                } else {
                    Some(-(m as i64))
                }
            } else {
                Some(m as i64)
            }
        },
        None => None,
    }
}

/// `str::parse::<u8>`: `Some` exactly when `FromStr` succeeds.
pub fn parse_u8(v: &[char]) -> (r: Option<u8>)
    ensures
        match parse_unsigned(v@) {
            Some(x) => if x <= 255 {
                r == Some(x as u8)
            } else {
                r is None
            },
            None => r is None,
        },
{
    let mut from: usize = 0;
    if v.len() > 0 && v[0] == '+' {
        from = 1;
    }
    assert(unsigned_part(v@, false) =~= v@.skip(from as int));
    match read_digits(v, from, 255) {
        Some(m) => Some(m as u8),
        None => None,
    }
}

} // verus!
