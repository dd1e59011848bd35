//! Character-level text operations with mathematical models over `Seq<char>`.
//!
//! Every operation but one has a spec function that says what it computes
//! and an executable function on `Vec<char>` that is proved to compute it.
//! The one is the lower-case form of a text, which is the standard library's
//! and goes by the name [`lowercase`].

use vstd::prelude::*;

verus! {

/// Whether `c` has the Unicode `White_Space` property.
pub open spec fn is_whitespace(c: char) -> bool {
    let n = c as u32;
    (0x09 <= n && n <= 0x0d) || n == 0x20 || n == 0x85 || n == 0xa0 || n == 0x1680 || (0x2000 <= n
        && n <= 0x200a) || n == 0x2028 || n == 0x2029 || n == 0x202f || n == 0x205f || n == 0x3000
}

/// Whether `c` is one of the five ASCII whitespace characters.
pub open spec fn is_ascii_whitespace(c: char) -> bool {
    c == ' ' || c == '\t' || c == '\n' || c == '\x0c' || c == '\r'
}

/// Whether `c` is an ASCII decimal digit.
pub open spec fn is_digit(c: char) -> bool {
    '0' <= c && c <= '9'
}

/// The upper-case form of an ASCII letter; every other character is itself.
pub open spec fn ascii_upper(c: char) -> char {
    if 'a' <= c && c <= 'z' {
        ((c as u32 - 32) as u8) as char
    } else {
        c
    }
}

/// The lower-case form of an ASCII letter; every other character is itself.
pub open spec fn ascii_lower(c: char) -> char {
    if 'A' <= c && c <= 'Z' {
        ((c as u32 + 32) as u8) as char
    } else {
        c
    }
}

/// `s` with every ASCII letter in upper case.
pub open spec fn to_ascii_uppercase(s: Seq<char>) -> Seq<char> {
    Seq::new(s.len(), |i: int| ascii_upper(s[i]))
}

/// The lower-case form of a text, as `str::to_lowercase` gives it: every
/// cased letter of Unicode in lower case.
pub uninterp spec fn lowercase(s: Seq<char>) -> Seq<char>;

/// What a trimming operation removes: whitespace, or one given character.
pub enum Strip {
    Whitespace,
    Char(char),
}

impl Strip {
    /// Whether this operation removes `c`.
    pub open spec fn removes(self, c: char) -> bool {
        match self {
            Strip::Whitespace => is_whitespace(c),
            Strip::Char(x) => c == x,
        }
    }

    fn removes_exec(&self, c: char) -> (b: bool)
        ensures
            b == self.removes(c),
    {
        match self {
            Strip::Whitespace => char_is_whitespace(c),
            Strip::Char(x) => c == *x,
        }
    }
}

/// `s` without its longest prefix of removable characters.
pub open spec fn strip_start(s: Seq<char>, what: Strip) -> Seq<char>
    decreases s.len(),
{
    if s.len() > 0 && what.removes(s[0]) {
        strip_start(s.drop_first(), what)
    } else {
        s
    }
}

/// `s` without its longest suffix of removable characters.
pub open spec fn strip_end(s: Seq<char>, what: Strip) -> Seq<char>
    decreases s.len(),
{
    if s.len() > 0 && what.removes(s.last()) {
        strip_end(s.drop_last(), what)
    } else {
        s
    }
}

/// `s` without removable characters at either end.
pub open spec fn strip(s: Seq<char>, what: Strip) -> Seq<char> {
    strip_end(strip_start(s, what), what)
}

/// `s` without leading and trailing whitespace.
pub open spec fn trim(s: Seq<char>) -> Seq<char> {
    strip(s, Strip::Whitespace)
}

/// `s` without leading and trailing occurrences of `c`.
pub open spec fn trim_matches(s: Seq<char>, c: char) -> Seq<char> {
    strip(s, Strip::Char(c))
}

/// Whether `pat` occurs in `s` at index `i`.
pub open spec fn matches_at(s: Seq<char>, pat: Seq<char>, i: int) -> bool {
    0 <= i && i + pat.len() <= s.len() && s.subrange(i, i + pat.len()) == pat
}

/// Whether `pat` occurs somewhere in `s`.
pub open spec fn contains(s: Seq<char>, pat: Seq<char>) -> bool {
    exists|i: int| matches_at(s, pat, i)
}

/// Whether `s` begins with `pat`.
pub open spec fn starts_with(s: Seq<char>, pat: Seq<char>) -> bool {
    matches_at(s, pat, 0)
}

/// Whether `s` ends with `pat`.
pub open spec fn ends_with(s: Seq<char>, pat: Seq<char>) -> bool {
    matches_at(s, pat, s.len() - pat.len())
}

/// The least index at or after `from` where `pat` occurs in `s`, or -1.
pub open spec fn find_from(s: Seq<char>, pat: Seq<char>, from: int) -> int
    decreases s.len() + 1 - from,
{
    if from < 0 || from + pat.len() > s.len() {
        -1
    } else if matches_at(s, pat, from) {
        from
    } else {
        find_from(s, pat, from + 1)
    }
}

/// The pieces of `s` from index `start` on, cut at each occurrence of `pat`,
/// searching from left to right without overlap.
pub open spec fn split_from(s: Seq<char>, pat: Seq<char>, start: int) -> Seq<Seq<char>>
    decreases s.len() - start,
{
    let i = find_from(s, pat, start);
    if pat.len() == 0 || i < start || i + pat.len() > s.len() {
        seq![s.subrange(start, s.len() as int)]
    } else {
        seq![s.subrange(start, i)] + split_from(s, pat, i + pat.len())
    }
}

/// The pieces of `s` between the occurrences of the non-empty pattern `pat`.
/// A string without an occurrence is its own single piece.
pub open spec fn split(s: Seq<char>, pat: Seq<char>) -> Seq<Seq<char>> {
    split_from(s, pat, 0)
}

/// `s` from index `start` on, with each occurrence of `pat` replaced by `to`.
pub open spec fn replace_from(s: Seq<char>, pat: Seq<char>, to: Seq<char>, start: int) -> Seq<
    char,
>
    decreases s.len() - start,
{
    let i = find_from(s, pat, start);
    if pat.len() == 0 || i < start || i + pat.len() > s.len() {
        s.subrange(start, s.len() as int)
    } else {
        s.subrange(start, i) + to + replace_from(s, pat, to, i + pat.len())
    }
}

/// `s` with each occurrence of the non-empty pattern `pat` replaced by `to`.
pub open spec fn replace(s: Seq<char>, pat: Seq<char>, to: Seq<char>) -> Seq<char> {
    replace_from(s, pat, to, 0)
}

/// The least index at or after `i` whose character is ASCII whitespace
/// (`ws` true) or is not (`ws` false); the length of `s` if there is none.
pub open spec fn scan(s: Seq<char>, i: int, ws: bool) -> int
    decreases s.len() - i,
{
    if i < 0 || i >= s.len() {
        s.len() as int
    } else if is_ascii_whitespace(s[i]) == ws {
        i
    } else {
        scan(s, i + 1, ws)
    }
}

/// The maximal runs of characters other than ASCII whitespace in `s`, from
/// index `start` on.
pub open spec fn words_from(s: Seq<char>, start: int) -> Seq<Seq<char>>
    decreases s.len() - start,
{
    let a = scan(s, start, false);
    let b = scan(s, a, true);
    if start < 0 || a < start || a >= s.len() || b <= a || b > s.len() {
        Seq::empty()
    } else {
        seq![s.subrange(a, b)] + words_from(s, b)
    }
}

/// The words of `s`: its maximal runs of characters other than ASCII whitespace.
pub open spec fn words(s: Seq<char>) -> Seq<Seq<char>> {
    words_from(s, 0)
}

/// The number that the decimal digits `s` denote; 0 for the empty sequence.
pub open spec fn digits_value(s: Seq<char>) -> int
    decreases s.len(),
{
    if s.len() == 0 {
        0
    } else {
        digits_value(s.drop_last()) * 10 + (s.last() as int - '0' as int)
    }
}

/// Whether every character of `s` is a decimal digit.
pub open spec fn all_digits(s: Seq<char>) -> bool {
    forall|i: int| 0 <= i < s.len() ==> is_digit(#[trigger] s[i])
}

/// The integer that `s` denotes in decimal: an optional sign `+` or `-`, then
/// one or more digits, and nothing else.
pub open spec fn parse_int(s: Seq<char>) -> Option<int> {
    if s.len() == 0 {
        None
    } else {
        let signed = s[0] == '-' || s[0] == '+';
        let body = if signed {
            s.subrange(1, s.len() as int)
        } else {
            s
        };
        if body.len() == 0 || !all_digits(body) {
            None
        } else if s[0] == '-' {
            Some(-digits_value(body))
        } else {
            Some(digits_value(body))
        }
    }
}

/// The 16-bit integer that `s` denotes, where it denotes one in range.
pub open spec fn parse_i16(s: Seq<char>) -> Option<i16> {
    match parse_int(s) {
        Some(v) => if -32768 <= v && v <= 32767 {
            Some(v as i16)
        } else {
            None
        },
        None => None,
    }
}

/// The 16-bit integer that `s` denotes, or 0 where it denotes none.
pub open spec fn parse_i16_or_zero(s: Seq<char>) -> i16 {
    match parse_i16(s) {
        Some(v) => v,
        None => 0,
    }
}

/// The last byte of the UTF-8 encoding of `c`.
pub open spec fn last_utf8_byte(c: char) -> int {
    if (c as u32) < 0x80 {
        c as int
    } else {
        0x80 + (c as int) % 0x40
    }
}

/// The value of `c` read as a decimal digit by its last encoded byte: that
/// byte less the byte of `'0'`. For `'0'` to `'9'` this is 0 to 9.
pub open spec fn digit_value(c: char) -> i16 {
    (last_utf8_byte(c) - 48) as i16
}

/// The digit value of the last character of `s`, or 0 for the empty sequence.
pub open spec fn last_digit_value(s: Seq<char>) -> i16 {
    if s.len() == 0 {
        0
    } else {
        digit_value(s.last())
    }
}

/// The value of `c` as a digit by its code point: the code point less that of
/// `'0'`, wrapped to 16 bits. For `'0'` to `'9'` this is 0 to 9.
pub open spec fn code_digit_value(c: char) -> i16 {
    let m = (c as int + 65536 - 48) % 65536;
    if m >= 32768 {
        (m - 65536) as i16
    } else {
        m as i16
    }
}

/// Tests the Unicode `White_Space` property.
pub fn char_is_whitespace(c: char) -> (b: bool)
    ensures
        b == is_whitespace(c),
{
    let n: u32 = c as u32;
    (0x09 <= n && n <= 0x0d) || n == 0x20 || n == 0x85 || n == 0xa0 || n == 0x1680 || (0x2000 <= n
        && n <= 0x200a) || n == 0x2028 || n == 0x2029 || n == 0x202f || n == 0x205f || n == 0x3000
}

/// Tests for one of the five ASCII whitespace characters.
pub fn char_is_ascii_whitespace(c: char) -> (b: bool)
    ensures
        b == is_ascii_whitespace(c),
{
    c == ' ' || c == '\t' || c == '\n' || c == '\x0c' || c == '\r'
}

/// Tests for an ASCII decimal digit.
pub fn char_is_digit(c: char) -> (b: bool)
    ensures
        b == is_digit(c),
{
    let n: u32 = c as u32;
    48 <= n && n <= 57
}

/// Computes [`ascii_upper`].
pub fn char_ascii_upper(c: char) -> (u: char)
    ensures
        u == ascii_upper(c),
{
    let n: u32 = c as u32;
    if 97 <= n && n <= 122 {
        let m: u8 = (n - 32) as u8;
        m as char
    } else {
        c
    }
}

/// Computes [`ascii_lower`].
pub fn char_ascii_lower(c: char) -> (l: char)
    ensures
        l == ascii_lower(c),
{
    let n: u32 = c as u32;
    if 0x41 <= n && n <= 0x5a {
        let m: u8 = (n + 32) as u8;
        m as char
    } else {
        c
    }
}

/// Computes [`digit_value`].
pub fn char_digit_value(c: char) -> (d: i16)
    ensures
        d == digit_value(c),
{
    let n: u32 = c as u32;
    if n < 0x80 {
        (n as i16) - 48
    } else {
        let low: u32 = n % 0x40;
        (low as i16) + 80
    }
}

/// Computes [`code_digit_value`].
pub fn char_code_digit_value(c: char) -> (d: i16)
    ensures
        d == code_digit_value(c),
{
    let n: u32 = c as u32;
    let m: u32 = (n + 65536 - 48) % 65536;
    if m >= 32768 {
        let k: i32 = m as i32 - 65536;
        k as i16
    } else {
        m as i16
    }
}

/// Collects the characters of a string slice.
pub fn chars_of(s: &str) -> (v: Vec<char>)
    ensures
        v@ == s@,
{
    let mut v: Vec<char> = Vec::new();
    for c in it: s.chars()
        invariant
            v@ == it.seq().take(it.index() as int),
    {
        v.push(c);
    }
    v
}

/// `String::from_iter` on the characters of a vector: the string holds exactly
/// those characters, in order.
#[verifier::external_body]
pub(crate) fn string_of(v: &Vec<char>) -> (s: String)
    ensures
        s@ == v@,
{
    v.iter().collect()
}

/// Copies the characters of `v` from index `a` up to index `b`.
pub(crate) fn subrange(v: &Vec<char>, a: usize, b: usize) -> (r: Vec<char>)
    requires
        a <= b <= v.len(),
    ensures
        r@ == v@.subrange(a as int, b as int),
{
    let mut r: Vec<char> = Vec::new();
    let mut i: usize = a;
    while i < b
        invariant
            a <= i <= b <= v.len(),
            r@ == v@.subrange(a as int, i as int),
        decreases b - i,
    {
        r.push(v[i]);
        i += 1;
    }
    r
}

/// Appends the characters of `tail` to `v`.
pub fn extend(v: &mut Vec<char>, tail: &Vec<char>)
    ensures
        final(v)@ == old(v)@ + tail@,
{
    let mut i: usize = 0;
    while i < tail.len()
        invariant
            i <= tail.len(),
            v@ == old(v)@ + tail@.subrange(0, i as int),
        decreases tail.len() - i,
    {
        v.push(tail[i]);
        i += 1;
    }
    assert(tail@.subrange(0, tail.len() as int) == tail@);
}

/// Decides whether two vectors hold the same characters.
pub fn same(a: &Vec<char>, b: &Vec<char>) -> (r: bool)
    ensures
        r == (a@ == b@),
{
    if a.len() != b.len() {
        return false;
    }
    let mut i: usize = 0;
    while i < a.len()
        invariant
            i <= a.len(),
            a.len() == b.len(),
            forall|k: int| 0 <= k < i ==> a@[k] == b@[k],
        decreases a.len() - i,
    {
        if a[i] != b[i] {
            return false;
        }
        i += 1;
    }
    assert(a@ =~= b@);
    true
}

/// Computes [`to_ascii_uppercase`].
pub fn upper(v: &Vec<char>) -> (r: Vec<char>)
    ensures
        r@ == to_ascii_uppercase(v@),
{
    let mut r: Vec<char> = Vec::new();
    let mut i: usize = 0;
    while i < v.len()
        invariant
            i <= v.len(),
            r@.len() == i,
            forall|k: int| 0 <= k < i ==> r@[k] == ascii_upper(v@[k]),
        decreases v.len() - i,
    {
        r.push(char_ascii_upper(v[i]));
        i += 1;
    }
    assert(r@ =~= to_ascii_uppercase(v@));
    r
}

/// `str::to_lowercase`: the lower-case form of the text, which depends on
/// the text alone.
#[verifier::external_body]
pub(crate) fn lowered(s: &str) -> (r: String)
    ensures
        r@ == lowercase(s@),
{
    s.to_lowercase()
}

/// The lower-case form of `v`: see [`lowercase`].
pub fn lower(v: &Vec<char>) -> (r: Vec<char>)
    ensures
        r@ == lowercase(v@),
{
    let s = string_of(v);
    let l = lowered(s.as_str());
    chars_of(l.as_str())
}

/// Removes what `what` names from both ends of `v`.
pub fn stripped(v: &Vec<char>, what: Strip) -> (r: Vec<char>)
    ensures
        r@ == strip(v@, what),
{
    let n = v.len();
    let mut i: usize = 0;
    assert(v@.subrange(0, n as int) == v@);
    while i < n && what.removes_exec(v[i])
        invariant
            i <= n,
            n == v.len(),
            strip_start(v@, what) == strip_start(v@.subrange(i as int, n as int), what),
        decreases n - i,
    {
        assert(v@.subrange(i as int, n as int).drop_first() == v@.subrange(i + 1, n as int));
        i += 1;
    }
    let mut j: usize = n;
    while j > i && what.removes_exec(v[j - 1])
        invariant
            i <= j <= n,
            n == v.len(),
            strip_end(v@.subrange(i as int, n as int), what) == strip_end(
                v@.subrange(i as int, j as int),
                what,
            ),
        decreases j,
    {
        assert(v@.subrange(i as int, j as int).drop_last() == v@.subrange(i as int, j - 1));
        j -= 1;
    }
    subrange(v, i, j)
}

/// Removes leading and trailing whitespace.
pub fn trimmed(v: &Vec<char>) -> (r: Vec<char>)
    ensures
        r@ == trim(v@),
{
    stripped(v, Strip::Whitespace)
}

/// Removes leading and trailing occurrences of `c`.
pub fn trimmed_matches(v: &Vec<char>, c: char) -> (r: Vec<char>)
    ensures
        r@ == trim_matches(v@, c),
{
    stripped(v, Strip::Char(c))
}

/// Decides whether `pat` occurs in `v` at index `i`.
pub fn occurs_at(v: &Vec<char>, pat: &Vec<char>, i: usize) -> (r: bool)
    ensures
        r == matches_at(v@, pat@, i as int),
{
    if pat.len() > v.len() || i > v.len() - pat.len() {
        return false;
    }
    let mut j: usize = 0;
    while j < pat.len()
        invariant
            j <= pat.len(),
            i + pat.len() <= v.len(),
            forall|k: int| 0 <= k < j ==> v@[i + k] == pat@[k],
        decreases pat.len() - j,
    {
        if v[i + j] != pat[j] {
            assert(v@.subrange(i as int, i + pat.len())[j as int] != pat@[j as int]);
            return false;
        }
        j += 1;
    }
    assert(v@.subrange(i as int, i + pat.len()) =~= pat@);
    true
}

/// Finds the first occurrence of `pat` in `v` at or after index `from`.
pub fn find(v: &Vec<char>, pat: &Vec<char>, from: usize) -> (r: Option<usize>)
    ensures
        match r {
            Some(i) => find_from(v@, pat@, from as int) == i,
            None => find_from(v@, pat@, from as int) == -1,
        },
{
    if pat.len() > v.len() {
        return None;
    }
    let last: usize = v.len() - pat.len();
    let mut i: usize = from;
    while i <= last
        invariant
            from <= i,
            last == v.len() - pat.len(),
            find_from(v@, pat@, from as int) == find_from(v@, pat@, i as int),
        decreases last + 1 - i,
    {
        if occurs_at(v, pat, i) {
            return Some(i);
        }
        if i == last {
            assert(find_from(v@, pat@, i + 1) == -1);
            return None;
        }
        i += 1;
    }
    None
}

/// What [`find_from`] returns: the least match at or after `from`, if any.
pub proof fn lemma_find_from(s: Seq<char>, pat: Seq<char>, from: int)
    requires
        0 <= from,
    ensures
        find_from(s, pat, from) == -1 || (from <= find_from(s, pat, from) && matches_at(
            s,
            pat,
            find_from(s, pat, from),
        )),
        forall|k: int|
            from <= k && (k < find_from(s, pat, from) || find_from(s, pat, from) == -1)
                ==> !matches_at(s, pat, k),
    decreases s.len() + 1 - from,
{
    if from + pat.len() > s.len() {
    } else if matches_at(s, pat, from) {
    } else {
        lemma_find_from(s, pat, from + 1);
    }
}

/// An occurrence exists exactly where the search from index 0 finds one.
pub proof fn lemma_contains_find(s: Seq<char>, pat: Seq<char>)
    ensures
        contains(s, pat) <==> find_from(s, pat, 0) >= 0,
{
    lemma_find_from(s, pat, 0);
    if find_from(s, pat, 0) >= 0 {
        assert(matches_at(s, pat, find_from(s, pat, 0)));
    }
}

/// Decides whether `pat` occurs in `v`.
pub fn has(v: &Vec<char>, pat: &Vec<char>) -> (r: bool)
    ensures
        r == contains(v@, pat@),
{
    proof {
        lemma_contains_find(v@, pat@);
    }
    find(v, pat, 0).is_some()
}

/// Decides whether `v` begins with `pat`.
pub fn begins_with(v: &Vec<char>, pat: &Vec<char>) -> (r: bool)
    ensures
        r == starts_with(v@, pat@),
{
    occurs_at(v, pat, 0)
}

/// Decides whether `v` ends with `pat`.
pub fn finishes_with(v: &Vec<char>, pat: &Vec<char>) -> (r: bool)
    ensures
        r == ends_with(v@, pat@),
{
    if pat.len() > v.len() {
        return false;
    }
    occurs_at(v, pat, v.len() - pat.len())
}

/// The character sequences that a sequence of vectors holds.
pub open spec fn views(v: Seq<Vec<char>>) -> Seq<Seq<char>> {
    Seq::new(v.len(), |i: int| v[i]@)
}

/// Pushing a vector appends its characters' sequence to the views.
pub proof fn lemma_views_push(v: Seq<Vec<char>>, x: Vec<char>)
    ensures
        views(v.push(x)) == views(v).push(x@),
{
    assert(views(v.push(x)) =~= views(v).push(x@));
}

/// Cuts `v` at each occurrence of `pat`.
pub fn pieces(v: &Vec<char>, pat: &Vec<char>) -> (r: Vec<Vec<char>>)
    ensures
        views(r@) == split(v@, pat@),
        r.len() >= 1,
{
    let mut out: Vec<Vec<char>> = Vec::new();
    let mut start: usize = 0;
    assert(views(out@) =~= Seq::<Seq<char>>::empty());
    assert(views(out@) + split_from(v@, pat@, 0) =~= split(v@, pat@));
    loop
        invariant
            start <= v.len(),
            views(out@) + split_from(v@, pat@, start as int) == split(v@, pat@),
        decreases v.len() - start,
    {
        let found = if pat.len() == 0 {
            None
        } else {
            find(v, pat, start)
        };
        proof {
            lemma_find_from(v@, pat@, start as int);
        }
        match found {
            None => {
                let piece = subrange(v, start, v.len());
                proof {
                    lemma_views_push(out@, piece);
                    assert(views(out@).push(piece@) =~= views(out@) + seq![piece@]);
                }
                out.push(piece);
                return out;
            },
            Some(i) => {
                let piece = subrange(v, start, i);
                proof {
                    lemma_views_push(out@, piece);
                    assert(views(out@).push(piece@) + split_from(v@, pat@, i + pat.len())
                        =~= views(out@) + split_from(v@, pat@, start as int));
                }
                out.push(piece);
                start = i + pat.len();
            },
        }
    }
}

/// Replaces each occurrence of `pat` in `v` by `to`.
pub fn replaced(v: &Vec<char>, pat: &Vec<char>, to: &Vec<char>) -> (r: Vec<char>)
    ensures
        r@ == replace(v@, pat@, to@),
{
    let mut out: Vec<char> = Vec::new();
    let mut start: usize = 0;
    assert(out@ + replace_from(v@, pat@, to@, 0) =~= replace(v@, pat@, to@));
    loop
        invariant
            start <= v.len(),
            out@ + replace_from(v@, pat@, to@, start as int) == replace(v@, pat@, to@),
        decreases v.len() - start,
    {
        let found = if pat.len() == 0 {
            None
        } else {
            find(v, pat, start)
        };
        proof {
            lemma_find_from(v@, pat@, start as int);
        }
        match found {
            None => {
                let piece = subrange(v, start, v.len());
                extend(&mut out, &piece);
                return out;
            },
            Some(i) => {
                let piece = subrange(v, start, i);
                let ghost before = out@;
                extend(&mut out, &piece);
                extend(&mut out, to);
                proof {
                    assert(out@ + replace_from(v@, pat@, to@, i + pat.len()) =~= before
                        + replace_from(v@, pat@, to@, start as int));
                }
                start = i + pat.len();
            },
        }
    }
}

/// Computes [`scan`].
pub(crate) fn scan_to(v: &Vec<char>, i: usize, ws: bool) -> (r: usize)
    requires
        i <= v.len(),
    ensures
        r == scan(v@, i as int, ws),
        i <= r <= v.len(),
        r < v.len() ==> is_ascii_whitespace(v@[r as int]) == ws,
{
    let mut j: usize = i;
    while j < v.len() && char_is_ascii_whitespace(v[j]) != ws
        invariant
            i <= j <= v.len(),
            scan(v@, i as int, ws) == scan(v@, j as int, ws),
        decreases v.len() - j,
    {
        j += 1;
    }
    j
}

/// Cuts `v` into its words.
pub fn split_words(v: &Vec<char>) -> (r: Vec<Vec<char>>)
    ensures
        views(r@) == words(v@),
{
    let mut out: Vec<Vec<char>> = Vec::new();
    let mut start: usize = 0;
    assert(views(out@) + words_from(v@, 0) =~= words(v@));
    loop
        invariant
            start <= v.len(),
            views(out@) + words_from(v@, start as int) == words(v@),
        decreases v.len() - start,
    {
        let a = scan_to(v, start, false);
        if a >= v.len() {
            assert(views(out@) + words_from(v@, start as int) =~= views(out@));
            return out;
        }
        let b = scan_to(v, a, true);
        let piece = subrange(v, a, b);
        proof {
            lemma_views_push(out@, piece);
            assert(views(out@).push(piece@) + words_from(v@, b as int) =~= views(out@)
                + words_from(v@, start as int));
        }
        out.push(piece);
        start = b;
    }
}

/// Computes [`parse_i16`].
pub fn to_i16(v: &Vec<char>) -> (r: Option<i16>)
    ensures
        r == parse_i16(v@),
{
    let n = v.len();
    if n == 0 {
        return None;
    }
    let negative = v[0] == '-';
    let first: usize = if v[0] == '-' || v[0] == '+' {
        1
    } else {
        0
    };
    if first == n {
        return None;
    }
    let ghost body = v@.subrange(first as int, n as int);
    assert(first == 0 ==> body == v@);
    let mut acc: i32 = 0;
    let mut i: usize = first;
    assert(body.subrange(0, 0) =~= Seq::<char>::empty());
    while i < n
        invariant
            first <= i <= n,
            n == v.len(),
            n > 0,
            body == v@.subrange(first as int, n as int),
            first == 0 ==> body == v@,
            first == (if v@[0] == '-' || v@[0] == '+' {
                1int
            } else {
                0int
            }),
            all_digits(body.subrange(0, i - first)),
            0 <= acc <= 40000,
            acc == if digits_value(body.subrange(0, i - first)) >= 40000 {
                40000
            } else {
                digits_value(body.subrange(0, i - first))
            },
        decreases n - i,
    {
        let c = v[i];
        if !char_is_digit(c) {
            assert(!is_digit(body[i - first]));
            return None;
        }
        proof {
            let next = body.subrange(0, i + 1 - first);
            assert(next.drop_last() =~= body.subrange(0, i - first));
            assert(next.last() == c);
        }
        let d: i32 = (c as u32 - 48) as i32;
        acc = acc * 10 + d;
        if acc > 40000 {
            acc = 40000;
        }
        i += 1;
    }
    assert(body.subrange(0, n - first) =~= body);
    if negative {
        if acc > 32768 {
            None
        } else {
            Some((0 - acc) as i16)
        }
    } else {
        if acc > 32767 {
            None
        } else {
            Some(acc as i16)
        }
    }
}

/// Computes [`parse_i16_or_zero`].
pub fn to_i16_or_zero(v: &Vec<char>) -> (r: i16)
    ensures
        r == parse_i16_or_zero(v@),
{
    match to_i16(v) {
        Some(n) => n,
        None => 0,
    }
}

/// Computes [`last_digit_value`].
pub fn last_digit(v: &Vec<char>) -> (r: i16)
    ensures
        r == last_digit_value(v@),
{
    if v.len() == 0 {
        0
    } else {
        char_digit_value(v[v.len() - 1])
    }
}

/// The characters of `a` followed by those of `b`.
pub fn joined(a: &Vec<char>, b: &Vec<char>) -> (r: Vec<char>)
    ensures
        r@ == a@ + b@,
{
    let mut r: Vec<char> = Vec::new();
    extend(&mut r, a);
    extend(&mut r, b);
    assert(r@ =~= a@ + b@);
    r
}

/// A search passes over every index at which the pattern does not occur.
pub proof fn lemma_find_skip(s: Seq<char>, pat: Seq<char>, from: int, to: int)
    requires
        0 <= from <= to,
        forall|k: int| from <= k < to ==> !matches_at(s, pat, k),
    ensures
        find_from(s, pat, from) == find_from(s, pat, to),
    decreases to - from,
{
    if from < to {
        if from + pat.len() <= s.len() {
            lemma_find_skip(s, pat, from + 1, to);
        }
    }
}

/// A one-character pattern occurs exactly where its character stands.
pub proof fn lemma_matches_char(s: Seq<char>, c: char, k: int)
    ensures
        matches_at(s, seq![c], k) <==> (0 <= k < s.len() && s[k] == c),
{
    if 0 <= k < s.len() {
        if s[k] == c {
            assert(s.subrange(k, k + 1) =~= seq![c]);
        } else {
            assert(s.subrange(k, k + 1)[0] == s[k]);
        }
    }
}

/// Stripping leaves alone a sequence that neither begins nor ends with a
/// removable character.
pub proof fn lemma_strip_fixed(s: Seq<char>, what: Strip)
    requires
        s.len() > 0 ==> !what.removes(s[0]) && !what.removes(s.last()),
    ensures
        strip(s, what) == s,
{
}

/// A single decimal digit denotes its value.
pub proof fn lemma_parse_digit(d: char)
    requires
        is_digit(d),
    ensures
        parse_i16_or_zero(seq![d]) == (d as int - 48) as i16,
{
    let s = seq![d];
    assert(s.drop_last() =~= Seq::<char>::empty());
    assert(digits_value(s.drop_last()) == 0);
    assert(digits_value(s) == d as int - 48);
    assert(all_digits(s));
}

/// The digit of the hexadecimal system for a value below 16, in lower case.
pub open spec fn hex_digit(n: int) -> char {
    if n < 10 {
        (48 + n) as u8 as char
    } else {
        (87 + n) as u8 as char
    }
}

/// The hexadecimal numeral of `n` without leading zeros.
pub open spec fn hex(n: nat) -> Seq<char>
    decreases n,
{
    if n < 16 {
        seq![hex_digit(n as int)]
    } else {
        hex(n / 16).push(hex_digit((n % 16) as int))
    }
}

/// The escaped form of one character: a backslash before a quote or a
/// backslash; `\t`, `\r`, `\n` for tab, carriage return and line feed; a
/// printable ASCII character as it is; for any other, its code point in
/// hexadecimal between `\u{` and `}`.
pub open spec fn escape_char(c: char) -> Seq<char> {
    if c == '\t' {
        seq!['\\', 't']
    } else if c == '\r' {
        seq!['\\', 'r']
    } else if c == '\n' {
        seq!['\\', 'n']
    } else if c == '\'' || c == '"' || c == '\\' {
        seq!['\\', c]
    } else if ' ' <= c && c <= '~' {
        seq![c]
    } else {
        seq!['\\', 'u', '{'] + hex(c as nat) + seq!['}']
    }
}

/// `s` with each character in its escaped form.
pub open spec fn escaped(s: Seq<char>) -> Seq<char>
    decreases s.len(),
{
    if s.len() == 0 {
        Seq::empty()
    } else {
        escaped(s.drop_last()) + escape_char(s.last())
    }
}

fn hex_digit_of(n: u32) -> (c: char)
    requires
        n < 16,
    ensures
        c == hex_digit(n as int),
{
    if n < 10 {
        (48 + n) as u8 as char
    } else {
        (87 + n) as u8 as char
    }
}

fn push_hex(out: &mut Vec<char>, n: u32)
    ensures
        final(out)@ == old(out)@ + hex(n as nat),
    decreases n,
{
    if n < 16 {
        out.push(hex_digit_of(n));
        assert(out@ =~= old(out)@ + hex(n as nat));
    } else {
        push_hex(out, n / 16);
        out.push(hex_digit_of(n % 16));
        assert(out@ =~= old(out)@ + hex(n as nat));
    }
}

fn push_escaped(out: &mut Vec<char>, c: char)
    ensures
        final(out)@ == old(out)@ + escape_char(c),
{
    if c == '\t' {
        out.push('\\');
        out.push('t');
    } else if c == '\r' {
        out.push('\\');
        out.push('r');
    } else if c == '\n' {
        out.push('\\');
        out.push('n');
    } else if c == '\'' || c == '"' || c == '\\' {
        out.push('\\');
        out.push(c);
    } else if ' ' <= c && c <= '~' {
        out.push(c);
    } else {
        out.push('\\');
        out.push('u');
        out.push('{');
        push_hex(out, c as u32);
        out.push('}');
    }
    assert(out@ =~= old(out)@ + escape_char(c));
}

/// Computes [`escaped`].
pub fn escape(v: &Vec<char>) -> (r: Vec<char>)
    ensures
        r@ == escaped(v@),
{
    let mut out: Vec<char> = Vec::new();
    let mut i: usize = 0;
    while i < v.len()
        invariant
            i <= v.len(),
            out@ == escaped(v@.subrange(0, i as int)),
        decreases v.len() - i,
    {
        proof {
            let next = v@.subrange(0, i + 1);
            assert(next.drop_last() =~= v@.subrange(0, i as int));
        }
        push_escaped(&mut out, v[i]);
        i += 1;
    }
    assert(v@.subrange(0, v.len() as int) =~= v@);
    out
}

/// The escaped form of a string: see [`escaped`].
pub fn escape_default(s: &str) -> (r: String)
    ensures
        r@ == escaped(s@),
{
    let v = chars_of(s);
    let e = escape(&v);
    string_of(&e)
}

/// `s` without the repetitions of the non-empty pattern `pat` that it
/// begins with.
pub open spec fn trim_start_pattern(s: Seq<char>, pat: Seq<char>) -> Seq<char>
    decreases s.len(),
{
    if pat.len() > 0 && starts_with(s, pat) {
        trim_start_pattern(s.subrange(pat.len() as int, s.len() as int), pat)
    } else {
        s
    }
}

/// Computes [`trim_start_pattern`].
pub fn trimmed_start_pattern(v: &Vec<char>, pat: &Vec<char>) -> (r: Vec<char>)
    ensures
        r@ == trim_start_pattern(v@, pat@),
{
    let n = v.len();
    let mut i: usize = 0;
    assert(v@.subrange(0, n as int) == v@);
    while pat.len() > 0 && occurs_at(v, pat, i)
        invariant
            i <= n,
            n == v.len(),
            trim_start_pattern(v@, pat@) == trim_start_pattern(v@.subrange(i as int, n as int), pat@),
        decreases n - i,
    {
        let ghost rest = v@.subrange(i as int, n as int);
        assert(rest.subrange(0, pat.len() as int) =~= v@.subrange(i as int, i + pat.len()));
        assert(rest.subrange(pat.len() as int, rest.len() as int) =~= v@.subrange(
            i + pat.len(),
            n as int,
        ));
        i += pat.len();
    }
    proof {
        let rest = v@.subrange(i as int, n as int);
        if pat.len() > 0 && i + pat.len() <= n {
            assert(rest.subrange(0, pat.len() as int) =~= v@.subrange(i as int, i + pat.len()));
        }
    }
    subrange(v, i, n)
}

/// The decimal numeral of `n` without leading zeros.
pub open spec fn decimal(n: nat) -> Seq<char>
    decreases n,
{
    if n < 10 {
        seq![(48 + n) as u8 as char]
    } else {
        decimal(n / 10).push((48 + n % 10) as u8 as char)
    }
}

/// Appends the decimal numeral of `n` to `out`.
pub fn push_decimal(out: &mut Vec<char>, n: usize)
    ensures
        final(out)@ == old(out)@ + decimal(n as nat),
    decreases n,
{
    if n < 10 {
        out.push((48 + n) as u8 as char);
        assert(out@ =~= old(out)@ + decimal(n as nat));
    } else {
        push_decimal(out, n / 10);
        out.push((48 + n % 10) as u8 as char);
        assert(out@ =~= old(out)@ + decimal(n as nat));
    }
}

} // verus!
