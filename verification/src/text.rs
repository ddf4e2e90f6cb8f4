//! Character-level text helpers with exact contracts.
//!
//! Strings are reasoned about through their views, sequences of `char`.
//! Searching works on `Vec<char>` copies of the text, with the position of
//! each match characterized exactly.

use vstd::prelude::*;
use vstd::string::StringExecFns;

verus! {

/// Appends one character to a string with `String::push`.
///
/// Trusted: the string's characters afterwards are the former ones followed
/// by `c`, as the standard library documents.
#[verifier::external_body]
pub(crate) fn push_char(s: &mut String, c: char)
    ensures
        final(s)@ == old(s)@.push(c),
{
    s.push(c)
}

/// Appends a string slice to a string.
pub(crate) fn push_str(s: &mut String, t: &str)
    ensures
        final(s)@ == old(s)@ + t@,
{
    s.append(t)
}

/// An empty string.
pub(crate) fn empty_string() -> (s: String)
    ensures
        s@ == Seq::<char>::empty(),
{
    String::new()
}

/// The characters of a string slice, in order.
pub fn chars_of(s: &str) -> (r: Vec<char>)
    ensures
        r@ == s@,
{
    let mut out: Vec<char> = Vec::new();
    for c in it: s.chars()
        invariant
            it.seq() == s@,
            out@ == it.seq().take(it.index() as int),
    {
        out.push(c);
    }
    out
}

/// Appends the characters `v[from..to]` to a string.
pub(crate) fn push_range(s: &mut String, v: &Vec<char>, from: usize, to: usize)
    requires
        from <= to <= v.len(),
    ensures
        final(s)@ == old(s)@ + v@.subrange(from as int, to as int),
{
    let mut i: usize = from;
    while i < to
        invariant
            from <= i <= to <= v.len(),
            s@ == old(s)@ + v@.subrange(from as int, i as int),
        decreases to - i,
    {
        push_char(s, v[i]);
        assert(v@.subrange(from as int, i + 1) == v@.subrange(from as int, i as int).push(v@[i as int]));
        i += 1;
    }
}

// ----------------------------------------------------------------------------
// Numbers as text
// ----------------------------------------------------------------------------

/// The decimal digit character for `d < 10`.
pub open spec fn digit_char(d: nat) -> char {
    if d == 0 { '0' } else if d == 1 { '1' } else if d == 2 { '2' } else if d == 3 { '3' }
    else if d == 4 { '4' } else if d == 5 { '5' } else if d == 6 { '6' } else if d == 7 { '7' }
    else if d == 8 { '8' } else { '9' }
}

/// The lowercase hexadecimal digit character for `d < 16`.
pub open spec fn hex_char(d: nat) -> char {
    if d < 10 { digit_char(d) } else if d == 10 { 'a' } else if d == 11 { 'b' }
    else if d == 12 { 'c' } else if d == 13 { 'd' } else if d == 14 { 'e' } else { 'f' }
}

/// The shortest decimal representation of `n`, as `{}` prints it.
pub open spec fn decimal(n: nat) -> Seq<char>
    decreases n,
{
    if n < 10 {
        seq![digit_char(n)]
    } else {
        decimal(n / 10).push(digit_char(n % 10))
    }
}

/// `n` in decimal, left-padded with zeros to four digits (for `n < 10000`).
pub open spec fn decimal4(n: nat) -> Seq<char> {
    seq![
        digit_char(n / 1000),
        digit_char((n / 100) % 10),
        digit_char((n / 10) % 10),
        digit_char(n % 10),
    ]
}

/// A byte as two lowercase hexadecimal digits, as `{:02x}` prints it.
pub open spec fn hex_byte(b: u8) -> Seq<char> {
    seq![hex_char(b as nat / 16), hex_char(b as nat % 16)]
}

fn digit(d: u64) -> (c: char)
    requires
        d < 10,
    ensures
        c == digit_char(d as nat),
{
    if d == 0 { '0' } else if d == 1 { '1' } else if d == 2 { '2' } else if d == 3 { '3' }
    else if d == 4 { '4' } else if d == 5 { '5' } else if d == 6 { '6' } else if d == 7 { '7' }
    else if d == 8 { '8' } else { '9' }
}

fn hex_digit(d: u8) -> (c: char)
    requires
        d < 16,
    ensures
        c == hex_char(d as nat),
{
    if d < 10 {
        digit(d as u64)
    } else if d == 10 { 'a' } else if d == 11 { 'b' } else if d == 12 { 'c' }
    else if d == 13 { 'd' } else if d == 14 { 'e' } else { 'f' }
}

/// Appends `n` in decimal.
pub(crate) fn push_decimal(s: &mut String, n: u64)
    ensures
        final(s)@ == old(s)@ + decimal(n as nat),
    decreases n,
{
    if n >= 10 {
        push_decimal(s, n / 10);
    }
    push_char(s, digit(n % 10));
    assert(final(s)@ == old(s)@ + decimal(n as nat)) by {
        if n >= 10 {
            assert(decimal(n as nat) == decimal((n / 10) as nat).push(digit_char((n % 10) as nat)));
        }
    }
}

/// Appends `n` in decimal, zero-padded to four digits.
pub(crate) fn push_decimal4(s: &mut String, n: u64)
    requires
        n < 10000,
    ensures
        final(s)@ == old(s)@ + decimal4(n as nat),
{
    push_char(s, digit(n / 1000));
    push_char(s, digit((n / 100) % 10));
    push_char(s, digit((n / 10) % 10));
    push_char(s, digit(n % 10));
    assert(final(s)@ == old(s)@ + decimal4(n as nat));
}

/// Appends a byte as two lowercase hexadecimal digits.
pub(crate) fn push_hex_byte(s: &mut String, b: u8)
    ensures
        final(s)@ == old(s)@ + hex_byte(b),
{
    push_char(s, hex_digit(b / 16));
    push_char(s, hex_digit(b % 16));
    assert(final(s)@ == old(s)@ + hex_byte(b));
}

// ----------------------------------------------------------------------------
// Searching
// ----------------------------------------------------------------------------

/// `pat` occurs in `s` starting at index `i`.
pub open spec fn matches_at(s: Seq<char>, i: int, pat: Seq<char>) -> bool {
    0 <= i && i + pat.len() <= s.len() && s.subrange(i, i + pat.len()) == pat
}

/// The first index at or after `from` where `pat` occurs in `s`.
pub open spec fn first_match_from(s: Seq<char>, pat: Seq<char>, from: int) -> Option<int>
    decreases s.len() + 1 - from,
{
    if from + pat.len() > s.len() {
        None
    } else if matches_at(s, from, pat) {
        Some(from)
    } else {
        first_match_from(s, pat, from + 1)
    }
}

/// The last index where `pat` occurs in `s`.
pub open spec fn last_match(s: Seq<char>, pat: Seq<char>) -> Option<int> {
    last_match_before(s, pat, s.len() - pat.len())
}

/// The last index `i <= upto` where `pat` occurs in `s`.
pub open spec fn last_match_before(s: Seq<char>, pat: Seq<char>, upto: int) -> Option<int>
    decreases upto + 1,
{
    if upto < 0 {
        None
    } else if matches_at(s, upto, pat) {
        Some(upto)
    } else {
        last_match_before(s, pat, upto - 1)
    }
}

/// A found index lies at or after the start of the search and is a match.
pub proof fn lemma_first_match_from(s: Seq<char>, pat: Seq<char>, from: int)
    ensures
        first_match_from(s, pat, from) matches Some(i) ==> from <= i && matches_at(s, i, pat),
        first_match_from(s, pat, from) matches Some(i) ==> forall|j: int|
            from <= j < i ==> !matches_at(s, j, pat),
        first_match_from(s, pat, from) is None ==> forall|j: int|
            from <= j ==> !matches_at(s, j, pat),
    decreases s.len() + 1 - from,
{
    if from + pat.len() > s.len() {
    } else if matches_at(s, from, pat) {
    } else {
        lemma_first_match_from(s, pat, from + 1);
    }
}

/// A match at `k` with none between `from` and `k` is the first match
/// from `from`.
pub proof fn lemma_first_match_is(s: Seq<char>, pat: Seq<char>, from: int, k: int)
    requires
        from <= k,
        matches_at(s, k, pat),
        forall|j: int| from <= j < k ==> !matches_at(s, j, pat),
    ensures
        first_match_from(s, pat, from) == Some(k),
    decreases k - from,
{
    if from < k {
        assert(!matches_at(s, from, pat));
        lemma_first_match_is(s, pat, from + 1, k);
    }
}

/// With no match at or after `from`, there is no first match.
pub proof fn lemma_no_first_match(s: Seq<char>, pat: Seq<char>, from: int)
    requires
        forall|j: int| from <= j ==> !matches_at(s, j, pat),
    ensures
        first_match_from(s, pat, from) is None,
    decreases s.len() + 1 - from,
{
    if from + pat.len() <= s.len() {
        assert(!matches_at(s, from, pat));
        lemma_no_first_match(s, pat, from + 1);
    }
}

/// Searching the tail of `a + b` is searching `b`, shifted by `a`'s length.
pub proof fn lemma_first_match_shift(a: Seq<char>, b: Seq<char>, pat: Seq<char>, i: int)
    requires
        0 <= i,
    ensures
        first_match_from(a + b, pat, a.len() + i) == match first_match_from(b, pat, i) {
            Some(k) => Some(k + a.len()),
            None => None,
        },
    decreases b.len() + 1 - i,
{
    let t = a + b;
    if a.len() + i + pat.len() <= t.len() {
        assert(t.subrange(a.len() + i, a.len() + i + pat.len()) =~= b.subrange(i, i + pat.len()));
        lemma_first_match_shift(a, b, pat, i + 1);
    }
}

/// A found index is a match and no later index up to the bound is one.
pub proof fn lemma_last_match_before(s: Seq<char>, pat: Seq<char>, upto: int)
    ensures
        last_match_before(s, pat, upto) matches Some(i) ==> i <= upto && matches_at(s, i, pat),
        last_match_before(s, pat, upto) matches Some(i) ==> forall|j: int|
            i < j <= upto ==> !matches_at(s, j, pat),
        last_match_before(s, pat, upto) is None ==> forall|j: int|
            j <= upto ==> !matches_at(s, j, pat),
    decreases upto + 1,
{
    if upto < 0 {
    } else if matches_at(s, upto, pat) {
    } else {
        lemma_last_match_before(s, pat, upto - 1);
    }
}

/// Does `pat` occur in `v` at `i`?
fn occurs_at(v: &Vec<char>, pat: &Vec<char>, i: usize) -> (r: bool)
    requires
        i + pat.len() <= v.len(),
    ensures
        r == matches_at(v@, i as int, pat@),
{
    let mut k: usize = 0;
    while k < pat.len()
        invariant
            i + pat.len() <= v.len(),
            k <= pat.len(),
            forall|m: int| 0 <= m < k ==> v@[i + m] == pat@[m],
        decreases pat.len() - k,
    {
        if v[i + k] != pat[k] {
            assert(v@.subrange(i as int, i + pat.len())[k as int] != pat@[k as int]);
            return false;
        }
        k += 1;
    }
    assert(v@.subrange(i as int, i + pat.len()) =~= pat@);
    true
}

/// The first index at or after `from` where `pat` occurs in `v`.
pub(crate) fn find_from(v: &Vec<char>, pat: &Vec<char>, from: usize) -> (r: Option<usize>)
    ensures
        match r {
            Some(i) => first_match_from(v@, pat@, from as int) == Some(i as int),
            None => first_match_from(v@, pat@, from as int) is None,
        },
{
    let mut i: usize = from;
    while i <= v.len() && pat.len() <= v.len() - i
        invariant
            from <= i,
            first_match_from(v@, pat@, from as int) == first_match_from(v@, pat@, i as int),
        decreases v.len() + 1 - i,
    {
        if occurs_at(v, pat, i) {
            return Some(i);
        }
        if i == v.len() {
            assert(first_match_from(v@, pat@, i + 1) is None);
            return None;
        }
        i += 1;
    }
    None
}

/// The last index where `pat` occurs in `v`.
pub(crate) fn rfind(v: &Vec<char>, pat: &Vec<char>) -> (r: Option<usize>)
    ensures
        match r {
            Some(i) => last_match(v@, pat@) == Some(i as int),
            None => last_match(v@, pat@) is None,
        },
{
    if pat.len() > v.len() {
        return None;
    }
    let mut i: usize = v.len() - pat.len();
    loop
        invariant
            i + pat.len() <= v.len(),
            last_match(v@, pat@) == last_match_before(v@, pat@, i as int),
        decreases i,
    {
        if occurs_at(v, pat, i) {
            return Some(i);
        }
        if i == 0 {
            assert(last_match_before(v@, pat@, -1) is None);
            return None;
        }
        i -= 1;
    }
}

/// Whether two string slices hold the same characters.
pub fn str_equals(a: &str, b: &str) -> (r: bool)
    ensures
        r == (a@ == b@),
{
    let va = chars_of(a);
    let vb = chars_of(b);
    if va.len() != vb.len() {
        return false;
    }
    let mut i: usize = 0;
    while i < va.len()
        invariant
            va@ == a@,
            vb@ == b@,
            va.len() == vb.len(),
            i <= va.len(),
            forall|k: int| 0 <= k < i ==> va@[k] == vb@[k],
        decreases va.len() - i,
    {
        if va[i] != vb[i] {
            return false;
        }
        i += 1;
    }
    assert(va@ =~= vb@);
    true
}

// ----------------------------------------------------------------------------
// Trimming
// ----------------------------------------------------------------------------

/// Whether `c` has the Unicode `White_Space` property, as
/// `char::is_whitespace` decides it.
pub open spec fn is_white_space(c: char) -> bool {
    let n: u32 = c as u32;
    (0x9 <= n && n <= 0xD) || n == 0x20 || n == 0x85 || n == 0xA0 || n == 0x1680
        || (0x2000 <= n && n <= 0x200A) || n == 0x2028 || n == 0x2029 || n == 0x202F || n == 0x205F
        || n == 0x3000
}

/// `s` without its leading white space.
pub open spec fn trim_start_of(s: Seq<char>) -> Seq<char>
    decreases s.len(),
{
    if s.len() > 0 && is_white_space(s[0]) {
        trim_start_of(s.skip(1))
    } else {
        s
    }
}

/// `s` without its trailing white space.
pub open spec fn trim_end_of(s: Seq<char>) -> Seq<char>
    decreases s.len(),
{
    if s.len() > 0 && is_white_space(s.last()) {
        trim_end_of(s.drop_last())
    } else {
        s
    }
}

/// `s` without leading and trailing white space, as `str::trim` gives it.
pub open spec fn trimmed(s: Seq<char>) -> Seq<char> {
    trim_end_of(trim_start_of(s))
}

/// Whether a character has the Unicode `White_Space` property.
pub fn white_space(c: char) -> (r: bool)
    ensures
        r == is_white_space(c),
{
    let n: u32 = c as u32;
    (0x9 <= n && n <= 0xD) || n == 0x20 || n == 0x85 || n == 0xA0 || n == 0x1680
        || (0x2000 <= n && n <= 0x200A) || n == 0x2028 || n == 0x2029 || n == 0x202F || n == 0x205F
        || n == 0x3000
}

/// The text without leading and trailing white space.
pub fn trim(s: &str) -> (r: String)
    ensures
        r@ == trimmed(s@),
{
    let v = chars_of(s);
    let n: usize = v.len();
    let mut i: usize = 0;
    assert(s@.skip(0) =~= s@);
    while i < n && white_space(v[i])
        invariant
            v@ == s@,
            n == v@.len(),
            i <= n,
            trim_start_of(s@) == trim_start_of(s@.skip(i as int)),
        decreases n - i,
    {
        assert(s@.skip(i as int).skip(1) =~= s@.skip(i + 1));
        i += 1;
    }
    assert(trim_start_of(s@.skip(i as int)) == s@.skip(i as int));
    let ghost start = s@.skip(i as int);
    assert(start =~= s@.subrange(i as int, n as int));
    let mut j: usize = n;
    while j > i && white_space(v[j - 1])
        invariant
            v@ == s@,
            n == v@.len(),
            i <= j <= n,
            start == s@.skip(i as int),
            trim_end_of(start) == trim_end_of(s@.subrange(i as int, j as int)),
        decreases j - i,
    {
        assert(s@.subrange(i as int, j as int).drop_last() =~= s@.subrange(i as int, j - 1));
        j -= 1;
    }
    assert(trim_end_of(s@.subrange(i as int, j as int)) == s@.subrange(i as int, j as int));
    let mut out = empty_string();
    push_range(&mut out, &v, i, j);
    assert(out@ =~= s@.subrange(i as int, j as int));
    out
}

} // verus!
