//! Character-sequence helpers shared by the rest of the library.
//!
//! Text is handled as `Vec<char>` / `Seq<char>` inside the library and turned
//! back into `String` at the edges, so every contract can speak about the
//! exact characters produced.

use vstd::prelude::*;

verus! {

/// `p` is a prefix of `s`.
pub open spec fn has_prefix(s: Seq<char>, p: Seq<char>) -> bool {
    p.len() <= s.len() && s.subrange(0, p.len() as int) == p
}

/// `p` is a suffix of `s`.
pub open spec fn has_suffix(s: Seq<char>, p: Seq<char>) -> bool {
    p.len() <= s.len() && s.subrange(s.len() - p.len(), s.len() as int) == p
}

/// `c` occurs somewhere in `s`.
pub open spec fn has_char(s: Seq<char>, c: char) -> bool {
    exists|i: int| 0 <= i < s.len() && s[i] == c
}

/// Index of the first occurrence of `c` in `s`, if any.
pub open spec fn first_index_of(s: Seq<char>, c: char) -> Option<int> {
    if has_char(s, c) {
        Some(choose|i: int| 0 <= i < s.len() && s[i] == c && forall|j: int| 0 <= j < i ==> s[j] != c)
    } else {
        None
    }
}

proof fn lemma_first_occurrence_exists(s: Seq<char>, c: char)
    requires
        has_char(s, c),
    ensures
        exists|i: int| 0 <= i < s.len() && s[i] == c && forall|j: int| 0 <= j < i ==> s[j] != c,
    decreases s.len(),
{
    if s[0] != c {
        let t = s.drop_first();
        let k = choose|k: int| 0 <= k < s.len() && s[k] == c;
        assert(t[k - 1] == c);
        lemma_first_occurrence_exists(t, c);
        let k2 = choose|i: int| 0 <= i < t.len() && t[i] == c && forall|j: int| 0 <= j < i ==> t[j] != c;
        assert forall|j: int| 0 <= j < k2 + 1 implies s[j] != c by {
            if j > 0 {
                assert(s[j] == t[j - 1]);
            }
        }
        assert(s[k2 + 1] == t[k2]);
    }
}

/// When `c` occurs in `s`, `first_index_of` finds its first occurrence.
pub proof fn lemma_first_index_of_found(s: Seq<char>, c: char)
    requires
        has_char(s, c),
    ensures
        first_index_of(s, c) matches Some(i) && 0 <= i < s.len() && s[i] == c && forall|j: int|
            0 <= j < i ==> s[j] != c,
{
    lemma_first_occurrence_exists(s, c);
}

/// Unicode `White_Space` characters (what `char::is_whitespace` accepts).
pub open spec fn is_ws(c: char) -> bool {
    ||| c == ' '
    ||| ('\t' <= c && c <= '\r')
    ||| c == '\u{85}'
    ||| c == '\u{a0}'
    ||| c == '\u{1680}'
    ||| ('\u{2000}' <= c && c <= '\u{200a}')
    ||| c == '\u{2028}'
    ||| c == '\u{2029}'
    ||| c == '\u{202f}'
    ||| c == '\u{205f}'
    ||| c == '\u{3000}'
}

/// Number of leading whitespace characters of `s`.
pub open spec fn lead_ws(s: Seq<char>) -> nat
    decreases s.len(),
{
    if s.len() > 0 && is_ws(s[0]) {
        1 + lead_ws(s.drop_first())
    } else {
        0
    }
}

/// Number of trailing whitespace characters of `s`.
pub open spec fn trail_ws(s: Seq<char>) -> nat
    decreases s.len(),
{
    if s.len() > 0 && is_ws(s.last()) {
        1 + trail_ws(s.drop_last())
    } else {
        0
    }
}

/// `s` with leading and trailing whitespace removed (`str::trim`).
pub open spec fn trim(s: Seq<char>) -> Seq<char> {
    let a = lead_ws(s);
    if a == s.len() {
        Seq::empty()
    } else {
        s.subrange(a as int, s.len() - trail_ws(s))
    }
}

/// Every character of `s` is whitespace.
pub open spec fn all_ws(s: Seq<char>) -> bool {
    forall|i: int| 0 <= i < s.len() ==> is_ws(s[i])
}

pub open spec fn is_ascii_lower(c: char) -> bool {
    'a' <= c && c <= 'z'
}

pub open spec fn is_ascii_upper(c: char) -> bool {
    'A' <= c && c <= 'Z'
}

pub open spec fn is_ascii_digit(c: char) -> bool {
    '0' <= c && c <= '9'
}

/// `char::to_ascii_lowercase`.
pub open spec fn ascii_lower(c: char) -> char {
    if is_ascii_upper(c) {
        ((c as u32) + 32) as char
    } else {
        c
    }
}

/// The characters of `s`, in order.
pub fn chars_of(s: &str) -> (res: Vec<char>)
    ensures
        res@ == s@,
{
    let mut res: Vec<char> = Vec::new();
    for c in it: s.chars()
        invariant
            res@ == it.seq().take(it.index() as int),
    {
        res.push(c);
    }
    res
}

/// Appends one character to a `String` (std's `String::push`).
#[verifier::external_body]
pub(crate) fn push_char(s: &mut String, c: char)
    ensures
        final(s)@ == old(s)@.push(c),
{
    s.push(c)
}

/// A `String` holding exactly the characters of `v`.
pub fn string_of(v: &[char]) -> (res: String)
    ensures
        res@ == v@,
{
    let mut res = String::new();
    for i in 0..v.len()
        invariant
            res@ == v@.take(i as int),
    {
        push_char(&mut res, v[i]);
        assert(v@.take(i + 1) == v@.take(i as int).push(v@[i as int]));
    }
    assert(v@.take(v@.len() as int) == v@);
    res
}

/// A fresh `String` equal to `s`.
pub fn owned(s: &str) -> (res: String)
    ensures
        res@ == s@,
{
    s.to_owned()
}

/// Appends the characters of `src` to `dst`.
pub fn extend_chars(dst: &mut Vec<char>, src: &[char])
    ensures
        final(dst)@ == old(dst)@ + src@,
{
    for i in 0..src.len()
        invariant
            dst@ == old(dst)@ + src@.take(i as int),
    {
        dst.push(src[i]);
        assert(src@.take(i + 1) == src@.take(i as int).push(src@[i as int]));
    }
    assert(src@.take(src@.len() as int) == src@);
}

/// Appends the characters of `src` to `dst`.
pub fn extend_str(dst: &mut Vec<char>, src: &str)
    ensures
        final(dst)@ == old(dst)@ + src@,
{
    let v = chars_of(src);
    extend_chars(dst, v.as_slice());
}

/// Concatenation of two texts.
pub fn concat2(a: &str, b: &str) -> (res: String)
    ensures
        res@ == a@ + b@,
{
    let mut v = chars_of(a);
    extend_str(&mut v, b);
    string_of(v.as_slice())
}

/// The sub-sequence `v[from..to]`.
pub fn slice_chars(v: &[char], from: usize, to: usize) -> (res: Vec<char>)
    requires
        from <= to <= v@.len(),
    ensures
        res@ == v@.subrange(from as int, to as int),
{
    let mut res: Vec<char> = Vec::new();
    let mut i = from;
    while i < to
        invariant
            from <= i <= to <= v@.len(),
            res@ == v@.subrange(from as int, i as int),
        decreases to - i,
    {
        res.push(v[i]);
        assert(v@.subrange(from as int, i + 1) == v@.subrange(from as int, i as int).push(v@[i as int]));
        i = i + 1;
    }
    res
}

/// Whether `v` starts with `p`.
pub fn starts_with(v: &[char], p: &[char]) -> (res: bool)
    ensures
        res == has_prefix(v@, p@),
{
    if p.len() > v.len() {
        return false;
    }
    let mut i: usize = 0;
    while i < p.len()
        invariant
            p@.len() <= v@.len(),
            i <= p@.len(),
            forall|j: int| 0 <= j < i ==> v@[j] == p@[j],
        decreases p.len() - i,
    {
        if v[i] != p[i] {
            assert(v@.subrange(0, p@.len() as int)[i as int] != p@[i as int]);
            return false;
        }
        i = i + 1;
    }
    assert(v@.subrange(0, p@.len() as int) =~= p@);
    true
}

/// Whether `v` ends with `p`.
pub fn ends_with(v: &[char], p: &[char]) -> (res: bool)
    ensures
        res == has_suffix(v@, p@),
{
    if p.len() > v.len() {
        return false;
    }
    let off = v.len() - p.len();
    let mut i: usize = 0;
    while i < p.len()
        invariant
            p@.len() <= v@.len(),
            off == v@.len() - p@.len(),
            off + p.len() == v.len(),
            i <= p@.len(),
            forall|j: int| 0 <= j < i ==> v@[off + j] == p@[j],
        decreases p.len() - i,
    {
        if v[off + i] != p[i] {
            assert(v@.subrange(off as int, v@.len() as int)[i as int] != p@[i as int]);
            return false;
        }
        i = i + 1;
    }
    assert(v@.subrange(off as int, v@.len() as int) =~= p@);
    true
}

/// Whether `v` starts with the text `p`.
pub fn starts_with_str(v: &[char], p: &str) -> (res: bool)
    ensures
        res == has_prefix(v@, p@),
{
    let pv = chars_of(p);
    starts_with(v, pv.as_slice())
}

/// Whether `v` ends with the text `p`.
pub fn ends_with_str(v: &[char], p: &str) -> (res: bool)
    ensures
        res == has_suffix(v@, p@),
{
    let pv = chars_of(p);
    ends_with(v, pv.as_slice())
}

/// Whether `v` and `w` hold the same characters.
pub fn chars_eq(v: &[char], w: &[char]) -> (res: bool)
    ensures
        res == (v@ == w@),
{
    if v.len() != w.len() {
        return false;
    }
    let mut i: usize = 0;
    while i < v.len()
        invariant
            v@.len() == w@.len(),
            i <= v@.len(),
            forall|j: int| 0 <= j < i ==> v@[j] == w@[j],
        decreases v.len() - i,
    {
        if v[i] != w[i] {
            return false;
        }
        i = i + 1;
    }
    assert(v@ =~= w@);
    true
}

/// Whether `v` holds exactly the text `s`.
pub fn chars_eq_str(v: &[char], s: &str) -> (res: bool)
    ensures
        res == (v@ == s@),
{
    let sv = chars_of(s);
    chars_eq(v, sv.as_slice())
}

/// Whether two texts are equal.
pub fn str_eq(a: &str, b: &str) -> (res: bool)
    ensures
        res == (a@ == b@),
{
    let av = chars_of(a);
    let bv = chars_of(b);
    chars_eq(av.as_slice(), bv.as_slice())
}

/// Whether `c` occurs in `v`.
pub fn contains_char(v: &[char], c: char) -> (res: bool)
    ensures
        res == has_char(v@, c),
{
    let mut i: usize = 0;
    while i < v.len()
        invariant
            i <= v@.len(),
            forall|j: int| 0 <= j < i ==> v@[j] != c,
        decreases v.len() - i,
    {
        if v[i] == c {
            return true;
        }
        i = i + 1;
    }
    false
}

/// Position of the first `c` in `v`.
pub fn find_char(v: &[char], c: char) -> (res: Option<usize>)
    ensures
        match res {
            Some(i) => i < v@.len() && v@[i as int] == c && forall|j: int| 0 <= j < i ==> v@[j] != c,
            None => !has_char(v@, c),
        },
        res matches Some(i) ==> first_index_of(v@, c) == Some(i as int),
        res is None ==> first_index_of(v@, c) is None,
{
    let mut i: usize = 0;
    while i < v.len()
        invariant
            i <= v@.len(),
            forall|j: int| 0 <= j < i ==> v@[j] != c,
        decreases v.len() - i,
    {
        if v[i] == c {
            proof {
                assert(has_char(v@, c));
                let k = choose|k: int| 0 <= k < v@.len() && v@[k] == c && forall|j: int| 0 <= j < k ==> v@[j] != c;
                assert(k == i) by {
                    if k < i {
                        assert(v@[k] != c);
                    } else if k > i {
                        assert(v@[i as int] != c);
                    }
                }
            }
            return Some(i);
        }
        i = i + 1;
    }
    proof { false_or_none(v, c); }
    None
}

proof fn false_or_none(v: &[char], c: char)
    requires
        forall|j: int| 0 <= j < v@.len() ==> v@[j] != c,
    ensures
        !has_char(v@, c),
{
}

/// Executable form of `is_ws`.
pub fn is_whitespace(c: char) -> (res: bool)
    ensures
        res == is_ws(c),
{
    c == ' ' || ('\t' <= c && c <= '\r') || c == '\u{85}' || c == '\u{a0}' || c == '\u{1680}'
        || ('\u{2000}' <= c && c <= '\u{200a}') || c == '\u{2028}' || c == '\u{2029}' || c
        == '\u{202f}' || c == '\u{205f}' || c == '\u{3000}'
}

proof fn lemma_lead_ws(s: Seq<char>, k: int)
    requires
        0 <= k <= s.len(),
        forall|j: int| 0 <= j < k ==> is_ws(s[j]),
        k == s.len() || !is_ws(s[k]),
    ensures
        lead_ws(s) == k,
    decreases k,
{
    if k > 0 {
        lemma_lead_ws(s.drop_first(), k - 1);
    }
}

proof fn lemma_trail_ws(s: Seq<char>, k: int)
    requires
        0 <= k <= s.len(),
        forall|j: int| s.len() - k <= j < s.len() ==> is_ws(s[j]),
        k == s.len() || !is_ws(s[s.len() - k - 1]),
    ensures
        trail_ws(s) == k,
    decreases k,
{
    if k > 0 {
        lemma_trail_ws(s.drop_last(), k - 1);
    }
}

proof fn lemma_lead_prefix(s: Seq<char>)
    ensures
        forall|j: int| 0 <= j < lead_ws(s) ==> is_ws(#[trigger] s[j]),
        lead_ws(s) <= s.len(),
        lead_ws(s) < s.len() ==> !is_ws(s[lead_ws(s) as int]),
    decreases s.len(),
{
    if s.len() > 0 && is_ws(s[0]) {
        lemma_lead_prefix(s.drop_first());
        assert forall|j: int| 0 <= j < lead_ws(s) implies is_ws(#[trigger] s[j]) by {
            if j > 0 {
                assert(s[j] == s.drop_first()[j - 1]);
            }
        }
    }
}

proof fn lemma_trail_suffix(s: Seq<char>)
    ensures
        forall|j: int| s.len() - trail_ws(s) <= j < s.len() ==> is_ws(#[trigger] s[j]),
        trail_ws(s) <= s.len(),
        trail_ws(s) < s.len() ==> !is_ws(s[s.len() - trail_ws(s) - 1]),
    decreases s.len(),
{
    if s.len() > 0 && is_ws(s.last()) {
        lemma_trail_suffix(s.drop_last());
        assert forall|j: int| s.len() - trail_ws(s) <= j < s.len() implies is_ws(#[trigger] s[j]) by {
            if j < s.len() - 1 {
                assert(s[j] == s.drop_last()[j]);
            }
        }
    }
}

proof fn lemma_lead_trail(s: Seq<char>)
    requires
        lead_ws(s) < s.len(),
    ensures
        lead_ws(s) + trail_ws(s) < s.len(),
{
    lemma_lead_prefix(s);
    lemma_trail_suffix(s);
    let a = lead_ws(s) as int;
    if a + trail_ws(s) >= s.len() {
        assert(s.len() - trail_ws(s) <= a);
        assert(is_ws(s[a]));
    }
}

/// `trim` of `v` (`str::trim`).
pub fn trim_chars(v: &[char]) -> (res: Vec<char>)
    ensures
        res@ == trim(v@),
{
    let n = v.len();
    let mut a: usize = 0;
    while a < n && is_whitespace(v[a])
        invariant
            n == v@.len(),
            a <= n,
            forall|j: int| 0 <= j < a ==> is_ws(v@[j]),
        decreases n - a,
    {
        a = a + 1;
    }
    proof {
        lemma_lead_ws(v@, a as int);
    }
    if a == n {
        return Vec::new();
    }
    let mut b: usize = 0;
    while b < n && is_whitespace(v[n - 1 - b])
        invariant
            n == v@.len(),
            b <= n,
            forall|j: int| n - b <= j < n ==> is_ws(v@[j]),
        decreases n - b,
    {
        b = b + 1;
    }
    proof {
        lemma_trail_ws(v@, b as int);
        lemma_lead_trail(v@);
    }
    slice_chars(v, a, n - b)
}

/// Whether `v` is empty or all whitespace (`s.trim().is_empty()`).
pub fn is_blank(v: &[char]) -> (res: bool)
    ensures
        res == (trim(v@).len() == 0),
        res == all_ws(v@),
{
    let t = trim_chars(v);
    proof {
        lemma_lead_prefix(v@);
        if lead_ws(v@) < v@.len() {
            lemma_lead_trail(v@);
            assert(!is_ws(v@[lead_ws(v@) as int]));
            assert(trim(v@).len() > 0);
        }
    }
    t.len() == 0
}

/// `to_ascii_lowercase` of one character.
pub fn lower_ascii(c: char) -> (res: char)
    ensures
        res == ascii_lower(c),
{
    if 'A' <= c && c <= 'Z' {
        let u = (c as u32) + 32;
        proof {
            assert(0x61 <= u <= 0x7a);
        }
        char_from_ascii(u)
    } else {
        c
    }
}

/// The character with an ASCII code point `u`.
fn char_from_ascii(u: u32) -> (res: char)
    requires
        u < 128,
    ensures
        res == u as char,
{
    let b = u as u8;
    b as char
}

/// Decimal digits of `n`, most significant first.
pub open spec fn decimal(n: nat) -> Seq<char>
    decreases n,
{
    if n < 10 {
        seq![digit_char(n)]
    } else {
        decimal(n / 10).push(digit_char(n % 10))
    }
}

pub open spec fn digit_char(d: nat) -> char {
    (('0' as u32) + d) as char
}

/// Decimal rendering of `n` (what `format!("{n}")` prints).
pub fn decimal_of(n: u64) -> (res: Vec<char>)
    ensures
        res@ == decimal(n as nat),
    decreases n,
{
    let d = n % 10;
    let c = char_from_ascii((48 + d) as u32);
    if n < 10 {
        let mut v = Vec::new();
        v.push(c);
        v
    } else {
        let mut v = decimal_of(n / 10);
        v.push(c);
        v
    }
}


/// What `format!("{:?}", s)` prints for a text `s` (quoted, with escapes).
pub uninterp spec fn spec_debug_text(s: Seq<char>) -> Seq<char>;

/// `format!("{:?}", s)`: std's `Debug` rendering of a `str`. Its result is
/// a function of `s` alone and is only named here, not spelled out.
#[verifier::external_body]
pub(crate) fn debug_text(s: &str) -> (res: String)
    ensures
        res@ == spec_debug_text(s@),
{
    format!("{:?}", s)
}

/// Number of leading non-whitespace characters of `s`.
pub open spec fn lead_non_ws(s: Seq<char>) -> nat
    decreases s.len(),
{
    if s.len() > 0 && !is_ws(s[0]) {
        1 + lead_non_ws(s.drop_first())
    } else {
        0
    }
}

/// The first whitespace-separated word of an already trimmed text
/// (`split_whitespace().next()`, or empty).
pub open spec fn first_word(s: Seq<char>) -> Seq<char> {
    s.take(lead_non_ws(s) as int)
}

proof fn lemma_lead_non_ws(s: Seq<char>, k: int)
    requires
        0 <= k <= s.len(),
        forall|j: int| 0 <= j < k ==> !is_ws(s[j]),
        k == s.len() || is_ws(s[k]),
    ensures
        lead_non_ws(s) == k,
    decreases k,
{
    if k > 0 {
        lemma_lead_non_ws(s.drop_first(), k - 1);
    }
}

/// Executable `first_word`.
pub fn first_word_chars(v: &[char]) -> (res: Vec<char>)
    ensures
        res@ == first_word(v@),
{
    let mut k: usize = 0;
    while k < v.len() && !is_whitespace(v[k])
        invariant
            k <= v@.len(),
            forall|j: int| 0 <= j < k ==> !is_ws(v@[j]),
        decreases v.len() - k,
    {
        k = k + 1;
    }
    proof {
        lemma_lead_non_ws(v@, k as int);
    }
    slice_chars(v, 0, k)
}

/// The first line of `s` as `str::lines` yields it (text before the first
/// `\n`, without a `\r` directly before that `\n`), or the whole text when
/// there is no `\n`.
pub open spec fn first_line(s: Seq<char>) -> Seq<char> {
    match first_index_of(s, '\n') {
        Some(i) => if i > 0 && s[i - 1] == '\r' {
            s.take(i - 1)
        } else {
            s.take(i)
        },
        None => s,
    }
}

/// Executable `first_line`.
pub fn first_line_chars(v: &[char]) -> (res: Vec<char>)
    ensures
        res@ == first_line(v@),
{
    match find_char(v, '\n') {
        Some(i) => if i > 0 && v[i - 1] == '\r' {
            slice_chars(v, 0, i - 1)
        } else {
            slice_chars(v, 0, i)
        },
        None => slice_chars(v, 0, v.len()),
    }
}


/// `p` occurs in `s` at position `i`.
pub open spec fn occurs_at(s: Seq<char>, p: Seq<char>, i: int) -> bool {
    0 <= i && i + p.len() <= s.len() && s.subrange(i, i + p.len() as int) == p
}

/// `p` occurs somewhere in `s` (`str::contains`).
pub open spec fn has_substr(s: Seq<char>, p: Seq<char>) -> bool {
    exists|i: int| occurs_at(s, p, i)
}

pub fn matches_at(v: &[char], p: &[char], i: usize) -> (res: bool)
    requires
        i + p@.len() <= v@.len(),
        i + p.len() <= v.len(),
    ensures
        res == occurs_at(v@, p@, i as int),
{
    let mut j: usize = 0;
    while j < p.len()
        invariant
            i + p@.len() <= v@.len(),
            i + p.len() <= v.len(),
            j <= p@.len(),
            forall|k: int| 0 <= k < j ==> v@[i + k] == p@[k],
        decreases p.len() - j,
    {
        if v[i + j] != p[j] {
            assert(v@.subrange(i as int, i + p@.len())[j as int] != p@[j as int]);
            return false;
        }
        j = j + 1;
    }
    assert(v@.subrange(i as int, i + p@.len()) =~= p@);
    true
}

/// Whether the text `p` occurs in `v`.
pub fn contains_str(v: &[char], p: &str) -> (res: bool)
    ensures
        res == has_substr(v@, p@),
{
    let pv = chars_of(p);
    if pv.len() > v.len() {
        return false;
    }
    let last = v.len() - pv.len();
    let mut i: usize = 0;
    while i < last
        invariant
            last == v@.len() - pv@.len(),
            last + pv.len() == v.len(),
            pv@ == p@,
            i <= last,
            forall|k: int| 0 <= k < i ==> !occurs_at(v@, pv@, k),
        decreases last - i,
    {
        if matches_at(v, pv.as_slice(), i) {
            assert(occurs_at(v@, pv@, i as int));
            assert(pv@ == p@);
            return true;
        }
        i = i + 1;
    }
    if matches_at(v, pv.as_slice(), last) {
        assert(occurs_at(v@, p@, last as int));
        return true;
    }
    assert(!has_substr(v@, pv@)) by {
        assert forall|k: int| !occurs_at(v@, pv@, k) by {
            if 0 <= k <= last {
                if k < i {
                } else {
                    assert(k == last);
                }
            }
        }
    }
    false
}

/// Whether some character of `v` is whitespace.
pub fn any_whitespace(v: &[char]) -> (res: bool)
    ensures
        res == exists|i: int| 0 <= i < v@.len() && is_ws(#[trigger] v@[i]),
{
    let mut i: usize = 0;
    while i < v.len()
        invariant
            i <= v@.len(),
            forall|k: int| 0 <= k < i ==> !is_ws(#[trigger] v@[k]),
        decreases v.len() - i,
    {
        if is_whitespace(v[i]) {
            return true;
        }
        i = i + 1;
    }
    false
}

/// `s` without its leading whitespace.
pub open spec fn skip_ws(s: Seq<char>) -> Seq<char> {
    s.skip(lead_ws(s) as int)
}

/// The first whitespace-separated word of `s` (empty when there is none).
pub open spec fn word0(s: Seq<char>) -> Seq<char> {
    first_word(skip_ws(s))
}

/// What follows the first word of `s`.
pub open spec fn after_word0(s: Seq<char>) -> Seq<char> {
    let t = skip_ws(s);
    t.skip(lead_non_ws(t) as int)
}

/// The second whitespace-separated word of `s` (empty when there is none).
pub open spec fn word1(s: Seq<char>) -> Seq<char> {
    word0(after_word0(s))
}

proof fn lemma_lead_ws_bound(s: Seq<char>)
    ensures
        lead_ws(s) <= s.len(),
    decreases s.len(),
{
    if s.len() > 0 && is_ws(s[0]) {
        lemma_lead_ws_bound(s.drop_first());
    }
}

proof fn lemma_lead_non_ws_bound(s: Seq<char>)
    ensures
        lead_non_ws(s) <= s.len(),
    decreases s.len(),
{
    if s.len() > 0 && !is_ws(s[0]) {
        lemma_lead_non_ws_bound(s.drop_first());
    }
}

/// `skip_ws` of `v`.
pub fn skip_ws_chars(v: &[char]) -> (res: Vec<char>)
    ensures
        res@ == skip_ws(v@),
{
    let mut a: usize = 0;
    while a < v.len() && is_whitespace(v[a])
        invariant
            a <= v@.len(),
            forall|j: int| 0 <= j < a ==> is_ws(v@[j]),
        decreases v.len() - a,
    {
        a = a + 1;
    }
    proof {
        lemma_lead_ws(v@, a as int);
    }
    slice_chars(v, a, v.len())
}

/// The first word of `v` and what follows it.
pub fn split_word(v: &[char]) -> (res: (Vec<char>, Vec<char>))
    ensures
        res.0@ == word0(v@),
        res.1@ == after_word0(v@),
{
    let t = skip_ws_chars(v);
    let mut k: usize = 0;
    while k < t.len() && !is_whitespace(t[k])
        invariant
            k <= t@.len(),
            forall|j: int| 0 <= j < k ==> !is_ws(t@[j]),
        decreases t.len() - k,
    {
        k = k + 1;
    }
    proof {
        lemma_lead_non_ws(t@, k as int);
    }
    (slice_chars(t.as_slice(), 0, k), slice_chars(t.as_slice(), k, t.len()))
}

/// The text after the first `\n` of `s` (empty when there is none).
pub open spec fn after_line(s: Seq<char>) -> Seq<char>
    decreases s.len(),
{
    if s.len() == 0 {
        Seq::empty()
    } else if s[0] == '\n' {
        s.drop_first()
    } else {
        after_line(s.drop_first())
    }
}

/// `after_line` shortens a non-empty text.
pub proof fn lemma_after_line_shorter(s: Seq<char>)
    requires
        s.len() > 0,
    ensures
        after_line(s).len() < s.len(),
    decreases s.len(),
{
    if s[0] != '\n' {
        if s.len() > 1 {
            lemma_after_line_shorter(s.drop_first());
        } else {
            assert(after_line(s.drop_first()).len() == 0);
        }
    }
}

proof fn lemma_after_line_at(s: Seq<char>, i: int)
    requires
        0 <= i < s.len(),
        s[i] == '\n',
        forall|j: int| 0 <= j < i ==> s[j] != '\n',
    ensures
        after_line(s) == s.skip(i + 1),
    decreases i,
{
    if i > 0 {
        lemma_after_line_at(s.drop_first(), i - 1);
        assert(s.drop_first().skip(i) =~= s.skip(i + 1));
    }
}

proof fn lemma_after_line_none(s: Seq<char>)
    requires
        forall|j: int| 0 <= j < s.len() ==> s[j] != '\n',
    ensures
        after_line(s).len() == 0,
    decreases s.len(),
{
    if s.len() > 0 {
        lemma_after_line_none(s.drop_first());
    }
}

/// `after_line` of `v`.
pub fn after_line_chars(v: &[char]) -> (res: Vec<char>)
    ensures
        res@ == after_line(v@),
{
    match find_char(v, '\n') {
        Some(i) => {
            let n = v.len();
            assert(i < n);
            proof {
                lemma_after_line_at(v@, i as int);
            }
            slice_chars(v, i + 1, n)
        },
        None => {
            proof {
                lemma_after_line_none(v@);
            }
            Vec::new()
        },
    }
}

/// `a` sorts strictly before `b` in lexicographic code-point order (which
/// is also the byte order of their UTF-8 encodings).
pub open spec fn lex_lt(a: Seq<char>, b: Seq<char>) -> bool
    decreases a.len(),
{
    if a.len() == 0 {
        b.len() > 0
    } else if b.len() == 0 {
        false
    } else if a[0] != b[0] {
        a[0] < b[0]
    } else {
        lex_lt(a.drop_first(), b.drop_first())
    }
}

/// `lex_lt` is irreflexive and asymmetric.
pub proof fn lemma_lex_asym(a: Seq<char>, b: Seq<char>)
    ensures
        !(lex_lt(a, b) && lex_lt(b, a)),
        !lex_lt(a, a),
    decreases a.len(),
{
    if a.len() > 0 && b.len() > 0 && a[0] == b[0] {
        lemma_lex_asym(a.drop_first(), b.drop_first());
    }
    if a.len() > 0 {
        lemma_lex_asym(a.drop_first(), a.drop_first());
    }
}

/// Two texts that are not ordered either way are equal.
pub proof fn lemma_lex_total(a: Seq<char>, b: Seq<char>)
    ensures
        a != b ==> lex_lt(a, b) || lex_lt(b, a),
    decreases a.len(),
{
    if a.len() > 0 && b.len() > 0 && a[0] == b[0] {
        lemma_lex_total(a.drop_first(), b.drop_first());
        if a.drop_first() == b.drop_first() {
            assert(a =~= seq![a[0]] + a.drop_first());
            assert(b =~= seq![b[0]] + b.drop_first());
        }
    }
    if a.len() == 0 && b.len() == 0 {
        assert(a =~= b);
    }
}

/// `lex_lt` is transitive.
pub proof fn lemma_lex_trans(a: Seq<char>, b: Seq<char>, c: Seq<char>)
    requires
        lex_lt(a, b),
        lex_lt(b, c),
    ensures
        lex_lt(a, c),
    decreases a.len(),
{
    if a.len() > 0 && b.len() > 0 && c.len() > 0 && a[0] == b[0] && b[0] == c[0] {
        lemma_lex_trans(a.drop_first(), b.drop_first(), c.drop_first());
    }
}

/// Not-below is transitive.
pub proof fn lemma_lex_le_trans(a: Seq<char>, b: Seq<char>, c: Seq<char>)
    requires
        !lex_lt(b, a),
        !lex_lt(c, b),
    ensures
        !lex_lt(c, a),
{
    lemma_lex_total(a, b);
    lemma_lex_total(b, c);
    if lex_lt(c, a) {
        if a != b && b != c {
            lemma_lex_trans(a, b, c);
            lemma_lex_asym(a, c);
        } else if a == b {
            assert(!lex_lt(c, b));
        } else {
            assert(!lex_lt(b, a));
        }
    }
}

/// Whether `a` sorts strictly before `b` (`lex_lt`).
pub fn lex_less(a: &str, b: &str) -> (res: bool)
    ensures
        res == lex_lt(a@, b@),
{
    let x = chars_of(a);
    let y = chars_of(b);
    let mut i: usize = 0;
    assert(x@.skip(0) =~= x@ && y@.skip(0) =~= y@);
    while i < x.len() && i < y.len() && x[i] == y[i]
        invariant
            i <= x@.len(),
            i <= y@.len(),
            x@ == a@,
            y@ == b@,
            lex_lt(x@, y@) == lex_lt(x@.skip(i as int), y@.skip(i as int)),
        decreases x.len() - i,
    {
        proof {
            let xs = x@.skip(i as int);
            let ys = y@.skip(i as int);
            assert(xs.drop_first() =~= x@.skip(i + 1));
            assert(ys.drop_first() =~= y@.skip(i + 1));
        }
        i = i + 1;
    }
    let xs = Ghost(x@.skip(i as int));
    let ys = Ghost(y@.skip(i as int));
    if i == x.len() {
        i < y.len()
    } else if i == y.len() {
        false
    } else {
        assert(xs@[0] == x@[i as int] && ys@[0] == y@[i as int]);
        x[i] < y[i]
    }
}

/// The parts joined with `sep` between them.
pub open spec fn joined_by(parts: Seq<Seq<char>>, sep: Seq<char>) -> Seq<char>
    decreases parts.len(),
{
    if parts.len() == 0 {
        Seq::empty()
    } else if parts.len() == 1 {
        parts[0]
    } else {
        joined_by(parts.drop_last(), sep) + sep + parts.last()
    }
}

/// What `format!("{:?}", v)` prints for a list of texts: each rendered
/// by `Debug`, comma-separated, in brackets.
pub open spec fn debug_list(v: Seq<Seq<char>>) -> Seq<char> {
    "["@ + joined_by(v.map_values(|s: Seq<char>| spec_debug_text(s)), ", "@) + "]"@
}

/// `format!("{:?}", v)` for a list of strings, built from the `Debug`
/// rendering of each.
pub fn debug_list_text(v: &[String]) -> (res: String)
    ensures
        res@ == debug_list(v@.map_values(|s: String| s@)),
{
    let ghost parts = v@.map_values(|s: String| s@).map_values(|s: Seq<char>| spec_debug_text(s));
    let mut out: Vec<char> = Vec::new();
    let mut i: usize = 0;
    while i < v.len()
        invariant
            i <= v@.len(),
            parts == v@.map_values(|s: String| s@).map_values(|s: Seq<char>| spec_debug_text(s)),
            out@ == joined_by(parts.take(i as int), ", "@),
        decreases v.len() - i,
    {
        if i > 0 {
            extend_str(&mut out, ", ");
        }
        let d = debug_text(v[i].as_str());
        extend_str(&mut out, d.as_str());
        proof {
            let t = parts.take(i + 1);
            assert(t.drop_last() =~= parts.take(i as int));
            assert(t.last() == spec_debug_text(v@[i as int]@));
        }
        i = i + 1;
    }
    assert(parts.take(v@.len() as int) =~= parts);
    let mut res = chars_of("[");
    extend_chars(&mut res, out.as_slice());
    extend_str(&mut res, "]");
    string_of(res.as_slice())
}

} // verus!
