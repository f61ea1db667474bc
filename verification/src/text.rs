//! Character-level text operations used throughout the installer: prefix,
//! suffix and substring tests, placeholder substitution, decimal rendering,
//! whitespace handling and lexicographic ordering of names.
use vstd::prelude::*;

verus! {

// ───────────────────────────── specifications ─────────────────────────────

/// `p` is a prefix of `s`.
pub open spec fn has_prefix(s: Seq<char>, p: Seq<char>) -> bool {
    p.len() <= s.len() && s.subrange(0, p.len() as int) == p
}

/// `p` is a suffix of `s`.
pub open spec fn has_suffix(s: Seq<char>, p: Seq<char>) -> bool {
    p.len() <= s.len() && s.subrange(s.len() - p.len(), s.len() as int) == p
}

/// `p` occurs in `s` starting at position `i`.
pub open spec fn occurs_at(s: Seq<char>, p: Seq<char>, i: int) -> bool {
    0 <= i && i + p.len() <= s.len() && s.subrange(i, i + p.len()) == p
}

/// `p` occurs somewhere in `s`.
pub open spec fn has_infix(s: Seq<char>, p: Seq<char>) -> bool {
    exists|i: int| occurs_at(s, p, i)
}

/// `to` before each character of `s` and once more at the end: what an
/// empty pattern is replaced with.
pub open spec fn interleaved(s: Seq<char>, to: Seq<char>) -> Seq<char>
    decreases s.len(),
{
    if s.len() == 0 {
        to
    } else {
        to + seq![s[0]] + interleaved(s.subrange(1, s.len() as int), to)
    }
}

/// Left-to-right replacement of every non-overlapping occurrence of the
/// pattern `from` by `to`; an empty pattern occurs before each character
/// and at the end.
pub open spec fn replaced(s: Seq<char>, from: Seq<char>, to: Seq<char>) -> Seq<char>
    decreases s.len(),
{
    if from.len() == 0 {
        interleaved(s, to)
    } else if s.len() == 0 {
        s
    } else if has_prefix(s, from) {
        to + replaced(s.subrange(from.len() as int, s.len() as int), from, to)
    } else {
        seq![s[0]] + replaced(s.subrange(1, s.len() as int), from, to)
    }
}

/// Every occurrence of the character `a` replaced by `b`.
pub open spec fn char_replaced(s: Seq<char>, a: char, b: char) -> Seq<char> {
    Seq::new(s.len(), |i: int| if s[i] == a { b } else { s[i] })
}

/// The ASCII digit of a value below ten.
pub open spec fn digit_char(d: nat) -> char {
    ((d + 48) as u8) as char
}

/// The decimal representation of `n`, without leading zeros.
pub open spec fn decimal(n: nat) -> Seq<char>
    decreases n,
{
    if n < 10 {
        seq![digit_char(n)]
    } else {
        decimal(n / 10) + seq![digit_char(n % 10)]
    }
}

/// The decimal representation of `n` padded with zeros to at least two digits.
pub open spec fn decimal2(n: nat) -> Seq<char> {
    if n < 10 {
        seq!['0'] + decimal(n)
    } else {
        decimal(n)
    }
}

/// The characters that carry the Unicode `White_Space` property.
pub open spec fn is_white_space(c: char) -> bool {
    ||| ('\u{9}' <= c && c <= '\u{d}')
    ||| c == ' '
    ||| c == '\u{85}'
    ||| c == '\u{a0}'
    ||| c == '\u{1680}'
    ||| ('\u{2000}' <= c && c <= '\u{200a}')
    ||| c == '\u{2028}'
    ||| c == '\u{2029}'
    ||| c == '\u{202f}'
    ||| c == '\u{205f}'
    ||| c == '\u{3000}'
}

/// Scanning definition of "the whitespace-separated words of `s`, joined by
/// single spaces": `started` tells whether a word was already emitted and
/// `gap` whether whitespace was seen since the last one.
pub open spec fn collapse(s: Seq<char>, started: bool, gap: bool) -> Seq<char>
    decreases s.len(),
{
    if s.len() == 0 {
        Seq::empty()
    } else if is_white_space(s[0]) {
        collapse(s.subrange(1, s.len() as int), started, started)
    } else {
        (if gap { seq![' '] } else { Seq::<char>::empty() }) + seq![s[0]] + collapse(
            s.subrange(1, s.len() as int),
            true,
            false,
        )
    }
}

/// The words of `s` separated by single spaces.
pub open spec fn normalized_whitespace(s: Seq<char>) -> Seq<char> {
    collapse(s, false, false)
}

/// Number of leading whitespace characters.
pub open spec fn leading_white_space(s: Seq<char>) -> nat
    decreases s.len(),
{
    if s.len() > 0 && is_white_space(s[0]) {
        1 + leading_white_space(s.subrange(1, s.len() as int))
    } else {
        0
    }
}

/// Number of leading characters that are not whitespace.
pub open spec fn leading_word(s: Seq<char>) -> nat
    decreases s.len(),
{
    if s.len() > 0 && !is_white_space(s[0]) {
        1 + leading_word(s.subrange(1, s.len() as int))
    } else {
        0
    }
}

/// The first whitespace-separated word of `s`, empty when there is none.
pub open spec fn first_word(s: Seq<char>) -> Seq<char> {
    let rest = s.subrange(leading_white_space(s) as int, s.len() as int);
    rest.subrange(0, leading_word(rest) as int)
}

/// Lexicographic order on character sequences (the order of `str`).
pub open spec fn lex_le(a: Seq<char>, b: Seq<char>) -> bool
    decreases a.len(),
{
    if a.len() == 0 {
        true
    } else if b.len() == 0 {
        false
    } else if a[0] != b[0] {
        a[0] < b[0]
    } else {
        lex_le(a.subrange(1, a.len() as int), b.subrange(1, b.len() as int))
    }
}

/// The sequence of views of a sequence of strings.
pub open spec fn views(v: Seq<String>) -> Seq<Seq<char>> {
    v.map_values(|s: String| s@)
}

/// `v` is ordered by `lex_le`.
pub open spec fn sorted_views(v: Seq<Seq<char>>) -> bool {
    forall|i: int, j: int| 0 <= i < j < v.len() ==> lex_le(#[trigger] v[i], #[trigger] v[j])
}

// ───────────────────────────── lemmas ─────────────────────────────

pub proof fn lemma_lex_le_reflexive(a: Seq<char>)
    ensures
        lex_le(a, a),
    decreases a.len(),
{
    if a.len() > 0 {
        lemma_lex_le_reflexive(a.subrange(1, a.len() as int));
    }
}

pub proof fn lemma_lex_le_total(a: Seq<char>, b: Seq<char>)
    ensures
        lex_le(a, b) || lex_le(b, a),
    decreases a.len(),
{
    if a.len() > 0 && b.len() > 0 && a[0] == b[0] {
        lemma_lex_le_total(a.subrange(1, a.len() as int), b.subrange(1, b.len() as int));
    }
}

pub proof fn lemma_lex_le_transitive(a: Seq<char>, b: Seq<char>, c: Seq<char>)
    requires
        lex_le(a, b),
        lex_le(b, c),
    ensures
        lex_le(a, c),
    decreases a.len(),
{
    if a.len() > 0 && b.len() > 0 && c.len() > 0 && a[0] == b[0] && b[0] == c[0] {
        lemma_lex_le_transitive(
            a.subrange(1, a.len() as int),
            b.subrange(1, b.len() as int),
            c.subrange(1, c.len() as int),
        );
    }
}

pub proof fn lemma_lex_le_antisymmetric(a: Seq<char>, b: Seq<char>)
    requires
        lex_le(a, b),
        lex_le(b, a),
    ensures
        a == b,
    decreases a.len(),
{
    if a.len() > 0 && b.len() > 0 {
        lemma_lex_le_antisymmetric(a.subrange(1, a.len() as int), b.subrange(1, b.len() as int));
        assert(a =~= seq![a[0]] + a.subrange(1, a.len() as int));
        assert(b =~= seq![b[0]] + b.subrange(1, b.len() as int));
    }
}

/// A pattern that is nowhere in `s` leaves `s` unchanged.
pub proof fn lemma_replaced_absent(s: Seq<char>, from: Seq<char>, to: Seq<char>)
    requires
        from.len() > 0,
        !has_infix(s, from),
    ensures
        replaced(s, from, to) == s,
    decreases s.len(),
{
    if s.len() > 0 {
        let rest = s.subrange(1, s.len() as int);
        assert(!occurs_at(s, from, 0));
        assert forall|i: int| !occurs_at(rest, from, i) by {
            if occurs_at(rest, from, i) {
                assert(s.subrange(i + 1, i + 1 + from.len()) =~= rest.subrange(i, i + from.len()));
                assert(occurs_at(s, from, i + 1));
            }
        }
        lemma_replaced_absent(rest, from, to);
        assert(s =~= seq![s[0]] + rest);
    }
}

// ───────────────────────────── std functions ─────────────────────────────

/// What `str::to_lowercase` returns for a string: the Unicode lowercase
/// mapping of every character.
pub uninterp spec fn lowercase_of(s: Seq<char>) -> Seq<char>;

/// What `String::from_utf8_lossy` returns for a byte string: its UTF-8
/// decoding, with U+FFFD in place of every invalid sequence.
pub uninterp spec fn utf8_lossy(bytes: Seq<u8>) -> Seq<char>;

/// Every character is ASCII.
pub open spec fn is_ascii_text(s: Seq<char>) -> bool {
    forall|i: int| 0 <= i < s.len() ==> (#[trigger] s[i] as u32) < 128
}

/// The ASCII lowercase of a character: `A`..`Z` become `a`..`z`, the others
/// are kept.
pub open spec fn ascii_lower_char(c: char) -> char {
    if 65 <= (c as u32) && (c as u32) <= 90 {
        ((c as u32) + 32) as char
    } else {
        c
    }
}

/// The ASCII lowercase of a text, character by character.
pub open spec fn ascii_lower(s: Seq<char>) -> Seq<char> {
    s.map_values(|c: char| ascii_lower_char(c))
}

/// `str::to_lowercase`; its result is named `lowercase_of`. Of the Unicode
/// case mapping only the ASCII part is stated: an ASCII text is mapped
/// character by character to its ASCII lowercase.
#[verifier::external_body]
pub(crate) fn to_lowercase(s: &str) -> (r: String)
    ensures
        r@ == lowercase_of(s@),
        is_ascii_text(s@) ==> r@ == ascii_lower(s@),
{
    s.to_lowercase()
}

/// `String::from_utf8_lossy`; its result is named `utf8_lossy`.
#[verifier::external_body]
pub(crate) fn from_utf8_lossy(bytes: &[u8]) -> (r: String)
    ensures
        r@ == utf8_lossy(bytes@),
{
    String::from_utf8_lossy(bytes).into_owned()
}

// ───────────────────────────── executable ─────────────────────────────

/// Appends one character to a string (`String::push`).
#[verifier::external_body]
pub(crate) fn push_char(s: &mut String, c: char)
    ensures
        final(s)@ == old(s)@.push(c),
{
    s.push(c);
}

/// Appends a string slice to a string.
pub fn push_str(s: &mut String, t: &str)
    ensures
        final(s)@ == old(s)@ + t@,
{
    s.append(t);
}

/// A new string holding the characters of `s`.
pub fn string_of(s: &str) -> (r: String)
    ensures
        r@ == s@,
{
    String::from_str(s)
}

/// The characters of `s`, in order.
pub fn chars_of(s: &str) -> (v: Vec<char>)
    ensures
        v@ == s@,
{
    let mut v: Vec<char> = Vec::new();
    for c in it: s.chars()
        invariant
            v@ == it.seq().take(it.index() as int),
            it.seq() == s@,
    {
        v.push(c);
    }
    v
}

/// Appends the characters of a slice to a string.
pub fn push_chars(s: &mut String, cs: &[char])
    ensures
        final(s)@ == old(s)@ + cs@,
{
    let mut i: usize = 0;
    while i < cs.len()
        invariant
            i <= cs.len(),
            s@ == old(s)@ + cs@.subrange(0, i as int),
        decreases cs.len() - i,
    {
        push_char(s, cs[i]);
        i = i + 1;
        assert(cs@.subrange(0, i as int) =~= cs@.subrange(0, i - 1).push(cs@[i - 1]));
    }
    assert(cs@.subrange(0, cs.len() as int) =~= cs@);
}

/// A string made of the given characters.
pub fn string_from_chars(cs: &[char]) -> (r: String)
    ensures
        r@ == cs@,
{
    let mut r = String::new();
    push_chars(&mut r, cs);
    assert(Seq::<char>::empty() + cs@ =~= cs@);
    r
}

/// The concatenation of two strings.
pub fn concat2(a: &str, b: &str) -> (r: String)
    ensures
        r@ == a@ + b@,
{
    let mut r = string_of(a);
    push_str(&mut r, b);
    r
}

/// Whether `p` occurs in `s` at position `i`.
pub fn occurs_at_exec(s: &[char], p: &[char], i: usize) -> (r: bool)
    ensures
        r == occurs_at(s@, p@, i as int),
{
    if i > s.len() || p.len() > s.len() - i {
        return false;
    }
    let mut k: usize = 0;
    while k < p.len()
        invariant
            i + p.len() <= s.len(),
            k <= p.len(),
            forall|j: int| 0 <= j < k ==> s@[i + j] == p@[j],
        decreases p.len() - k,
    {
        if s[i + k] != p[k] {
            assert(s@.subrange(i as int, i + p.len())[k as int] != p@[k as int]);
            return false;
        }
        k = k + 1;
    }
    assert(s@.subrange(i as int, i + p.len()) =~= p@);
    true
}

/// Whether `s` and `t` hold the same characters.
pub fn chars_eq(s: &[char], t: &[char]) -> (r: bool)
    ensures
        r == (s@ == t@),
{
    if s.len() != t.len() {
        return false;
    }
    let r = occurs_at_exec(s, t, 0);
    assert(s@.subrange(0, t@.len() as int) =~= s@);
    r
}

/// Whether two string slices are equal.
pub fn str_eq(a: &str, b: &str) -> (r: bool)
    ensures
        r == (a@ == b@),
{
    let x = chars_of(a);
    let y = chars_of(b);
    chars_eq(x.as_slice(), y.as_slice())
}

/// `str::starts_with`.
pub fn starts_with(s: &str, p: &str) -> (r: bool)
    ensures
        r == has_prefix(s@, p@),
{
    let x = chars_of(s);
    let y = chars_of(p);
    occurs_at_exec(x.as_slice(), y.as_slice(), 0)
}

/// `str::ends_with`.
pub fn ends_with(s: &str, p: &str) -> (r: bool)
    ensures
        r == has_suffix(s@, p@),
{
    let x = chars_of(s);
    let y = chars_of(p);
    if y.len() > x.len() {
        return false;
    }
    occurs_at_exec(x.as_slice(), y.as_slice(), x.len() - y.len())
}

/// Whether `p` occurs somewhere in the slice `s`.
pub fn chars_contain(s: &[char], p: &[char]) -> (r: bool)
    ensures
        r == has_infix(s@, p@),
{
    if p.len() > s.len() {
        assert forall|i: int| !occurs_at(s@, p@, i) by {}
        return false;
    }
    let n = s.len() - p.len();
    let mut i: usize = 0;
    while i < n
        invariant
            n == s.len() - p.len(),
            i <= n,
            forall|j: int| 0 <= j < i ==> !occurs_at(s@, p@, j),
        decreases n - i,
    {
        if occurs_at_exec(s, p, i) {
            return true;
        }
        i = i + 1;
    }
    if occurs_at_exec(s, p, n) {
        return true;
    }
    assert forall|j: int| !occurs_at(s@, p@, j) by {}
    false
}

/// `str::contains`.
pub fn contains(s: &str, p: &str) -> (r: bool)
    ensures
        r == has_infix(s@, p@),
{
    let x = chars_of(s);
    let y = chars_of(p);
    chars_contain(x.as_slice(), y.as_slice())
}

/// `str::replace`.
pub fn replace(s: &str, from: &str, to: &str) -> (r: String)
    ensures
        r@ == replaced(s@, from@, to@),
{
    let cs = chars_of(s);
    let pat = chars_of(from);
    let rep = chars_of(to);
    if pat.len() == 0 {
        return interleave(cs.as_slice(), rep.as_slice());
    }
    let mut out = String::new();
    let mut i: usize = 0;
    assert(cs@.subrange(0, cs@.len() as int) =~= cs@);
    assert(out@ + replaced(s@, from@, to@) =~= replaced(s@, from@, to@));
    while i < cs.len()
        invariant
            i <= cs.len(),
            pat@.len() > 0,
            cs@ == s@,
            pat@ == from@,
            rep@ == to@,
            replaced(s@, from@, to@) == out@ + replaced(
                cs@.subrange(i as int, cs@.len() as int),
                from@,
                to@,
            ),
        decreases cs.len() - i,
    {
        let ghost rest = cs@.subrange(i as int, cs@.len() as int);
        if occurs_at_exec(cs.as_slice(), pat.as_slice(), i) {
            assert(rest.subrange(0, pat@.len() as int) =~= cs@.subrange(i as int, i + pat@.len()));
            assert(rest.subrange(pat@.len() as int, rest.len() as int) =~= cs@.subrange(
                i + pat@.len(),
                cs@.len() as int,
            ));
            push_chars(&mut out, rep.as_slice());
            i = i + pat.len();
        } else {
            assert(!has_prefix(rest, pat@)) by {
                if has_prefix(rest, pat@) {
                    assert(rest.subrange(0, pat@.len() as int) =~= cs@.subrange(
                        i as int,
                        i + pat@.len(),
                    ));
                }
            }
            assert(rest.subrange(1, rest.len() as int) =~= cs@.subrange(i + 1, cs@.len() as int));
            push_char(&mut out, cs[i]);
            i = i + 1;
        }
    }
    assert(replaced(cs@.subrange(i as int, cs@.len() as int), from@, to@) =~= Seq::empty());
    assert(out@ + Seq::<char>::empty() =~= out@);
    out
}

fn interleave(cs: &[char], rep: &[char]) -> (r: String)
    ensures
        r@ == interleaved(cs@, rep@),
{
    let mut out = String::new();
    let mut i: usize = 0;
    assert(cs@.subrange(0, cs@.len() as int) =~= cs@);
    assert(out@ + interleaved(cs@, rep@) =~= interleaved(cs@, rep@));
    while i < cs.len()
        invariant
            i <= cs.len(),
            interleaved(cs@, rep@) == out@ + interleaved(cs@.subrange(i as int, cs@.len() as int), rep@),
        decreases cs.len() - i,
    {
        let ghost rest = cs@.subrange(i as int, cs@.len() as int);
        assert(rest.subrange(1, rest.len() as int) =~= cs@.subrange(i + 1, cs@.len() as int));
        let ghost before = out@;
        push_chars(&mut out, rep);
        push_char(&mut out, cs[i]);
        assert(out@ =~= before + (rep@ + seq![rest[0]]));
        i = i + 1;
    }
    push_chars(&mut out, rep);
    assert(cs@.subrange(i as int, cs@.len() as int) =~= Seq::<char>::empty());
    out
}

/// `str::replace` of one character by another.
pub fn replace_char(s: &str, a: char, b: char) -> (r: String)
    ensures
        r@ == char_replaced(s@, a, b),
{
    let cs = chars_of(s);
    let mut out = String::new();
    let mut i: usize = 0;
    while i < cs.len()
        invariant
            i <= cs.len(),
            cs@ == s@,
            out@ =~= char_replaced(s@, a, b).subrange(0, i as int),
        decreases cs.len() - i,
    {
        if cs[i] == a {
            push_char(&mut out, b);
        } else {
            push_char(&mut out, cs[i]);
        }
        i = i + 1;
    }
    out
}

/// The ASCII digit of a value below ten.
pub fn digit(d: u64) -> (c: char)
    requires
        d < 10,
    ensures
        c == digit_char(d as nat),
{
    let b: u8 = (d as u8) + 48;
    b as char
}

/// Appends the decimal representation of `n`.
pub fn push_decimal(s: &mut String, n: u64)
    ensures
        final(s)@ == old(s)@ + decimal(n as nat),
    decreases n,
{
    if n >= 10 {
        push_decimal(s, n / 10);
    }
    push_char(s, digit(n % 10));
    assert(s@ =~= old(s)@ + decimal(n as nat));
}

/// `u64::to_string`.
pub fn decimal_string(n: u64) -> (r: String)
    ensures
        r@ == decimal(n as nat),
{
    let mut r = String::new();
    push_decimal(&mut r, n);
    assert(Seq::<char>::empty() + decimal(n as nat) =~= decimal(n as nat));
    r
}

/// Appends `n` formatted as `{:02}`.
pub fn push_decimal2(s: &mut String, n: u64)
    ensures
        final(s)@ == old(s)@ + decimal2(n as nat),
{
    if n < 10 {
        push_char(s, '0');
    }
    push_decimal(s, n);
    assert(s@ =~= old(s)@ + decimal2(n as nat));
}

/// Whether `c` has the Unicode `White_Space` property (`char::is_whitespace`).
pub fn is_whitespace(c: char) -> (r: bool)
    ensures
        r == is_white_space(c),
{
    ('\u{9}' <= c && c <= '\u{d}') || c == ' ' || c == '\u{85}' || c == '\u{a0}' || c
        == '\u{1680}' || ('\u{2000}' <= c && c <= '\u{200a}') || c == '\u{2028}' || c
        == '\u{2029}' || c == '\u{202f}' || c == '\u{205f}' || c == '\u{3000}'
}

/// The words of `s` separated by single spaces
/// (`s.split_whitespace().collect::<Vec<_>>().join(" ")`).
pub fn normalize_whitespace(s: &str) -> (r: Vec<char>)
    ensures
        r@ == normalized_whitespace(s@),
{
    let cs = chars_of(s);
    let mut out: Vec<char> = Vec::new();
    let mut started = false;
    let mut gap = false;
    let mut i: usize = 0;
    assert(cs@.subrange(0, cs@.len() as int) =~= cs@);
    assert(out@ + normalized_whitespace(s@) =~= normalized_whitespace(s@));
    while i < cs.len()
        invariant
            i <= cs.len(),
            cs@ == s@,
            normalized_whitespace(s@) == out@ + collapse(
                cs@.subrange(i as int, cs@.len() as int),
                started,
                gap,
            ),
        decreases cs.len() - i,
    {
        let ghost rest = cs@.subrange(i as int, cs@.len() as int);
        assert(rest.subrange(1, rest.len() as int) =~= cs@.subrange(i + 1, cs@.len() as int));
        let c = cs[i];
        if is_whitespace(c) {
            gap = started;
        } else {
            let ghost prev = out@;
            let ghost tail = collapse(cs@.subrange(i + 1, cs@.len() as int), true, false);
            if gap {
                out.push(' ');
            }
            out.push(c);
            assert(prev + ((if gap { seq![' '] } else { Seq::<char>::empty() }) + seq![c] + tail)
                =~= out@ + tail);
            started = true;
            gap = false;
        }
        i = i + 1;
    }
    assert(out@ + collapse(cs@.subrange(i as int, cs@.len() as int), started, gap) =~= out@);
    out
}

/// The first whitespace-separated word of `s`
/// (`s.split_whitespace().next().unwrap_or("")`).
pub fn first_token(s: &str) -> (r: String)
    ensures
        r@ == first_word(s@),
{
    let cs = chars_of(s);
    let mut i: usize = 0;
    assert(cs@.subrange(0, cs@.len() as int) =~= cs@);
    while i < cs.len() && is_whitespace(cs[i])
        invariant
            i <= cs.len(),
            cs@ == s@,
            leading_white_space(s@) == i + leading_white_space(
                cs@.subrange(i as int, cs@.len() as int),
            ),
        decreases cs.len() - i,
    {
        let ghost rest = cs@.subrange(i as int, cs@.len() as int);
        assert(rest.subrange(1, rest.len() as int) =~= cs@.subrange(i + 1, cs@.len() as int));
        i = i + 1;
    }
    let start = i;
    let ghost tail = cs@.subrange(start as int, cs@.len() as int);
    assert(leading_white_space(tail) == 0);
    assert(tail.subrange(0, tail.len() as int) =~= tail);
    while i < cs.len() && !is_whitespace(cs[i])
        invariant
            start <= i <= cs.len(),
            cs@ == s@,
            tail == cs@.subrange(start as int, cs@.len() as int),
            leading_word(tail) == (i - start) + leading_word(
                cs@.subrange(i as int, cs@.len() as int),
            ),
        decreases cs.len() - i,
    {
        let ghost rest = cs@.subrange(i as int, cs@.len() as int);
        assert(rest.subrange(1, rest.len() as int) =~= cs@.subrange(i + 1, cs@.len() as int));
        i = i + 1;
    }
    assert(tail.subrange(0, (i - start) as int) =~= cs@.subrange(start as int, i as int));
    string_from_chars(vstd::slice::slice_subrange(cs.as_slice(), start, i))
}

/// `lex_le` on slices of characters.
pub fn lex_le_chars(a: &[char], b: &[char]) -> (r: bool)
    ensures
        r == lex_le(a@, b@),
{
    let mut i: usize = 0;
    assert(a@.subrange(0, a@.len() as int) =~= a@);
    assert(b@.subrange(0, b@.len() as int) =~= b@);
    while i < a.len() && i < b.len() && a[i] == b[i]
        invariant
            i <= a.len(),
            i <= b.len(),
            lex_le(a@, b@) == lex_le(
                a@.subrange(i as int, a@.len() as int),
                b@.subrange(i as int, b@.len() as int),
            ),
        decreases a.len() - i,
    {
        let ghost sa = a@.subrange(i as int, a@.len() as int);
        let ghost sb = b@.subrange(i as int, b@.len() as int);
        assert(sa.subrange(1, sa.len() as int) =~= a@.subrange(i + 1, a@.len() as int));
        assert(sb.subrange(1, sb.len() as int) =~= b@.subrange(i + 1, b@.len() as int));
        i = i + 1;
    }
    if i == a.len() {
        true
    } else if i == b.len() {
        false
    } else {
        a[i] < b[i]
    }
}

/// Sorts strings in lexicographic order (`Vec::<String>::sort`): the result
/// is ordered and holds the same strings, each as often.
pub fn sort_strings(v: Vec<String>) -> (r: Vec<String>)
    ensures
        sorted_views(views(r@)),
        views(r@).to_multiset() == views(v@).to_multiset(),
{
    let mut out: Vec<String> = Vec::new();
    let mut i: usize = 0;
    assert(views(out@) =~= views(v@.subrange(0, 0)));
    while i < v.len()
        invariant
            i <= v.len(),
            sorted_views(views(out@)),
            views(out@).to_multiset() == views(v@.subrange(0, i as int)).to_multiset(),
        decreases v.len() - i,
    {
        let x = v[i].clone();
        let xc = chars_of(x.as_str());
        let mut j: usize = 0;
        while j < out.len()
            invariant
                j <= out.len(),
                xc@ == x@,
                forall|k: int| 0 <= k < j ==> lex_le(#[trigger] out@[k]@, x@),
            ensures
                j <= out.len(),
                forall|k: int| 0 <= k < j ==> lex_le(#[trigger] out@[k]@, x@),
                j < out.len() ==> !lex_le(out@[j as int]@, x@),
            decreases out.len() - j,
        {
            let oc = chars_of(out[j].as_str());
            if !lex_le_chars(oc.as_slice(), xc.as_slice()) {
                break;
            }
            j = j + 1;
        }
        proof {
            if j < out.len() {
                lemma_lex_le_total(out@[j as int]@, x@);
            }
        }
        let ghost before = out@;
        out.insert(j, x);
        proof {
            assert(views(out@) =~= views(before).insert(j as int, v@[i as int]@));
            vstd::seq_lib::to_multiset_insert(views(before), j as int, v@[i as int]@);
            assert(views(v@.subrange(0, i + 1)) =~= views(v@.subrange(0, i as int)).push(
                v@[i as int]@,
            ));
            vstd::seq_lib::to_multiset_build(views(v@.subrange(0, i as int)), v@[i as int]@);
            let w = views(out@);
            assert forall|p: int, q: int| 0 <= p < q < w.len() implies lex_le(
                #[trigger] w[p],
                #[trigger] w[q],
            ) by {
                let xv = v@[i as int]@;
                if q == j {
                    assert(w[p] == before[p]@);
                } else if q < j {
                    assert(w[p] == before[p]@);
                    assert(w[q] == before[q]@);
                    assert(lex_le(views(before)[p], views(before)[q]));
                } else if p == j {
                    assert(w[q] == before[q - 1]@);
                    if q - 1 > j {
                        assert(lex_le(views(before)[j as int], views(before)[q - 1]));
                        lemma_lex_le_transitive(xv, before[j as int]@, before[q - 1]@);
                    }
                } else if p < j && q > j {
                    assert(w[q] == before[q - 1]@);
                    assert(lex_le(views(before)[p], views(before)[q - 1]));
                } else if q < j {
                    assert(w[p] == before[p]@);
                } else {
                    assert(w[p] == before[p - 1]@);
                    assert(w[q] == before[q - 1]@);
                    assert(lex_le(views(before)[p - 1], views(before)[q - 1]));
                }
            }
        }
        i = i + 1;
    }
    assert(v@.subrange(0, v@.len() as int) =~= v@);
    out
}

/// The whitespace-collapsed text cut to 300 characters, with `...` when cut.
pub open spec fn spec_body_excerpt(body: Seq<char>) -> Seq<char> {
    let n = normalized_whitespace(body);
    if n.len() > 300 {
        n.subrange(0, 300) + "..."@
    } else {
        n
    }
}

/// A short single-line excerpt of a response body, for error messages.
pub fn body_excerpt(body: &str) -> (r: String)
    ensures
        r@ == spec_body_excerpt(body@),
{
    let n = normalize_whitespace(body);
    if n.len() > 300 {
        let mut r = String::new();
        push_chars(&mut r, vstd::slice::slice_subrange(n.as_slice(), 0, 300));
        push_str(&mut r, "...");
        r
    } else {
        string_from_chars(n.as_slice())
    }
}


/// Every character is an ASCII digit.
pub open spec fn all_digits(s: Seq<char>) -> bool {
    forall|i: int| 0 <= i < s.len() ==> 48 <= (#[trigger] s[i] as u32) <= 57
}

/// The number that a string of ASCII digits denotes in base ten.
pub open spec fn digits_value(s: Seq<char>) -> int
    decreases s.len(),
{
    if s.len() == 0 {
        0
    } else {
        digits_value(s.drop_last()) * 10 + (s.last() as u32 - 48)
    }
}

proof fn lemma_digit_char(d: nat)
    requires
        d < 10,
    ensures
        digit_char(d) as u32 == d + 48,
{
    let x: u8 = (d + 48) as u8;
    assert(x == d + 48);
    assert(x as char as u32 == x);
}

/// The decimal text of a number reads back as that number: one or more
/// ASCII digits, whose value is the number, without a leading zero.
pub proof fn law_decimal_reads_back(n: nat)
    ensures
        decimal(n).len() >= 1,
        all_digits(decimal(n)),
        digits_value(decimal(n)) == n,
        decimal(n).len() > 1 ==> decimal(n)[0] != '0',
    decreases n,
{
    if n < 10 {
        lemma_digit_char(n);
        let d = decimal(n);
        assert(d.drop_last() =~= Seq::<char>::empty());
        assert(digits_value(d.drop_last()) == 0);
        assert(digits_value(d) == digits_value(d.drop_last()) * 10 + (d.last() as u32 - 48));
    } else {
        let m = n / 10;
        law_decimal_reads_back(m);
        lemma_digit_char(n % 10);
        let d = decimal(n);
        let p = decimal(m);
        assert(d.drop_last() =~= p);
        assert(d.last() == digit_char(n % 10));
        assert(m * 10 + n % 10 == n);
        assert(digits_value(d) == digits_value(d.drop_last()) * 10 + (d.last() as u32 - 48));
        assert(digits_value(d) == m * 10 + n % 10);
        assert(d[0] == p[0]);
        if m >= 10 {
            law_decimal_reads_back(m / 10);
            assert(p.len() >= 2);
        } else {
            lemma_digit_char(m);
            assert(p[0] == digit_char(m));
        }
    }
}

/// A two-digit text reads back as the number: for a number below one
/// hundred, two ASCII digits whose value is the number.
pub proof fn law_decimal2_reads_back(n: nat)
    requires
        n < 100,
    ensures
        decimal2(n).len() == 2,
        all_digits(decimal2(n)),
        digits_value(decimal2(n)) == n,
{
    law_decimal_reads_back(n);
    let d = decimal2(n);
    if n < 10 {
        lemma_digit_char(n);
        assert(d.drop_last() =~= seq!['0']);
        assert(seq!['0'].drop_last() =~= Seq::<char>::empty());
        assert(digits_value(seq!['0'].drop_last()) == 0);
        assert(('0' as u32) == 48);
        assert(digits_value(seq!['0']) == 0);
        assert(d.last() == digit_char(n));
        assert(digits_value(d) == digits_value(d.drop_last()) * 10 + (d.last() as u32 - 48));
    } else {
        law_decimal_reads_back(n / 10);
        assert(decimal(n / 10).len() == 1);
    }
}

} // verus!
