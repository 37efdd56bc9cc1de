//! Text helpers over character sequences: the `str` operations that the
//! server applies to requests (split, trim, replace), stated over `Seq<char>`
//! and implemented on `Vec<char>`.

use vstd::prelude::*;
use vstd::utf8::{decode_utf8, valid_utf8};

verus! {

/// The Unicode `White_Space` property, which `char::is_whitespace` tests.
pub open spec fn is_white_space(c: char) -> bool {
    ||| ('\u{9}' <= c && c <= '\u{d}')
    ||| c == ' '
    ||| c == '\u{85}'
    ||| c == '\u{a0}'
    ||| c == '\u{1680}'
    ||| ('\u{2000}' <= c && c <= '\u{200a}')
    ||| c == '\u{2028}'
    ||| c == '\u{2029}'
    ||| c == '\u{202f}'
    ||| c == '\u{205f}'
    ||| c == '\u{3000}'
}

/// What a trimming operation strips from the ends of a string.
#[derive(Clone, Copy)]
pub enum Strip {
    /// White space, as `str::trim` strips it.
    WhiteSpace,
    /// One given character, as `str::trim_matches(c)` strips it.
    Char(char),
}

impl Strip {
    pub open spec fn strips(self, c: char) -> bool {
        match self {
            Strip::WhiteSpace => is_white_space(c),
            Strip::Char(x) => c == x,
        }
    }

    pub fn test(&self, c: char) -> (r: bool)
        ensures
            r == self.strips(c),
    {
        match self {
            Strip::WhiteSpace => {
                (c >= '\u{9}' && c <= '\u{d}') || c == ' ' || c == '\u{85}' || c == '\u{a0}'
                    || c == '\u{1680}' || (c >= '\u{2000}' && c <= '\u{200a}') || c == '\u{2028}'
                    || c == '\u{2029}' || c == '\u{202f}' || c == '\u{205f}' || c == '\u{3000}'
            },
            Strip::Char(x) => c == *x,
        }
    }
}

/// `s` without its leading stripped characters.
pub open spec fn trim_start_of(s: Seq<char>, strip: Strip) -> Seq<char>
    decreases s.len(),
{
    if s.len() > 0 && strip.strips(s[0]) {
        trim_start_of(s.drop_first(), strip)
    } else {
        s
    }
}

/// `s` without its trailing stripped characters.
pub open spec fn trim_end_of(s: Seq<char>, strip: Strip) -> Seq<char>
    decreases s.len(),
{
    if s.len() > 0 && strip.strips(s.last()) {
        trim_end_of(s.drop_last(), strip)
    } else {
        s
    }
}

/// `s` without its leading and trailing stripped characters.
pub open spec fn trim_of(s: Seq<char>, strip: Strip) -> Seq<char> {
    trim_end_of(trim_start_of(s, strip), strip)
}

/// Whether `pat` occurs in `s` at position 0.
pub open spec fn starts_with(s: Seq<char>, pat: Seq<char>) -> bool {
    pat.len() <= s.len() && s.take(pat.len() as int) == pat
}

/// Whether `s` ends with the character `c`.
pub open spec fn ends_with_char(s: Seq<char>, c: char) -> bool {
    s.len() > 0 && s.last() == c
}

/// The pieces of `s` between the occurrences of `pat`, found left to right
/// without overlap, as `str::split` yields them (there is always one more
/// piece than there are occurrences).
pub open spec fn split_of(s: Seq<char>, pat: Seq<char>) -> Seq<Seq<char>>
    decreases s.len(),
{
    if s.len() == 0 {
        seq![Seq::<char>::empty()]
    } else if pat.len() > 0 && starts_with(s, pat) {
        seq![Seq::<char>::empty()] + split_of(s.skip(pat.len() as int), pat)
    } else {
        prepend_to_first(seq![s[0]], split_of(s.drop_first(), pat))
    }
}

/// The character sequences held by a sequence of vectors.
pub open spec fn views(v: Seq<Vec<char>>) -> Seq<Seq<char>> {
    v.map_values(|x: Vec<char>| x@)
}

/// `parts` with `prefix` put in front of its first piece.
pub open spec fn prepend_to_first(prefix: Seq<char>, parts: Seq<Seq<char>>) -> Seq<Seq<char>> {
    parts.update(0, prefix + parts[0])
}

/// `s` with each occurrence of `pat`, found left to right without overlap,
/// replaced by `with`, as `str::replace` does it.
pub open spec fn replace_of(s: Seq<char>, pat: Seq<char>, with: Seq<char>) -> Seq<char>
    decreases s.len(),
{
    if s.len() == 0 {
        Seq::<char>::empty()
    } else if pat.len() > 0 && starts_with(s, pat) {
        with + replace_of(s.skip(pat.len() as int), pat, with)
    } else {
        seq![s[0]] + replace_of(s.drop_first(), pat, with)
    }
}

/// `s` with its first occurrence of `from` replaced by `to`, as
/// `str::replacen(from, to, 1)` does it for single characters.
pub open spec fn replace_first_of(s: Seq<char>, from: char, to: char) -> Seq<char>
    decreases s.len(),
{
    if s.len() == 0 {
        s
    } else if s[0] == from {
        seq![to] + s.drop_first()
    } else {
        seq![s[0]] + replace_first_of(s.drop_first(), from, to)
    }
}

/// The characters `0` to `9`.
pub open spec fn is_digit(c: char) -> bool {
    '0' <= c && c <= '9'
}

/// The character of a decimal digit.
pub open spec fn digit_char(d: nat) -> char
    recommends
        d < 10,
{
    (d + 48) as char
}

/// The value of a decimal digit character.
pub open spec fn digit_value(c: char) -> nat
    recommends
        is_digit(c),
{
    (c as nat - 48) as nat
}

/// The decimal representation of `n`, without sign or leading zeros.
pub open spec fn decimal_of(n: nat) -> Seq<char>
    decreases n,
{
    if n < 10 {
        seq![digit_char(n)]
    } else {
        decimal_of(n / 10).push(digit_char(n % 10))
    }
}

/// The value of a sequence of decimal digits.
pub open spec fn digits_value(s: Seq<char>) -> nat
    decreases s.len(),
{
    if s.len() == 0 {
        0
    } else {
        digits_value(s.drop_last()) * 10 + digit_value(s.last())
    }
}

/// Whether every character of `s` is a decimal digit.
pub open spec fn all_digits(s: Seq<char>) -> bool {
    forall|i: int| 0 <= i < s.len() ==> is_digit(#[trigger] s[i])
}

/// What `str::parse::<u32>` gives: an optional `+`, then one or more
/// decimal digits whose value fits in 32 bits.
pub open spec fn parse_u32_of(s: Seq<char>) -> Option<u32> {
    let digits = if s.len() > 0 && s[0] == '+' {
        s.drop_first()
    } else {
        s
    };
    if digits.len() > 0 && all_digits(digits) && digits_value(digits) <= u32::MAX {
        Some(digits_value(digits) as u32)
    } else {
        None
    }
}

/// The characters of a string slice, in order.
pub fn chars_of(s: &str) -> (v: Vec<char>)
    ensures
        v@ == s@,
{
    broadcast use vstd::string::group_string_axioms;

    let mut v: Vec<char> = Vec::new();
    for c in it: s.chars()
        invariant
            v@.len() == it.index(),
            forall|j: int| 0 <= j < v@.len() ==> v@[j] == it.seq()[j],
    {
        v.push(c);
    }
    assert(v@ =~= s@);
    v
}

/// Calls `std::str::from_utf8`: the bytes are accepted exactly when they
/// are well-formed UTF-8, and then read as the characters they encode.
#[verifier::external_body]
fn utf8_str(bytes: &[u8]) -> (text: Option<&str>)
    ensures
        text is Some <==> valid_utf8(bytes@),
        text matches Some(t) ==> t@ == decode_utf8(bytes@),
{
    std::str::from_utf8(bytes).ok()
}

/// The characters that UTF-8 bytes encode, or `None` when the bytes are not
/// well-formed UTF-8.
pub fn decode_text(bytes: &[u8]) -> (text: Option<Vec<char>>)
    ensures
        text is Some <==> valid_utf8(bytes@),
        text matches Some(t) ==> t@ == decode_utf8(bytes@),
{
    match utf8_str(bytes) {
        Some(t) => Some(chars_of(t)),
        None => None,
    }
}

/// A string holding the given characters.
#[verifier::external_body]
pub(crate) fn string_of(chars: &[char]) -> (s: String)
    ensures
        s@ == chars@,
{
    chars.iter().collect()
}

/// Whether two string slices hold the same characters.
pub fn same_text(a: &str, b: &str) -> (r: bool)
    ensures
        r == (a@ == b@),
{
    let x = a.as_bytes();
    let y = b.as_bytes();
    proof {
        vstd::utf8::encode_utf8_decode_utf8(a@);
        vstd::utf8::encode_utf8_decode_utf8(b@);
    }
    if x.len() != y.len() {
        return false;
    }
    let mut i: usize = 0;
    while i < x.len()
        invariant
            x@ == vstd::utf8::encode_utf8(a@),
            y@ == vstd::utf8::encode_utf8(b@),
            x@.len() == y@.len(),
            0 <= i <= x@.len(),
            forall|j: int| 0 <= j < i ==> x@[j] == y@[j],
        decreases x@.len() - i,
    {
        if x[i] != y[i] {
            return false;
        }
        i = i + 1;
    }
    assert(x@ =~= y@);
    true
}

/// Whether two character sequences are equal.
pub fn same_chars(a: &[char], b: &[char]) -> (r: bool)
    ensures
        r == (a@ == b@),
{
    if a.len() != b.len() {
        return false;
    }
    let mut i: usize = 0;
    while i < a.len()
        invariant
            a@.len() == b@.len(),
            0 <= i <= a@.len(),
            forall|j: int| 0 <= j < i ==> a@[j] == b@[j],
        decreases a@.len() - i,
    {
        if a[i] != b[i] {
            return false;
        }
        i = i + 1;
    }
    assert(a@ =~= b@);
    true
}

/// Whether `s` holds the character `c`.
pub fn contains_char(s: &[char], c: char) -> (r: bool)
    ensures
        r == s@.contains(c),
{
    let mut i: usize = 0;
    while i < s.len()
        invariant
            0 <= i <= s@.len(),
            forall|j: int| 0 <= j < i ==> s@[j] != c,
        decreases s@.len() - i,
    {
        if s[i] == c {
            assert(s@[i as int] == c);
            return true;
        }
        i = i + 1;
    }
    false
}

/// The characters of `s` from `lo` up to `hi`.
pub fn copy_range(s: &[char], lo: usize, hi: usize) -> (r: Vec<char>)
    requires
        lo <= hi <= s@.len(),
    ensures
        r@ == s@.subrange(lo as int, hi as int),
{
    let mut r: Vec<char> = Vec::new();
    let mut i: usize = lo;
    while i < hi
        invariant
            lo <= i <= hi <= s@.len(),
            r@ == s@.subrange(lo as int, i as int),
        decreases hi - i,
    {
        r.push(s[i]);
        i = i + 1;
        assert(r@ =~= s@.subrange(lo as int, i as int));
    }
    r
}

/// `a` followed by `b`.
pub fn concat_chars(a: &[char], b: &[char]) -> (r: Vec<char>)
    ensures
        r@ == a@ + b@,
{
    let mut r = copy_range(a, 0, a.len());
    let mut i: usize = 0;
    while i < b.len()
        invariant
            0 <= i <= b@.len(),
            r@ == a@ + b@.take(i as int),
        decreases b@.len() - i,
    {
        r.push(b[i]);
        i = i + 1;
        assert(r@ =~= a@ + b@.take(i as int));
    }
    assert(b@.take(b@.len() as int) =~= b@);
    r
}

/// Whether `pat` occurs in `s` at position `i`.
pub fn occurs_at(s: &[char], i: usize, pat: &[char]) -> (r: bool)
    requires
        i <= s@.len(),
    ensures
        r == starts_with(s@.skip(i as int), pat@),
{
    if pat.len() > s.len() - i {
        return false;
    }
    let mut j: usize = 0;
    while j < pat.len()
        invariant
            i + pat.len() <= s.len(),
            0 <= j <= pat@.len(),
            forall|k: int| 0 <= k < j ==> s@[i + k] == pat@[k],
        decreases pat@.len() - j,
    {
        assert(i + j < s@.len());
        if s[i + j] != pat[j] {
            assert(s@.skip(i as int).take(pat@.len() as int)[j as int] != pat@[j as int]);
            return false;
        }
        j = j + 1;
    }
    assert(s@.skip(i as int).take(pat@.len() as int) =~= pat@);
    true
}

/// Unfolds `trim_start_of` on a suffix of `s`.
proof fn lemma_trim_start_step(s: Seq<char>, i: int, strip: Strip)
    requires
        0 <= i < s.len(),
        strip.strips(s[i]),
    ensures
        trim_start_of(s.skip(i), strip) == trim_start_of(s.skip(i + 1), strip),
{
    assert(s.skip(i).drop_first() =~= s.skip(i + 1));
}

/// Unfolds `trim_end_of` on a prefix of `s`.
proof fn lemma_trim_end_step(s: Seq<char>, i: int, strip: Strip)
    requires
        0 < i <= s.len(),
        strip.strips(s[i - 1]),
    ensures
        trim_end_of(s.take(i), strip) == trim_end_of(s.take(i - 1), strip),
{
    assert(s.take(i).drop_last() =~= s.take(i - 1));
}

/// `s` without its leading and trailing stripped characters, as
/// `str::trim`, `str::trim_matches` and `str::trim_start_matches` give it.
pub fn trim_chars(s: &[char], strip: Strip, both_ends: bool) -> (r: Vec<char>)
    ensures
        r@ == (if both_ends {
            trim_of(s@, strip)
        } else {
            trim_start_of(s@, strip)
        }),
{
    let n = s.len();
    let mut lo: usize = 0;
    assert(s@.skip(0) =~= s@);
    while lo < n
        invariant
            n == s@.len(),
            0 <= lo <= n,
            trim_start_of(s@, strip) == trim_start_of(s@.skip(lo as int), strip),
        ensures
            0 <= lo <= n,
            trim_start_of(s@, strip) == s@.skip(lo as int),
        decreases n - lo,
    {
        if !strip.test(s[lo]) {
            proof {
                lemma_trim_start_stop(s@, lo as int, strip);
            }
            break;
        }
        proof {
            lemma_trim_start_step(s@, lo as int, strip);
        }
        lo = lo + 1;
    }
    if lo == n {
        assert(s@.skip(lo as int) =~= Seq::<char>::empty());
    }
    if !both_ends {
        return copy_range(s, lo, n);
    }
    let ghost rest = s@.skip(lo as int);
    let mut hi: usize = n;
    assert(rest.take(n - lo) =~= rest);
    while hi > lo
        invariant
            n == s@.len(),
            0 <= lo <= hi <= n,
            rest == s@.skip(lo as int),
            trim_end_of(rest, strip) == trim_end_of(rest.take(hi - lo), strip),
        ensures
            0 <= lo <= hi <= n,
            trim_end_of(rest, strip) == rest.take(hi - lo),
        decreases hi - lo,
    {
        if !strip.test(s[hi - 1]) {
            assert(rest.take(hi - lo).last() == s@[hi - 1]);
            break;
        }
        proof {
            lemma_trim_end_step(rest, hi - lo, strip);
        }
        hi = hi - 1;
    }
    if hi == lo {
        assert(rest.take(0) =~= Seq::<char>::empty());
    }
    assert(rest.take(hi - lo) =~= s@.subrange(lo as int, hi as int));
    copy_range(s, lo, hi)
}

/// At a character that is not stripped, trimming stops.
proof fn lemma_trim_start_stop(s: Seq<char>, lo: int, strip: Strip)
    requires
        0 <= lo < s.len(),
        !strip.strips(s[lo]),
    ensures
        trim_start_of(s.skip(lo), strip) == s.skip(lo),
{
}

/// `split_of` always yields at least one piece.
pub proof fn lemma_split_nonempty(s: Seq<char>, pat: Seq<char>)
    ensures
        split_of(s, pat).len() >= 1,
    decreases s.len(),
{
    if s.len() == 0 {
    } else if pat.len() > 0 && starts_with(s, pat) {
        lemma_split_nonempty(s.skip(pat.len() as int), pat);
    } else {
        lemma_split_nonempty(s.drop_first(), pat);
    }
}

/// The pieces of `s` between the occurrences of `pat`, as `str::split`
/// yields them.
pub fn split_chars(s: &[char], pat: &[char]) -> (parts: Vec<Vec<char>>)
    requires
        pat@.len() > 0,
    ensures
        views(parts@) == split_of(s@, pat@),
{
    let n = s.len();
    let mut done: Vec<Vec<char>> = Vec::new();
    let mut cur: Vec<char> = Vec::new();
    let mut i: usize = 0;
    proof {
        assert(s@.skip(0) =~= s@);
        lemma_split_nonempty(s@, pat@);
        assert(Seq::<char>::empty() + split_of(s@, pat@)[0] =~= split_of(s@, pat@)[0]);
        assert(prepend_to_first(Seq::<char>::empty(), split_of(s@, pat@)) =~= split_of(s@, pat@));
        assert(views(done@) =~= Seq::<Seq<char>>::empty());
        assert(views(done@) + split_of(s@, pat@) =~= split_of(s@, pat@));
    }
    while i < n
        invariant
            n == s@.len(),
            pat@.len() > 0,
            0 <= i <= n,
            views(done@) + prepend_to_first(cur@, split_of(s@.skip(i as int), pat@))
                == split_of(s@, pat@),
        decreases n - i,
    {
        let ghost tail = s@.skip(i as int);
        let ghost old_done = views(done@);
        let ghost old_cur = cur@;
        if occurs_at(s, i, pat) {
            let ghost next = s@.skip(i + pat@.len());
            proof {
                assert(tail.skip(pat@.len() as int) =~= next);
                lemma_split_nonempty(next, pat@);
                let x = split_of(next, pat@);
                assert(split_of(tail, pat@) == seq![Seq::<char>::empty()] + x);
                assert(old_cur + Seq::<char>::empty() =~= old_cur);
                assert(prepend_to_first(old_cur, seq![Seq::<char>::empty()] + x) =~= seq![old_cur]
                    + x);
                assert(Seq::<char>::empty() + x[0] =~= x[0]);
                assert(prepend_to_first(Seq::<char>::empty(), x) =~= x);
            }
            done.push(cur);
            cur = Vec::new();
            i = i + pat.len();
            proof {
                assert(views(done@) =~= old_done.push(old_cur));
                assert(old_done.push(old_cur) + split_of(next, pat@) =~= old_done + (seq![old_cur]
                    + split_of(next, pat@)));
            }
        } else {
            let ghost next = s@.skip(i + 1);
            proof {
                assert(tail.drop_first() =~= next);
                lemma_split_nonempty(next, pat@);
                let x = split_of(next, pat@);
                assert(split_of(tail, pat@) == prepend_to_first(seq![tail[0]], x));
                assert(old_cur + (seq![tail[0]] + x[0]) =~= old_cur.push(tail[0]) + x[0]);
                assert(prepend_to_first(old_cur, prepend_to_first(seq![tail[0]], x))
                    =~= prepend_to_first(old_cur.push(tail[0]), x));
            }
            cur.push(s[i]);
            i = i + 1;
        }
    }
    proof {
        assert(s@.skip(n as int) =~= Seq::<char>::empty());
        assert(cur@ + Seq::<char>::empty() =~= cur@);
        assert(prepend_to_first(cur@, seq![Seq::<char>::empty()]) =~= seq![cur@]);
    }
    let ghost old_done = views(done@);
    let ghost last = cur@;
    done.push(cur);
    proof {
        assert(views(done@) =~= old_done.push(last));
        assert(old_done.push(last) =~= old_done + seq![last]);
    }
    done
}

/// `s` with each occurrence of `pat` replaced by `with`, as `str::replace`
/// gives it.
pub fn replace_chars(s: &[char], pat: &[char], with: &[char]) -> (r: Vec<char>)
    requires
        pat@.len() > 0,
    ensures
        r@ == replace_of(s@, pat@, with@),
{
    let n = s.len();
    let mut out: Vec<char> = Vec::new();
    let mut i: usize = 0;
    proof {
        assert(s@.skip(0) =~= s@);
        assert(out@ + replace_of(s@, pat@, with@) =~= replace_of(s@, pat@, with@));
    }
    while i < n
        invariant
            n == s@.len(),
            pat@.len() > 0,
            0 <= i <= n,
            out@ + replace_of(s@.skip(i as int), pat@, with@) == replace_of(s@, pat@, with@),
        decreases n - i,
    {
        let ghost tail = s@.skip(i as int);
        let ghost old_out = out@;
        if occurs_at(s, i, pat) {
            proof {
                assert(tail.skip(pat@.len() as int) =~= s@.skip(i + pat@.len()));
            }
            let mut j: usize = 0;
            while j < with.len()
                invariant
                    0 <= j <= with@.len(),
                    out@ == old_out + with@.take(j as int),
                decreases with@.len() - j,
            {
                out.push(with[j]);
                j = j + 1;
                assert(out@ =~= old_out + with@.take(j as int));
            }
            i = i + pat.len();
            proof {
                assert(with@.take(with@.len() as int) =~= with@);
                assert(old_out + (with@ + replace_of(s@.skip(i as int), pat@, with@)) =~= out@
                    + replace_of(s@.skip(i as int), pat@, with@));
            }
        } else {
            proof {
                assert(tail.drop_first() =~= s@.skip(i + 1));
            }
            out.push(s[i]);
            i = i + 1;
            proof {
                assert(old_out + (seq![tail[0]] + replace_of(s@.skip(i as int), pat@, with@))
                    =~= out@ + replace_of(s@.skip(i as int), pat@, with@));
            }
        }
    }
    proof {
        assert(s@.skip(n as int) =~= Seq::<char>::empty());
        assert(out@ + Seq::<char>::empty() =~= out@);
    }
    out
}

/// `s` with its first `from` replaced by `to`, as `str::replacen(from, to, 1)`
/// gives it.
pub fn replace_first_char(s: &[char], from: char, to: char) -> (r: Vec<char>)
    ensures
        r@ == replace_first_of(s@, from, to),
{
    let n = s.len();
    let mut out: Vec<char> = Vec::new();
    let mut i: usize = 0;
    proof {
        assert(s@.skip(0) =~= s@);
    }
    while i < n
        invariant
            n == s@.len(),
            0 <= i <= n,
            out@ + replace_first_of(s@.skip(i as int), from, to) == replace_first_of(s@, from, to),
        decreases n - i,
    {
        let ghost tail = s@.skip(i as int);
        proof {
            assert(tail.drop_first() =~= s@.skip(i + 1));
        }
        if s[i] == from {
            out.push(to);
            let rest = copy_range(s, i + 1, n);
            let ghost before = out@;
            let mut k: usize = 0;
            while k < rest.len()
                invariant
                    0 <= k <= rest@.len(),
                    out@ == before + rest@.take(k as int),
                decreases rest@.len() - k,
            {
                out.push(rest[k]);
                k = k + 1;
                assert(out@ =~= before + rest@.take(k as int));
            }
            proof {
                assert(rest@.take(rest@.len() as int) =~= rest@);
                assert(rest@ =~= s@.skip(i + 1));
            }
            return out;
        }
        let ghost old_out = out@;
        out.push(s[i]);
        i = i + 1;
        proof {
            assert(old_out + (seq![tail[0]] + replace_first_of(s@.skip(i as int), from, to))
                =~= out@ + replace_first_of(s@.skip(i as int), from, to));
        }
    }
    proof {
        assert(s@.skip(n as int) =~= Seq::<char>::empty());
        assert(out@ + Seq::<char>::empty() =~= out@);
    }
    out
}

/// The decimal digits of `n`, as `{}` formats an unsigned integer.
pub fn decimal_chars(n: u64) -> (r: Vec<char>)
    ensures
        r@ == decimal_of(n as nat),
    decreases n,
{
    let d = (n % 10) as u8;
    let c = (48u8 + d) as char;
    if n < 10 {
        let mut r: Vec<char> = Vec::new();
        r.push(c);
        proof {
            assert(r@ =~= seq![digit_char(n as nat)]);
        }
        r
    } else {
        let mut r = decimal_chars(n / 10);
        r.push(c);
        r
    }
}

/// What `str::parse::<u32>` gives on `s`.
pub fn parse_u32(s: &[char]) -> (r: Option<u32>)
    ensures
        r == parse_u32_of(s@),
{
    let start: usize = if s.len() > 0 && s[0] == '+' {
        1
    } else {
        0
    };
    let ghost digits = s@.skip(start as int);
    proof {
        if start == 1 {
            assert(digits =~= s@.drop_first());
        } else {
            assert(digits =~= s@);
        }
    }
    if start == s.len() {
        return None;
    }
    let mut value: u64 = 0;
    let mut i: usize = start;
    while i < s.len()
        invariant
            start <= i <= s@.len(),
            digits == s@.skip(start as int),
            digits == (if s@.len() > 0 && s@[0] == '+' {
                s@.drop_first()
            } else {
                s@
            }),
            value == digits_value(digits.take(i - start)),
            value <= u32::MAX,
            forall|k: int| 0 <= k < i - start ==> is_digit(#[trigger] digits[k]),
        decreases s@.len() - i,
    {
        let c = s[i];
        if !(c >= '0' && c <= '9') {
            assert(digits[i - start] == c);
            assert(!is_digit(digits[i - start]));
            return None;
        }
        let d = (c as u32 - 48) as u64;
        proof {
            assert(digits.take(i - start + 1).drop_last() =~= digits.take(i - start));
        }
        let next = value * 10 + d;
        assert(next == digits_value(digits.take(i - start + 1)));
        i = i + 1;
        if next > 4294967295 {
            proof {
                if all_digits(digits) {
                    lemma_digits_value_prefix_monotone(digits, (i - start) as int);
                }
            }
            return None;
        }
        value = next;
    }
    proof {
        assert(digits.take(s@.len() - start) =~= digits);
    }
    Some(value as u32)
}

/// A longer run of digits never has a smaller value.
proof fn lemma_digits_value_prefix_monotone(s: Seq<char>, k: int)
    requires
        0 <= k <= s.len(),
        forall|j: int| 0 <= j < s.len() ==> is_digit(#[trigger] s[j]),
    ensures
        digits_value(s.take(k)) <= digits_value(s),
    decreases s.len() - k,
{
    if k < s.len() {
        lemma_digits_value_prefix_monotone(s, k + 1);
        assert(s.take(k + 1).drop_last() =~= s.take(k));
    } else {
        assert(s.take(k) =~= s);
    }
}

/// A digit's character reads back as the digit.
proof fn lemma_digit_char(d: nat)
    requires
        d < 10,
    ensures
        is_digit(digit_char(d)),
        digit_value(digit_char(d)) == d,
{
    assert(((d + 48) as char) as nat == d + 48);
}

/// The decimal digits of a number are all digits, and read back as it.
pub proof fn lemma_decimal_digits(n: nat)
    ensures
        decimal_of(n).len() > 0,
        all_digits(decimal_of(n)),
        digits_value(decimal_of(n)) == n,
    decreases n,
{
    if n < 10 {
        lemma_digit_char(n);
        let d = decimal_of(n);
        assert(d.drop_last() =~= Seq::<char>::empty());
        assert(d.last() == digit_char(n));
        assert(digits_value(d) == digits_value(d.drop_last()) * 10 + digit_value(d.last()));
    } else {
        lemma_digit_char(n % 10);
        assert(n == (n / 10) * 10 + n % 10) by (nonlinear_arith);
        lemma_decimal_digits(n / 10);
        let d = decimal_of(n);
        assert(d.drop_last() =~= decimal_of(n / 10));
        assert(d.last() == digit_char(n % 10));
        assert(digits_value(d) == digits_value(d.drop_last()) * 10 + digit_value(d.last()));
        assert forall|i: int| 0 <= i < d.len() implies is_digit(#[trigger] d[i]) by {
            if i < d.len() - 1 {
                assert(d[i] == decimal_of(n / 10)[i]);
            }
        }
    }
}

/// Reading back a port: the decimal text of a 32-bit number, as the server
/// writes a port into an address, parses (as `str::parse::<u32>` does) to
/// that number.
pub proof fn lemma_decimal_round_trip(n: u32)
    ensures
        parse_u32_of(decimal_of(n as nat)) == Some(n),
{
    lemma_decimal_digits(n as nat);
    let d = decimal_of(n as nat);
    assert(is_digit(d[0]));
}

/// Trimming from the start stops at a character that is not stripped.
proof fn lemma_trim_start_ends(s: Seq<char>, strip: Strip)
    ensures
        trim_start_of(s, strip).len() == 0 || !strip.strips(trim_start_of(s, strip)[0]),
    decreases s.len(),
{
    if s.len() > 0 && strip.strips(s[0]) {
        lemma_trim_start_ends(s.drop_first(), strip);
    }
}

/// Trimming from the end stops at a character that is not stripped, and
/// leaves a prefix.
proof fn lemma_trim_end_ends(s: Seq<char>, strip: Strip)
    ensures
        trim_end_of(s, strip).len() <= s.len(),
        trim_end_of(s, strip) == s.take(trim_end_of(s, strip).len() as int),
        trim_end_of(s, strip).len() == 0 || !strip.strips(trim_end_of(s, strip).last()),
    decreases s.len(),
{
    if s.len() > 0 && strip.strips(s.last()) {
        lemma_trim_end_ends(s.drop_last(), strip);
        let t = trim_end_of(s.drop_last(), strip);
        assert(s.drop_last().take(t.len() as int) =~= s.take(t.len() as int));
    } else {
        assert(s.take(s.len() as int) =~= s);
    }
}

/// What trimming leaves neither starts nor ends with a stripped character.
pub proof fn lemma_trim_ends(s: Seq<char>, strip: Strip)
    ensures
        trim_start_of(s, strip).len() == 0 || !strip.strips(trim_start_of(s, strip)[0]),
        trim_of(s, strip).len() == 0 || (!strip.strips(trim_of(s, strip)[0]) && !strip.strips(
            trim_of(s, strip).last(),
        )),
{
    lemma_trim_start_ends(s, strip);
    let t = trim_start_of(s, strip);
    lemma_trim_end_ends(t, strip);
    let r = trim_end_of(t, strip);
    if r.len() > 0 {
        assert(r[0] == t.take(r.len() as int)[0]);
    }
}

/// Replacing the first `from`: the text changes at the first `from` only.
pub proof fn lemma_replace_first(s: Seq<char>, from: char, to: char)
    ensures
        s.contains(from) ==> exists|k: int|
            0 <= k < s.len() && s[k] == from && (forall|j: int| 0 <= j < k ==> s[j] != from)
                && #[trigger] replace_first_of(s, from, to) == s.update(k, to),
        !s.contains(from) ==> replace_first_of(s, from, to) == s,
    decreases s.len(),
{
    if s.len() == 0 {
    } else if s[0] == from {
        assert(seq![to] + s.drop_first() =~= s.update(0, to));
    } else {
        let rest = s.drop_first();
        lemma_replace_first(rest, from, to);
        if s.contains(from) {
            let i = choose|i: int| 0 <= i < s.len() && s[i] == from;
            assert(rest[i - 1] == from);
            let k = choose|k: int|
                0 <= k < rest.len() && rest[k] == from && (forall|j: int| 0 <= j < k ==> rest[j] != from)
                    && #[trigger] replace_first_of(rest, from, to) == rest.update(k, to);
            assert(seq![s[0]] + rest.update(k, to) =~= s.update(k + 1, to));
            assert forall|j: int| 0 <= j < k + 1 implies s[j] != from by {
                if j > 0 {
                    assert(s[j] == rest[j - 1]);
                }
            }
            assert(replace_first_of(s, from, to) == s.update(k + 1, to));
        } else {
            assert(!rest.contains(from)) by {
                if rest.contains(from) {
                    let i = choose|i: int| 0 <= i < rest.len() && rest[i] == from;
                    assert(s[i + 1] == from);
                }
            }
            assert(seq![s[0]] + rest =~= s);
        }
    }
}

} // verus!
