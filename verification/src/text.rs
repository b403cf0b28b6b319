//! Text as sequences of characters: the primitives the judge compares with.
//!
//! Every function here is stated over `Seq<char>`, the view of `str` and
//! `String`. The executable versions work on slices of `char`, so that a text
//! is decoded once and then indexed in constant time.

use vstd::prelude::*;
use vstd::string::StringExecFns;

verus! {

/// The characters of `s`, in order.
pub fn to_chars(s: &str) -> (chars: Vec<char>)
    ensures
        chars@ == s@,
{
    broadcast use vstd::string::group_string_axioms;

    let mut chars: Vec<char> = Vec::new();
    for c in it: s.chars()
        invariant
            chars@ == s@.take(it.index()),
            it.seq() == s@,
    {
        chars.push(c);
    }
    chars
}

/// `String::push` appends exactly one character to the end of the string.
pub assume_specification[ String::push ](s: &mut String, c: char)
    ensures
        final(s)@ == old(s)@.push(c),
;

/// `first` followed by `second`, as a new string.
pub fn joined(first: &str, second: &str) -> (text: String)
    ensures
        text@ == first@ + second@,
{
    let mut text = String::from_str(first);
    text.append(second);
    text
}

/// Whether `c` is white space: a character with the Unicode property
/// `White_Space`.
pub open spec fn is_whitespace(c: char) -> bool {
    let u = c as u32;
    ||| 0x09 <= u <= 0x0D
    ||| u == 0x20
    ||| u == 0x85
    ||| u == 0xA0
    ||| u == 0x1680
    ||| 0x2000 <= u <= 0x200A
    ||| u == 0x2028
    ||| u == 0x2029
    ||| u == 0x202F
    ||| u == 0x205F
    ||| u == 0x3000
}

/// Decides [`is_whitespace`].
pub fn whitespace(c: char) -> (b: bool)
    ensures
        b == is_whitespace(c),
{
    let u: u32 = c as u32;
    (0x09 <= u && u <= 0x0D) || u == 0x20 || u == 0x85 || u == 0xA0 || u == 0x1680 || (0x2000 <= u
        && u <= 0x200A) || u == 0x2028 || u == 0x2029 || u == 0x202F || u == 0x205F || u == 0x3000
}

/// The length of `s` once its trailing white space is removed.
pub open spec fn trimmed_len(s: Seq<char>) -> nat
    decreases s.len(),
{
    if s.len() > 0 && is_whitespace(s.last()) {
        trimmed_len(s.drop_last())
    } else {
        s.len()
    }
}

/// `s` without its trailing white space.
pub open spec fn trim_end(s: Seq<char>) -> Seq<char> {
    s.take(trimmed_len(s) as int)
}

/// Computes [`trimmed_len`].
pub fn trimmed_length(s: &[char]) -> (n: usize)
    ensures
        n == trimmed_len(s@),
        n <= s.len(),
{
    let mut n: usize = s.len();
    assert(s@.take(n as int) =~= s@);
    while n > 0 && whitespace(s[n - 1])
        invariant
            n <= s.len(),
            trimmed_len(s@) == trimmed_len(s@.take(n as int)),
        decreases n,
    {
        assert(s@.take(n as int).drop_last() == s@.take(n - 1));
        n -= 1;
    }
    n
}

/// Whether position `i` of `s` holds the carriage return of a `"\r\n"` pair.
pub open spec fn is_paired_cr(s: Seq<char>, i: int) -> bool {
    &&& 0 <= i
    &&& i + 1 < s.len()
    &&& s[i] == '\r'
    &&& s[i + 1] == '\n'
}

/// The first `n` characters of `s` without the carriage returns of its
/// `"\r\n"` pairs.
pub open spec fn unified_prefix(s: Seq<char>, n: nat) -> Seq<char>
    decreases n,
{
    if n == 0 {
        Seq::empty()
    } else if is_paired_cr(s, n - 1) {
        unified_prefix(s, (n - 1) as nat)
    } else {
        unified_prefix(s, (n - 1) as nat).push(s[n - 1])
    }
}

/// `s` with every `"\r\n"` replaced by `"\n"`.
pub open spec fn unify_line_endings(s: Seq<char>) -> Seq<char> {
    unified_prefix(s, s.len())
}

/// Computes [`unify_line_endings`].
pub fn unified_line_endings(s: &[char]) -> (out: Vec<char>)
    ensures
        out@ == unify_line_endings(s@),
{
    let mut out: Vec<char> = Vec::new();
    let mut i: usize = 0;
    while i < s.len()
        invariant
            i <= s.len(),
            out@ == unified_prefix(s@, i as nat),
        decreases s.len() - i,
    {
        let paired = s[i] == '\r' && i + 1 < s.len() && s[i + 1] == '\n';
        if !paired {
            out.push(s[i]);
        }
        i += 1;
    }
    out
}

/// Whether `needle` stands in `hay` at position `i`.
pub open spec fn occurs_at(hay: Seq<char>, needle: Seq<char>, i: int) -> bool {
    &&& 0 <= i
    &&& i + needle.len() <= hay.len()
    &&& hay.subrange(i, i + needle.len()) == needle
}

/// Whether `needle` is a contiguous part of `hay`.
pub open spec fn contains(hay: Seq<char>, needle: Seq<char>) -> bool {
    exists|i: int| occurs_at(hay, needle, i)
}

/// Decides [`occurs_at`] for a position at which `needle` fits.
fn found_at(hay: &[char], needle: &[char], i: usize) -> (b: bool)
    requires
        i + needle.len() <= hay.len(),
    ensures
        b == occurs_at(hay@, needle@, i as int),
{
    let mut k: usize = 0;
    while k < needle.len()
        invariant
            k <= needle.len(),
            i + needle.len() <= hay.len(),
            forall|j: int| 0 <= j < k ==> hay@[i + j] == needle@[j],
        decreases needle.len() - k,
    {
        if hay[i + k] != needle[k] {
            assert(hay@.subrange(i as int, i + needle.len())[k as int] == hay@[i + k]);
            return false;
        }
        k += 1;
    }
    assert(hay@.subrange(i as int, i + needle.len()) =~= needle@);
    true
}

/// Decides [`contains`].
pub fn has_part(hay: &[char], needle: &[char]) -> (b: bool)
    ensures
        b == contains(hay@, needle@),
{
    if needle.len() > hay.len() {
        return false;
    }
    let last: usize = hay.len() - needle.len();
    let mut i: usize = 0;
    loop
        invariant
            i <= last,
            last == hay.len() - needle.len(),
            needle.len() <= hay.len(),
            forall|j: int| 0 <= j < i ==> !occurs_at(hay@, needle@, j),
        decreases last - i,
    {
        if found_at(hay, needle, i) {
            return true;
        }
        if i == last {
            return false;
        }
        i += 1;
    }
}

/// Whether the first `na` characters of `a` are the first `nb` of `b`.
pub fn same_prefix(a: &[char], na: usize, b: &[char], nb: usize) -> (same: bool)
    requires
        na <= a.len(),
        nb <= b.len(),
    ensures
        same == (a@.take(na as int) == b@.take(nb as int)),
{
    if na != nb {
        assert(a@.take(na as int).len() != b@.take(nb as int).len());
        return false;
    }
    let mut k: usize = 0;
    while k < na
        invariant
            k <= na,
            na == nb,
            na <= a.len(),
            nb <= b.len(),
            forall|j: int| 0 <= j < k ==> a@[j] == b@[j],
        decreases na - k,
    {
        if a[k] != b[k] {
            assert(a@.take(na as int)[k as int] != b@.take(nb as int)[k as int]);
            return false;
        }
        k += 1;
    }
    assert(a@.take(na as int) =~= b@.take(nb as int));
    true
}

/// Whether `a` and `b` are the same text.
pub fn same_text(a: &str, b: &str) -> (same: bool)
    ensures
        same == (a@ == b@),
{
    let left = to_chars(a);
    let right = to_chars(b);
    assert(left@.take(left.len() as int) =~= left@);
    assert(right@.take(right.len() as int) =~= right@);
    same_prefix(left.as_slice(), left.len(), right.as_slice(), right.len())
}

/// The character that writes the decimal digit `d`.
pub open spec fn digit(d: nat) -> char
    recommends
        d < 10,
{
    (48 + d) as u8 as char
}

/// `n` written in decimal, without leading zeros.
pub open spec fn decimal(n: nat) -> Seq<char>
    decreases n,
{
    if n < 10 {
        seq![digit(n)]
    } else {
        decimal(n / 10).push(digit(n % 10))
    }
}

/// Appends [`decimal`] of `n` to `out`.
pub fn append_decimal(out: &mut String, n: u128)
    ensures
        final(out)@ == old(out)@ + decimal(n as nat),
    decreases n,
{
    if n >= 10 {
        append_decimal(out, n / 10);
    }
    let d: u8 = (n % 10) as u8;
    out.push((48u8 + d) as char);
    proof {
        if n >= 10 {
            assert(old(out)@ + decimal(n as nat) =~= (old(out)@ + decimal((n / 10) as nat)).push(
                digit((n % 10) as nat),
            ));
        } else {
            assert(old(out)@ + decimal(n as nat) =~= old(out)@.push(digit(n as nat)));
        }
    }
}

/// The text that lossy UTF-8 decoding makes of `bytes`: the characters that
/// the valid parts encode, with a replacement character for each invalid part.
pub uninterp spec fn lossy_text(bytes: Seq<u8>) -> Seq<char>;

/// Decodes `bytes` with `String::from_utf8_lossy`, which never fails. The result
/// is a function of the bytes alone; for well-formed UTF-8 it is the text
/// that the bytes encode.
#[verifier::external_body]
pub(crate) fn decode_lossy(bytes: &[u8]) -> (text: String)
    ensures
        text@ == lossy_text(bytes@),
        vstd::utf8::valid_utf8(bytes@) ==> text@ == vstd::utf8::decode_utf8(bytes@),
{
    String::from_utf8_lossy(bytes).into_owned()
}


/// Whether `c` is one of the ten decimal digits.
pub open spec fn is_digit(c: char) -> bool {
    48 <= c as u32 <= 57
}

/// A decimal numeral is not empty and holds digits only.
pub proof fn lemma_decimal_digits(n: nat)
    ensures
        decimal(n).len() >= 1,
        forall|i: int| 0 <= i < decimal(n).len() ==> is_digit(#[trigger] decimal(n)[i]),
    decreases n,
{
    if n >= 10 {
        lemma_decimal_digits(n / 10);
    }
}

/// Two numbers with the same decimal numeral are the same number.
pub proof fn lemma_decimal_injective(a: nat, b: nat)
    requires
        decimal(a) == decimal(b),
    ensures
        a == b,
    decreases a,
{
    lemma_decimal_digits(a / 10);
    lemma_decimal_digits(b / 10);
    if a < 10 && b < 10 {
        assert(decimal(a)[0] == digit(a));
        assert(decimal(b)[0] == digit(b));
    } else if a >= 10 && b >= 10 {
        assert(decimal(a).drop_last() =~= decimal(a / 10));
        assert(decimal(b).drop_last() =~= decimal(b / 10));
        lemma_decimal_injective(a / 10, b / 10);
        assert(decimal(a).last() == digit(a % 10));
        assert(decimal(b).last() == digit(b % 10));
    } else {
        assert(decimal(a).len() != decimal(b).len());
    }
}

/// Text without a carriage return is left as it is by [`unify_line_endings`].
pub proof fn lemma_unify_without_cr(s: Seq<char>)
    requires
        forall|i: int| 0 <= i < s.len() ==> s[i] != '\r',
    ensures
        unify_line_endings(s) == s,
{
    lemma_unified_prefix_without_cr(s, s.len());
    assert(s.take(s.len() as int) =~= s);
}

proof fn lemma_unified_prefix_without_cr(s: Seq<char>, n: nat)
    requires
        n <= s.len(),
        forall|i: int| 0 <= i < s.len() ==> s[i] != '\r',
    ensures
        unified_prefix(s, n) == s.take(n as int),
    decreases n,
{
    if n > 0 {
        lemma_unified_prefix_without_cr(s, (n - 1) as nat);
        assert(s.take(n as int) =~= s.take(n - 1).push(s[n - 1]));
    } else {
        assert(s.take(0) =~= Seq::<char>::empty());
    }
}

/// What [`trim_end`] leaves: a prefix of the text that does not end in white
/// space, and that only white space follows.
pub proof fn lemma_trim_end_shape(s: Seq<char>)
    ensures
        trimmed_len(s) <= s.len(),
        trimmed_len(s) > 0 ==> !is_whitespace(s[trimmed_len(s) - 1]),
        forall|i: int| trimmed_len(s) <= i < s.len() ==> is_whitespace(#[trigger] s[i]),
    decreases s.len(),
{
    if s.len() > 0 && is_whitespace(s.last()) {
        let init = s.drop_last();
        lemma_trim_end_shape(init);
        assert forall|i: int| trimmed_len(s) <= i < s.len() implies is_whitespace(
            #[trigger] s[i],
        ) by {
            if i < init.len() {
                assert(init[i] == s[i]);
            }
        }
    }
}

} // verus!
