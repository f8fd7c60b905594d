//! Text handling: UTF-8 decoding, the first line of a text, whitespace
//! trimming, and decimal numbers.

use vstd::prelude::*;
use vstd::std_specs::iter::IteratorSpec;
use vstd::utf8::{decode_utf8, valid_utf8};

verus! {

/// What lossy UTF-8 decoding yields for `bytes`: every maximal invalid
/// sequence becomes U+FFFD.
pub uninterp spec fn utf8_lossy(bytes: Seq<u8>) -> Seq<char>;

/// Calls `String::from_utf8_lossy` and takes the owned string. Its
/// documentation promises that valid UTF-8 is decoded as is; what invalid
/// input turns into is only named (`utf8_lossy`).
#[verifier::external_body]
pub(crate) fn decode_utf8_lossy(bytes: &[u8]) -> (r: String)
    ensures
        r@ == utf8_lossy(bytes@),
        valid_utf8(bytes@) ==> r@ == decode_utf8(bytes@),
{
    String::from_utf8_lossy(bytes).into_owned()
}

/// Calls `std::str::from_utf8`: it succeeds exactly on valid UTF-8, and then
/// holds the decoded characters.
#[verifier::external_body]
pub(crate) fn decode_utf8_strict(bytes: &[u8]) -> (r: Option<String>)
    ensures
        r is Some <==> valid_utf8(bytes@),
        r matches Some(s) ==> s@ == decode_utf8(bytes@),
{
    match std::str::from_utf8(bytes) {
        Ok(s) => Some(s.to_owned()),
        Err(_) => None,
    }
}

/// The characters of `s`, in order.
pub(crate) fn chars_of(s: &str) -> (r: Vec<char>)
    ensures
        r@ == s@,
{
    broadcast use vstd::string::axiom_spec_iter;

    let mut it = s.chars();
    let mut out: Vec<char> = Vec::new();
    loop
        invariant
            out@ + it.remaining() == s@,
            it.decrease() is Some,
        ensures
            out@ == s@,
        decreases it.decrease()->0,
    {
        match it.next() {
            Some(c) => {
                out.push(c);
            },
            None => {
                break;
            },
        }
    }
    out
}

/// Calls `FromIterator<char>` for `String`: the string of the given
/// characters, in order.
#[verifier::external_body]
pub(crate) fn string_from_chars(chars: &[char]) -> (r: String)
    ensures
        r@ == chars@,
{
    chars.iter().collect()
}

/// Whether `c` is an ASCII decimal digit.
pub open spec fn is_digit(c: char) -> bool {
    '0' <= c <= '9'
}

/// The value of a run of decimal digits, most significant first.
pub open spec fn digits_value(s: Seq<char>) -> int
    decreases s.len(),
{
    if s.len() == 0 {
        0
    } else {
        digits_value(s.drop_last()) * 10 + (s.last() as int - '0' as int)
    }
}

/// The ASCII character of the decimal digit `d`.
pub open spec fn digit_char(d: nat) -> char {
    ('0' as int + d) as char
}

/// The decimal digits of `n`, most significant first, without leading
/// zeros (`0` is the single digit `0`).
pub open spec fn decimal_digits(n: nat) -> Seq<char>
    decreases n,
{
    if n < 10 {
        seq![digit_char(n)]
    } else {
        decimal_digits(n / 10).push(digit_char(n % 10))
    }
}

/// `n` written in decimal, with a leading `-` when it is negative.
pub open spec fn decimal_text(n: int) -> Seq<char> {
    if n < 0 {
        seq!['-'] + decimal_digits((-n) as nat)
    } else {
        decimal_digits(n as nat)
    }
}

/// The character of the decimal digit `d`.
fn digit_to_char(d: u64) -> (c: char)
    requires
        d < 10,
    ensures
        c == digit_char(d as nat),
{
    let b: u8 = 48u8 + d as u8;
    b as char
}

/// Appends the decimal digits of `n` to `out`.
fn push_decimal_digits(out: &mut Vec<char>, n: u64)
    ensures
        final(out)@ == old(out)@ + decimal_digits(n as nat),
    decreases n,
{
    if n >= 10 {
        push_decimal_digits(out, n / 10);
    }
    let c = digit_to_char(n % 10);
    out.push(c);
    proof {
        if n >= 10 {
            assert(old(out)@ + decimal_digits(n as nat) =~= old(out)@ + decimal_digits((n / 10) as nat)
                + seq![c]);
        } else {
            assert(decimal_digits(n as nat) =~= seq![c]);
        }
    }
}

/// Appends `n` written in decimal to `out`, as `Display` and `Debug` write
/// an `i32`.
pub fn push_decimal(out: &mut Vec<char>, n: i32)
    ensures
        final(out)@ == old(out)@ + decimal_text(n as int),
{
    let wide: i64 = n as i64;
    if wide < 0 {
        out.push('-');
        let m: u64 = (0i64 - wide) as u64;
        push_decimal_digits(out, m);
        assert(old(out)@ + decimal_text(n as int) =~= old(out)@ + seq!['-'] + decimal_digits(
            m as nat,
        ));
    } else {
        push_decimal_digits(out, wide as u64);
    }
}

/// `i32`'s `FromStr`: an optional `+` or `-`, then at least one decimal digit,
/// with a value that fits in an `i32`.
pub open spec fn spec_parse_i32(s: Seq<char>) -> Option<i32> {
    let negative = s.len() > 0 && s[0] == '-';
    let body = if s.len() > 0 && (s[0] == '-' || s[0] == '+') {
        s.drop_first()
    } else {
        s
    };
    let value = if negative {
        -digits_value(body)
    } else {
        digits_value(body)
    };
    if body.len() > 0 && (forall|i: int| 0 <= i < body.len() ==> is_digit(#[trigger] body[i]))
        && i32::MIN <= value <= i32::MAX {
        Some(value as i32)
    } else {
        None
    }
}

/// Calls `str::parse::<i32>`, whose behaviour the documentation of
/// `FromStr for i32` gives as `spec_parse_i32`.
#[verifier::external_body]
pub(crate) fn parse_i32(s: &str) -> (r: Option<i32>)
    ensures
        r == spec_parse_i32(s@),
{
    s.parse::<i32>().ok()
}

/// `char::is_whitespace`: the characters with the Unicode `White_Space`
/// property.
pub open spec fn spec_is_whitespace(c: char) -> bool {
    let u = c as u32;
    ||| u == 0x20
    ||| 0x09 <= u <= 0x0d
    ||| u == 0x85
    ||| u == 0xa0
    ||| u == 0x1680
    ||| 0x2000 <= u <= 0x200a
    ||| u == 0x2028
    ||| u == 0x2029
    ||| u == 0x202f
    ||| u == 0x205f
    ||| u == 0x3000
}

/// Whether `c` is whitespace in the sense of `char::is_whitespace`.
pub fn is_whitespace(c: char) -> (r: bool)
    ensures
        r == spec_is_whitespace(c),
{
    let u = c as u32;
    u == 0x20 || (0x09 <= u && u <= 0x0d) || u == 0x85 || u == 0xa0 || u == 0x1680 || (0x2000
        <= u && u <= 0x200a) || u == 0x2028 || u == 0x2029 || u == 0x202f || u == 0x205f || u
        == 0x3000
}

/// `s` without its leading whitespace.
pub open spec fn trim_start(s: Seq<char>) -> Seq<char>
    decreases s.len(),
{
    if s.len() > 0 && spec_is_whitespace(s[0]) {
        trim_start(s.drop_first())
    } else {
        s
    }
}

/// `s` without its trailing whitespace.
pub open spec fn trim_end(s: Seq<char>) -> Seq<char>
    decreases s.len(),
{
    if s.len() > 0 && spec_is_whitespace(s.last()) {
        trim_end(s.drop_last())
    } else {
        s
    }
}

/// `str::trim`: `s` without leading and trailing whitespace.
pub open spec fn spec_trim(s: Seq<char>) -> Seq<char> {
    trim_end(trim_start(s))
}

/// The position of the first newline in `s`, or its length if it has none.
pub open spec fn line_end(s: Seq<char>) -> int
    decreases s.len(),
{
    if s.len() == 0 || s[0] == '\n' {
        0
    } else {
        1 + line_end(s.drop_first())
    }
}

/// `str::lines().next().unwrap_or("")`: the text before the first newline,
/// without a carriage return that directly precedes that newline; the whole
/// text if it has no newline.
pub open spec fn first_line(s: Seq<char>) -> Seq<char> {
    let k = line_end(s);
    let line = s.take(k);
    if k < s.len() && line.len() > 0 && line.last() == '\r' {
        line.drop_last()
    } else {
        line
    }
}

/// The one-line preview of a body's first bytes: the first line of their
/// lossy UTF-8 decoding, trimmed.
pub open spec fn spec_preview(bytes: Seq<u8>) -> Seq<char> {
    spec_trim(first_line(utf8_lossy(bytes)))
}

proof fn lemma_line_end_bounds(s: Seq<char>)
    ensures
        0 <= line_end(s) <= s.len(),
        line_end(s) < s.len() ==> s[line_end(s)] == '\n',
        forall|i: int| 0 <= i < line_end(s) ==> s[i] != '\n',
    decreases s.len(),
{
    if s.len() > 0 && s[0] != '\n' {
        lemma_line_end_bounds(s.drop_first());
        assert forall|i: int| 0 <= i < line_end(s) implies s[i] != '\n' by {
            if i > 0 {
                assert(s[i] == s.drop_first()[i - 1]);
            }
        }
    }
}

/// `trim_start` drops a prefix of whitespace and keeps the rest.
proof fn lemma_trim_start(s: Seq<char>)
    ensures
        trim_start(s).len() <= s.len(),
        trim_start(s) == s.subrange(s.len() - trim_start(s).len(), s.len() as int),
        trim_start(s).len() > 0 ==> !spec_is_whitespace(trim_start(s)[0]),
        forall|i: int| 0 <= i < s.len() - trim_start(s).len() ==> spec_is_whitespace(#[trigger] s[i]),
    decreases s.len(),
{
    if s.len() > 0 && spec_is_whitespace(s[0]) {
        lemma_trim_start(s.drop_first());
        assert forall|i: int| 0 <= i < s.len() - trim_start(s).len() implies spec_is_whitespace(
            #[trigger] s[i],
        ) by {
            if i > 0 {
                assert(s[i] == s.drop_first()[i - 1]);
            }
        }
        assert(s.drop_first().subrange(
            s.drop_first().len() - trim_start(s).len(),
            s.drop_first().len() as int,
        ) =~= s.subrange(s.len() - trim_start(s).len(), s.len() as int));
    } else {
        assert(s.subrange(0, s.len() as int) =~= s);
    }
}

/// `trim_end` drops a suffix of whitespace and keeps the rest.
proof fn lemma_trim_end(s: Seq<char>)
    ensures
        trim_end(s).len() <= s.len(),
        trim_end(s) == s.take(trim_end(s).len() as int),
        trim_end(s).len() > 0 ==> !spec_is_whitespace(trim_end(s).last()),
        forall|i: int| trim_end(s).len() <= i < s.len() ==> spec_is_whitespace(#[trigger] s[i]),
    decreases s.len(),
{
    if s.len() > 0 && spec_is_whitespace(s.last()) {
        lemma_trim_end(s.drop_last());
        assert forall|i: int| trim_end(s).len() <= i < s.len() implies spec_is_whitespace(
            #[trigger] s[i],
        ) by {
            if i < s.len() - 1 {
                assert(s[i] == s.drop_last()[i]);
            }
        }
        assert(s.drop_last().take(trim_end(s).len() as int) =~= s.take(trim_end(s).len() as int));
    } else {
        assert(s.take(s.len() as int) =~= s);
    }
}

/// Where the trimmed text starts within `s`.
pub open spec fn trim_offset(s: Seq<char>) -> int {
    s.len() - trim_start(s).len()
}

/// Proves what a trimmed text looks like: a piece of the original that
/// neither starts nor ends with whitespace, with only whitespace before and
/// after it.
pub proof fn lemma_trim_shape(s: Seq<char>)
    ensures
        0 <= trim_offset(s),
        trim_offset(s) + spec_trim(s).len() <= s.len(),
        spec_trim(s) == s.subrange(trim_offset(s), trim_offset(s) + spec_trim(s).len()),
        spec_trim(s).len() > 0 ==> !spec_is_whitespace(spec_trim(s)[0]),
        spec_trim(s).len() > 0 ==> !spec_is_whitespace(spec_trim(s).last()),
        forall|i: int| 0 <= i < trim_offset(s) ==> spec_is_whitespace(#[trigger] s[i]),
        forall|i: int|
            trim_offset(s) + spec_trim(s).len() <= i < s.len() ==> spec_is_whitespace(
                #[trigger] s[i],
            ),
{
    let t = trim_start(s);
    lemma_trim_start(s);
    lemma_trim_end(t);
    let a = trim_offset(s);
    assert(spec_trim(s) =~= s.subrange(a, a + spec_trim(s).len()));
    if spec_trim(s).len() > 0 {
        assert(spec_trim(s)[0] == t[0]);
    }
    assert forall|i: int| a + spec_trim(s).len() <= i < s.len() implies spec_is_whitespace(
        #[trigger] s[i],
    ) by {
        assert(s[i] == t[i - a]);
    }
}

/// The index of the first non-whitespace character of `s` (its length if
/// there is none).
fn trimmed_start(s: &Vec<char>) -> (r: usize)
    ensures
        r <= s@.len(),
        trim_start(s@) == s@.subrange(r as int, s@.len() as int),
{
    let n = s.len();
    let mut i: usize = 0;
    assert(s@.subrange(0, n as int) =~= s@);
    while i < n && is_whitespace(s[i])
        invariant
            n == s@.len(),
            i <= n,
            trim_start(s@) == trim_start(s@.subrange(i as int, n as int)),
        decreases n - i,
    {
        assert(s@.subrange(i as int, n as int).drop_first() =~= s@.subrange(i + 1, n as int));
        i = i + 1;
    }
    i
}

/// Trims leading and trailing whitespace, as `str::trim` does.
pub fn trim(s: &Vec<char>) -> (r: Vec<char>)
    ensures
        r@ == spec_trim(s@),
{
    let n = s.len();
    let start = trimmed_start(s);
    let ghost t = s@.subrange(start as int, n as int);
    let mut end: usize = n;
    assert(t.take((end - start) as int) =~= t);
    while end > start && is_whitespace(s[end - 1])
        invariant
            n == s@.len(),
            start <= end <= n,
            t == s@.subrange(start as int, n as int),
            trim_end(t) == trim_end(t.take((end - start) as int)),
        decreases end,
    {
        assert(t.take((end - start) as int).drop_last() =~= t.take((end - 1 - start) as int));
        end = end - 1;
    }
    let mut r: Vec<char> = Vec::new();
    let mut k: usize = start;
    while k < end
        invariant
            start <= k <= end <= n,
            n == s@.len(),
            r@ =~= s@.subrange(start as int, k as int),
        decreases end - k,
    {
        r.push(s[k]);
        k = k + 1;
    }
    assert(t.take((end - start) as int) =~= s@.subrange(start as int, end as int));
    r
}

/// The first line of `s`, as `str::lines().next().unwrap_or("")` gives it.
pub fn first_line_of(s: &Vec<char>) -> (r: Vec<char>)
    ensures
        r@ == first_line(s@),
{
    let n = s.len();
    let mut r: Vec<char> = Vec::new();
    let mut i: usize = 0;
    assert(s@.subrange(0, n as int) =~= s@);
    while i < n && s[i] != '\n'
        invariant
            n == s@.len(),
            i <= n,
            line_end(s@) == i + line_end(s@.subrange(i as int, n as int)),
            r@ =~= s@.take(i as int),
        decreases n - i,
    {
        assert(s@.subrange(i as int, n as int).drop_first() =~= s@.subrange(i + 1, n as int));
        r.push(s[i]);
        i = i + 1;
    }
    assert(line_end(s@) == i);
    if i < n && r.len() > 0 && r[r.len() - 1] == '\r' {
        r.pop();
    }
    r
}

/// The one-line preview of the first bytes of a body: decodes them as UTF-8
/// (invalid sequences become U+FFFD), keeps the first line and trims it.
pub fn first_line_preview(bytes: &[u8]) -> (r: String)
    ensures
        r@ == spec_preview(bytes@),
{
    let text = decode_utf8_lossy(bytes);
    let chars = chars_of(text.as_str());
    let line = first_line_of(&chars);
    let trimmed = trim(&line);
    string_from_chars(trimmed.as_slice())
}

/// A preview is a single line that neither starts nor ends with whitespace.
pub proof fn lemma_preview_is_one_trimmed_line(bytes: Seq<u8>)
    ensures
        forall|i: int| 0 <= i < spec_preview(bytes).len() ==> #[trigger] spec_preview(bytes)[i]
            != '\n',
        spec_preview(bytes).len() > 0 ==> !spec_is_whitespace(spec_preview(bytes)[0]),
        spec_preview(bytes).len() > 0 ==> !spec_is_whitespace(spec_preview(bytes).last()),
{
    let s = utf8_lossy(bytes);
    let l = first_line(s);
    lemma_line_end_bounds(s);
    assert forall|i: int| 0 <= i < l.len() implies #[trigger] l[i] != '\n' by {
        assert(l[i] == s[i]);
    }
    lemma_trim_shape(l);
    let a = trim_offset(l);
    assert forall|i: int| 0 <= i < spec_preview(bytes).len() implies #[trigger] spec_preview(
        bytes,
    )[i] != '\n' by {
        assert(spec_preview(bytes)[i] == l[a + i]);
    }
}

/// The first line is all the text before the first newline: a prefix of the
/// text with no newline in it, that stops only at the end of the text, at a
/// newline, or at a carriage return directly followed by a newline (and a
/// line that stops at a newline does not end with a carriage return).
pub proof fn lemma_first_line_is_whole_line(s: Seq<char>)
    ensures
        ({
            let r = first_line(s);
            let n = r.len() as int;
            &&& r == s.take(n)
            &&& forall|i: int| 0 <= i < n ==> #[trigger] r[i] != '\n'
            &&& (n == s.len() || (n < s.len() && s[n] == '\n' && (n == 0 || s[n - 1] != '\r'))
                || (n + 1 < s.len() && s[n] == '\r' && s[n + 1] == '\n'))
        }),
{
    lemma_line_end_bounds(s);
    let k = line_end(s);
    let r = first_line(s);
    assert forall|i: int| 0 <= i < r.len() implies #[trigger] r[i] != '\n' by {
        assert(r[i] == s[i]);
    }
    if k < s.len() && k > 0 && s[k - 1] == '\r' {
        assert(r =~= s.take(k - 1));
    } else {
        assert(r =~= s.take(k));
    }
}

} // verus!
