use vstd::prelude::*;
use vstd::string::StrSliceExecFns;
use vstd::string::StringExecFns;

verus! {

// ---------------------------------------------------------------------------
// Equality of byte slices and strings
// ---------------------------------------------------------------------------

/// Equality of two byte slices, decided element by element.
pub fn bytes_eq(a: &[u8], b: &[u8]) -> (r: bool)
    ensures
        r == (a@ == b@),
{
    if a.len() != b.len() {
        return false;
    }
    let mut i: usize = 0;
    while i < a.len()
        invariant
            0 <= i <= a@.len(),
            a@.len() == b@.len(),
            forall|j: int| 0 <= j < i ==> a@[j] == b@[j],
        decreases a@.len() - i,
    {
        if a[i] != b[i] {
            return false;
        }
        i += 1;
    }
    proof {
        assert(a@ =~= b@);
    }
    true
}

/// Equality of two strings, decided by comparing their UTF-8 bytes.
pub fn str_eq(a: &str, b: &str) -> (r: bool)
    ensures
        r == (a@ == b@),
{
    let r = bytes_eq(a.as_bytes(), b.as_bytes());
    proof {
        vstd::utf8::encode_utf8_decode_utf8(a@);
        vstd::utf8::encode_utf8_decode_utf8(b@);
    }
    r
}

// ---------------------------------------------------------------------------
// Substring search over bytes
// ---------------------------------------------------------------------------

/// `needle` occurs in `hay` starting at position `i`.
pub open spec fn contains_at<T>(hay: Seq<T>, needle: Seq<T>, i: int) -> bool {
    0 <= i && i + needle.len() <= hay.len() && hay.subrange(i, i + needle.len()) == needle
}

/// `needle` occurs somewhere in `hay`.
pub open spec fn seq_contains<T>(hay: Seq<T>, needle: Seq<T>) -> bool {
    exists|i: int| #[trigger] contains_at(hay, needle, i)
}

/// Whether `needle` occurs as a contiguous run of bytes in `hay`.
pub fn bytes_contains(hay: &[u8], needle: &[u8]) -> (r: bool)
    ensures
        r == seq_contains(hay@, needle@),
{
    if needle.len() == 0 {
        assert(hay@.subrange(0, 0) =~= needle@);
        assert(contains_at(hay@, needle@, 0));
        return true;
    }
    if needle.len() > hay.len() {
        assert(forall|i: int| !contains_at(hay@, needle@, i));
        return false;
    }
    let mut i: usize = 0;
    while i <= hay.len() - needle.len()
        invariant
            0 < needle@.len() <= hay@.len(),
            0 <= i <= hay@.len() - needle@.len() + 1,
            forall|j: int| 0 <= j < i ==> !contains_at(hay@, needle@, j),
        decreases hay@.len() - i,
    {
        let window = &hay[i..i + needle.len()];
        if bytes_eq(window, needle) {
            assert(contains_at(hay@, needle@, i as int));
            return true;
        }
        i += 1;
    }
    assert(forall|j: int| contains_at(hay@, needle@, j) ==> 0 <= j < i);
    false
}

// ---------------------------------------------------------------------------
// Character scanning
// ---------------------------------------------------------------------------

/// The first position at or after `i` whose character lies in `cs`
/// (or the length of `s` if there is none).
pub open spec fn first_in(s: Seq<char>, i: int, cs: Set<char>) -> int
    recommends
        0 <= i <= s.len(),
    decreases s.len() - i when 0 <= i <= s.len()
{
    if i < s.len() && !cs.contains(s[i]) {
        first_in(s, i + 1, cs)
    } else {
        i
    }
}

/// The first position at or after `i` whose character lies outside `cs`
/// (or the length of `s` if there is none).
pub open spec fn first_not_in(s: Seq<char>, i: int, cs: Set<char>) -> int
    recommends
        0 <= i <= s.len(),
    decreases s.len() - i when 0 <= i <= s.len()
{
    if i < s.len() && cs.contains(s[i]) {
        first_not_in(s, i + 1, cs)
    } else {
        i
    }
}

pub proof fn lemma_first_not_in_bounds(s: Seq<char>, i: int, cs: Set<char>)
    requires
        0 <= i <= s.len(),
    ensures
        i <= first_not_in(s, i, cs) <= s.len(),
        first_not_in(s, i, cs) < s.len() ==> !cs.contains(s[first_not_in(s, i, cs)]),
        forall|j: int| i <= j < first_not_in(s, i, cs) ==> cs.contains(s[j]),
    decreases s.len() - i,
{
    if i < s.len() && cs.contains(s[i]) {
        lemma_first_not_in_bounds(s, i + 1, cs);
    }
}

// ---------------------------------------------------------------------------
// Percent-encoding
// ---------------------------------------------------------------------------

/// A byte that percent-encoding passes through unchanged: the ASCII
/// alphanumerics and `-`, `_`, `.`, `~`.
pub open spec fn is_unreserved_byte(b: u8) -> bool {
    (65 <= b && b <= 90) || (97 <= b && b <= 122) || (48 <= b && b <= 57) || b == 45
        || b == 95 || b == 46 || b == 126
}

/// The upper-case hexadecimal digit for a value below 16.
pub open spec fn hex_digit(n: u8) -> u8
    recommends
        n < 16,
{
    if n < 10 {
        (48 + n) as u8
    } else {
        (65 + (n - 10)) as u8
    }
}

/// The percent-encoding of a single byte.
pub open spec fn encoded_byte(b: u8) -> Seq<u8> {
    if is_unreserved_byte(b) {
        seq![b]
    } else {
        seq![37, hex_digit(b / 16), hex_digit(b % 16)]
    }
}

/// The percent-encoding of a byte string, byte by byte.
pub open spec fn percent_encoded(bytes: Seq<u8>) -> Seq<u8>
    decreases bytes.len(),
{
    if bytes.len() == 0 {
        Seq::empty()
    } else {
        encoded_byte(bytes[0]) + percent_encoded(bytes.drop_first())
    }
}

proof fn lemma_percent_encoded_snoc(s: Seq<u8>, x: u8)
    ensures
        percent_encoded(s.push(x)) == percent_encoded(s) + encoded_byte(x),
    decreases s.len(),
{
    if s.len() == 0 {
        assert(s.push(x).drop_first() =~= s);
        assert(percent_encoded(s.push(x)) =~= percent_encoded(s) + encoded_byte(x));
    } else {
        assert(s.push(x).drop_first() =~= s.drop_first().push(x));
        lemma_percent_encoded_snoc(s.drop_first(), x);
        assert(percent_encoded(s.push(x)) =~= percent_encoded(s) + encoded_byte(x));
    }
}

/// Percent-encode a byte string: every byte except the ASCII alphanumerics
/// and `-`, `_`, `.`, `~` becomes `%` followed by two upper-case hex digits.
pub fn percent_encode_bytes(data: &[u8]) -> (r: Vec<u8>)
    ensures
        r@ == percent_encoded(data@),
{
    let mut out: Vec<u8> = Vec::new();
    let mut i: usize = 0;
    while i < data.len()
        invariant
            0 <= i <= data@.len(),
            out@ == percent_encoded(data@.take(i as int)),
        decreases data@.len() - i,
    {
        let b = data[i];
        proof {
            lemma_percent_encoded_snoc(data@.take(i as int), data@[i as int]);
            assert(data@.take(i as int).push(data@[i as int]) =~= data@.take(i as int + 1));
        }
        if (65 <= b && b <= 90) || (97 <= b && b <= 122) || (48 <= b && b <= 57) || b
            == 45 || b == 95 || b == 46 || b == 126 {
            out.push(b);
        } else {
            let hi = b / 16;
            let lo = b % 16;
            out.push(37);
            out.push(if hi < 10 { 48 + hi } else { 65 + (hi - 10) });
            out.push(if lo < 10 { 48 + lo } else { 65 + (lo - 10) });
        }
        i += 1;
    }
    proof {
        assert(data@.take(data@.len() as int) =~= data@);
    }
    out
}

/// Percent-encode the UTF-8 bytes of a string.
pub fn percent_encode(s: &str) -> (r: Vec<u8>)
    ensures
        r@ == percent_encoded(vstd::utf8::encode_utf8(s@)),
{
    percent_encode_bytes(s.as_bytes())
}

// ---------------------------------------------------------------------------
// Appending byte and decimal fragments
// ---------------------------------------------------------------------------

/// Append every byte of `part` to `out`.
pub fn push_bytes(out: &mut Vec<u8>, part: &[u8])
    ensures
        final(out)@ == old(out)@ + part@,
{
    let mut i: usize = 0;
    while i < part.len()
        invariant
            0 <= i <= part@.len(),
            out@ == old(out)@ + part@.take(i as int),
        decreases part@.len() - i,
    {
        out.push(part[i]);
        proof {
            assert(old(out)@ + part@.take(i as int) + seq![part@[i as int]] =~= old(out)@
                + part@.take(i as int + 1));
        }
        i += 1;
    }
    proof {
        assert(part@.take(part@.len() as int) =~= part@);
    }
}

/// The decimal digit character for a value below 10.
pub open spec fn dec_digit_char(n: int) -> char
    recommends
        0 <= n < 10,
{
    if n == 0 {
        '0'
    } else if n == 1 {
        '1'
    } else if n == 2 {
        '2'
    } else if n == 3 {
        '3'
    } else if n == 4 {
        '4'
    } else if n == 5 {
        '5'
    } else if n == 6 {
        '6'
    } else if n == 7 {
        '7'
    } else if n == 8 {
        '8'
    } else {
        '9'
    }
}

/// The decimal form of a non-negative number, as a character sequence.
pub open spec fn dec_digits(n: int) -> Seq<char>
    recommends
        n >= 0,
    decreases n,
{
    if n < 10 {
        seq![dec_digit_char(n)]
    } else {
        dec_digits(n / 10) + seq![dec_digit_char(n % 10)]
    }
}

fn digit_str(d: u16) -> (r: &'static str)
    requires
        d < 10,
    ensures
        r@ == seq![dec_digit_char(d as int)],
{
    proof {
        reveal_strlit("0");
        reveal_strlit("1");
        reveal_strlit("2");
        reveal_strlit("3");
        reveal_strlit("4");
        reveal_strlit("5");
        reveal_strlit("6");
        reveal_strlit("7");
        reveal_strlit("8");
        reveal_strlit("9");
    }
    let r = match d {
        0 => "0",
        1 => "1",
        2 => "2",
        3 => "3",
        4 => "4",
        5 => "5",
        6 => "6",
        7 => "7",
        8 => "8",
        _ => "9",
    };
    proof {
        assert(r@ =~= seq![dec_digit_char(d as int)]);
    }
    r
}

/// Append the decimal form of `n` to `s`.
pub fn push_dec_u16(s: &mut String, n: u16)
    ensures
        final(s)@ == old(s)@ + dec_digits(n as int),
    decreases n,
{
    if n >= 10 {
        push_dec_u16(s, n / 10);
        s.append(digit_str(n % 10));
        proof {
            assert(old(s)@ + dec_digits((n / 10) as int) + seq![dec_digit_char((n % 10) as int)]
                =~= old(s)@ + dec_digits(n as int));
        }
    } else {
        s.append(digit_str(n));
    }
}

// ---------------------------------------------------------------------------
// Trimming
// ---------------------------------------------------------------------------

/// ASCII whitespace, as trimmed from the probe output of an external command.
pub open spec fn trim_chars() -> Set<char> {
    set![' ', '\t', '\r', '\n']
}

/// The last position before which `s` ends once trailing whitespace is dropped.
pub open spec fn trim_end_index(s: Seq<char>, i: int) -> int
    recommends
        0 <= i <= s.len(),
    decreases i when 0 <= i <= s.len()
{
    if i > 0 && trim_chars().contains(s[i - 1]) {
        trim_end_index(s, i - 1)
    } else {
        i
    }
}

/// `s` with leading and trailing ASCII whitespace removed.
pub open spec fn trimmed(s: Seq<char>) -> Seq<char> {
    let start = first_not_in(s, 0, trim_chars());
    let end = trim_end_index(s, s.len() as int);
    if start <= end {
        s.subrange(start, end)
    } else {
        Seq::empty()
    }
}

proof fn lemma_trim_end_bounds(s: Seq<char>, i: int)
    requires
        0 <= i <= s.len(),
    ensures
        0 <= trim_end_index(s, i) <= i,
        trim_end_index(s, i) > 0 ==> !trim_chars().contains(s[trim_end_index(s, i) - 1]),
    decreases i,
{
    if i > 0 && trim_chars().contains(s[i - 1]) {
        lemma_trim_end_bounds(s, i - 1);
    }
}

/// Whether `s`, once trimmed of ASCII whitespace, reads exactly `true`.
pub open spec fn is_true_output(s: Seq<char>) -> bool {
    trimmed(s) == "true"@
}

/// Decide whether a probe output, trimmed of surrounding whitespace, is `true`.
pub fn output_is_true(s: &str) -> (r: bool)
    ensures
        r == is_true_output(s@),
{
    let n = s.unicode_len();
    let mut start: usize = 0;
    loop
        invariant
            0 <= start <= s@.len(),
            n == s@.len(),
            first_not_in(s@, 0, trim_chars()) == first_not_in(s@, start as int, trim_chars()),
        ensures
            start as int == first_not_in(s@, 0, trim_chars()),
        decreases s@.len() - start,
    {
        if start >= n {
            break;
        }
        let c = s.get_char(start);
        if !(c == ' ' || c == '\t' || c == '\r' || c == '\n') {
            break;
        }
        start += 1;
    }
    proof {
        lemma_first_not_in_bounds(s@, 0, trim_chars());
    }
    let mut end: usize = n;
    loop
        invariant
            start <= end <= s@.len(),
            n == s@.len(),
            start as int == first_not_in(s@, 0, trim_chars()),
            trim_end_index(s@, end as int) == trim_end_index(s@, s@.len() as int),
            forall|j: int| end <= j < s@.len() ==> trim_chars().contains(s@[j]),
        ensures
            start <= end <= s@.len(),
            trim_end_index(s@, end as int) == trim_end_index(s@, s@.len() as int),
            end as int == trim_end_index(s@, s@.len() as int) || (end == start && start == s@.len()
                as int),
        decreases end,
    {
        if end <= start {
            // everything from `start` on is whitespace; since `start` is the
            // first non-whitespace position, this happens only at the length
            proof {
                lemma_first_not_in_bounds(s@, 0, trim_chars());
                if (start as int) < s@.len() {
                    assert(trim_chars().contains(s@[start as int]));
                    assert(false);
                }
            }
            break;
        }
        let c = s.get_char(end - 1);
        if !(c == ' ' || c == '\t' || c == '\r' || c == '\n') {
            break;
        }
        end -= 1;
    }
    let part = s.substring_char(start, end);
    proof {
        reveal_strlit("true");
        lemma_trim_end_bounds(s@, s@.len() as int);
        if start < end {
            assert(trimmed(s@) == s@.subrange(start as int, end as int));
        } else {
            assert(part@ =~= Seq::<char>::empty());
            if first_not_in(s@, 0, trim_chars()) <= trim_end_index(s@, s@.len() as int) {
                assert(trimmed(s@) == s@.subrange(
                    first_not_in(s@, 0, trim_chars()),
                    trim_end_index(s@, s@.len() as int),
                ));
            }
            assert(trimmed(s@).len() == 0);
            assert("true"@.len() == 4);
        }
    }
    let r = str_eq(part, "true");
    r
}

} // verus!
