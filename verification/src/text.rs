use vstd::prelude::*;
use vstd::slice::slice_subrange;
use vstd::utf8::*;

verus! {

// ---------------------------------------------------------------------------
// Decimal notation of unsigned integers
// ---------------------------------------------------------------------------

/// The character of a decimal digit `d` (0 to 9).
pub open spec fn digit_char(d: nat) -> char {
    if d == 0 { '0' }
    else if d == 1 { '1' }
    else if d == 2 { '2' }
    else if d == 3 { '3' }
    else if d == 4 { '4' }
    else if d == 5 { '5' }
    else if d == 6 { '6' }
    else if d == 7 { '7' }
    else if d == 8 { '8' }
    else { '9' }
}

/// The decimal notation of `n`, most significant digit first, without
/// leading zeros (`0` is written as a single digit).
pub open spec fn decimal(n: nat) -> Seq<char>
    decreases n,
{
    if n < 10 {
        seq![digit_char(n)]
    } else {
        decimal(n / 10).push(digit_char(n % 10))
    }
}

/// The one-character string of the digit `d`.
fn digit_str(d: u32) -> (s: &'static str)
    requires
        d < 10,
    ensures
        s@ == seq![digit_char(d as nat)],
{
    proof {
        reveal_strlit("0");
        reveal_strlit("1");
        reveal_strlit("2");
        reveal_strlit("3");
        reveal_strlit("4");
        reveal_strlit("5");
        reveal_strlit("6");
        reveal_strlit("7");
        reveal_strlit("8");
        reveal_strlit("9");
    }
    match d {
        0 => "0",
        1 => "1",
        2 => "2",
        3 => "3",
        4 => "4",
        5 => "5",
        6 => "6",
        7 => "7",
        8 => "8",
        _ => "9",
    }
}

/// Appends the decimal notation of `n` to `out`.
pub fn push_decimal(out: &mut String, n: u32)
    ensures
        final(out)@ == old(out)@ + decimal(n as nat),
    decreases n,
{
    if n >= 10 {
        push_decimal(out, n / 10);
    }
    out.append(digit_str(n % 10));
    proof {
        if n >= 10 {
            assert(decimal(n as nat) == decimal((n / 10) as nat).push(digit_char((n % 10) as nat)));
        }
    }
}


// ---------------------------------------------------------------------------
// Bytes of C strings
// ---------------------------------------------------------------------------

/// What `String::from_utf8_lossy` makes of `bytes`: each maximal invalid
/// sequence becomes U+FFFD, the rest is decoded as UTF-8.
pub uninterp spec fn lossy_utf8(bytes: Seq<u8>) -> Seq<char>;

/// Decodes `bytes` as UTF-8 by `String::from_utf8_lossy`.
///
/// Trusted: the result is `lossy_utf8` of the bytes, and, as the
/// documentation of `from_utf8_lossy` promises, the plain UTF-8 decoding of
/// them when they are valid UTF-8. How invalid sequences are replaced is left
/// to the name.
#[verifier::external_body]
pub(crate) fn decode_lossy(bytes: &[u8]) -> (s: String)
    ensures
        s@ == lossy_utf8(bytes@),
        valid_utf8(bytes@) ==> s@ == decode_utf8(bytes@),
{
    String::from_utf8_lossy(bytes).into_owned()
}

/// `i` is the position of the first NUL byte of `buf`.
pub open spec fn is_first_nul(buf: Seq<u8>, i: int) -> bool {
    &&& 0 <= i < buf.len()
    &&& buf[i] == 0
    &&& forall|j: int| 0 <= j < i ==> buf[j] != 0
}

/// `buf` holds a NUL byte, so that it holds a C string.
pub open spec fn has_nul(buf: Seq<u8>) -> bool {
    exists|i: int| 0 <= i < buf.len() && buf[i] == 0
}

/// The bytes of the C string at the start of `buf`: those before its first NUL.
pub open spec fn c_string_bytes(buf: Seq<u8>) -> Seq<u8> {
    buf.take(choose|i: int| is_first_nul(buf, i))
}

/// A buffer that holds a NUL byte has exactly one first NUL byte.
pub proof fn lemma_first_nul(buf: Seq<u8>, i: int)
    requires
        is_first_nul(buf, i),
    ensures
        (choose|k: int| is_first_nul(buf, k)) == i,
        c_string_bytes(buf) == buf.take(i),
{
    let k = choose|k: int| is_first_nul(buf, k);
    assert(is_first_nul(buf, k));
    if k < i {
        assert(buf[k] != 0);
    } else if i < k {
        assert(buf[i] != 0);
    }
}

/// The position of the first NUL byte of `buf`.
pub fn first_nul(buf: &[u8]) -> (i: usize)
    requires
        has_nul(buf@),
    ensures
        is_first_nul(buf@, i as int),
{
    let mut i: usize = 0;
    while i < buf.len() && buf[i] != 0
        invariant
            i <= buf@.len(),
            has_nul(buf@),
            forall|j: int| 0 <= j < i ==> buf@[j] != 0,
        decreases buf@.len() - i,
    {
        i = i + 1;
    }
    proof {
        if i == buf.len() {
            let k = choose|k: int| 0 <= k < buf@.len() && buf@[k] == 0;
            assert(buf@[k] != 0);
        }
    }
    i
}

/// The C string at the start of `buf` (up to its first NUL byte), decoded as
/// UTF-8 with invalid sequences replaced.
pub fn neki_to_string(buf: &[u8]) -> (s: String)
    requires
        has_nul(buf@),
    ensures
        s@ == lossy_utf8(c_string_bytes(buf@)),
        valid_utf8(c_string_bytes(buf@)) ==> s@ == decode_utf8(c_string_bytes(buf@)),
{
    let n = first_nul(buf);
    proof {
        lemma_first_nul(buf@, n as int);
    }
    let bytes = slice_subrange(buf, 0, n);
    assert(bytes@ == buf@.take(n as int));
    decode_lossy(bytes)
}


// ---------------------------------------------------------------------------
// Whitespace and trimming
// ---------------------------------------------------------------------------

/// The characters of Unicode's `White_Space` property, those that
/// `char::is_whitespace` accepts.
pub open spec fn is_white_space(c: char) -> bool {
    let u = c as u32;
    ||| 0x9 <= u <= 0xd
    ||| u == 0x20
    ||| u == 0x85
    ||| u == 0xa0
    ||| u == 0x1680
    ||| 0x2000 <= u <= 0x200a
    ||| u == 0x2028
    ||| u == 0x2029
    ||| u == 0x202f
    ||| u == 0x205f
    ||| u == 0x3000
}

/// Whether `c` is white space.
pub fn white_space(c: char) -> (b: bool)
    ensures
        b == is_white_space(c),
        (c == '\t' || c == '\n' || c == '\u{b}' || c == '\u{c}' || c == '\r' || c == ' ') ==> b,
        ('0' <= c <= '9' || 'a' <= c <= 'z' || 'A' <= c <= 'Z') ==> !b,
{
    let u = c as u32;
    (0x9 <= u && u <= 0xd) || u == 0x20 || u == 0x85 || u == 0xa0 || u == 0x1680 || (0x2000 <= u
        && u <= 0x200a) || u == 0x2028 || u == 0x2029 || u == 0x202f || u == 0x205f || u == 0x3000
}

/// `s[i..j]` is `s` without its leading and trailing white space.
pub open spec fn trim_bounds(s: Seq<char>, i: int, j: int) -> bool {
    &&& 0 <= i <= j <= s.len()
    &&& forall|k: int| 0 <= k < i ==> is_white_space(#[trigger] s[k])
    &&& forall|k: int| j <= k < s.len() ==> is_white_space(#[trigger] s[k])
    &&& i < j ==> !is_white_space(s[i]) && !is_white_space(s[j - 1])
}

/// `s` without leading and trailing white space.
pub open spec fn trimmed(s: Seq<char>) -> Seq<char> {
    let (i, j) = choose|i: int, j: int| trim_bounds(s, i, j);
    s.subrange(i, j)
}

/// Any bounds of the trimmed text cut out the text that `trimmed` names.
pub proof fn lemma_trim_bounds(s: Seq<char>, i: int, j: int)
    requires
        trim_bounds(s, i, j),
    ensures
        trimmed(s) == s.subrange(i, j),
{
    let (a, b) = choose|a: int, b: int| trim_bounds(s, a, b);
    assert(trim_bounds(s, a, b));
    if i < j {
        if a < i {
            assert(is_white_space(s[a]));
        }
        if i < a {
            assert(is_white_space(s[i]));
        }
        if b < j {
            assert(is_white_space(s[j - 1]));
        }
        if j < b {
            assert(is_white_space(s[b - 1]));
        }
        assert(a == i && b == j);
    } else {
        if a < b {
            if a < i {
                assert(is_white_space(s[a]));
            } else {
                assert(is_white_space(s[a]));
            }
        }
        assert(s.subrange(a, b) =~= s.subrange(i, j));
    }
}

/// Some bounds of the trimmed text exist.
pub proof fn lemma_trim_bounds_exist(s: Seq<char>)
    ensures
        trim_bounds(s, trim_start(s, 0), trim_end(s, trim_start(s, 0), s.len() as int)),
{
    lemma_trim_start(s, 0);
    lemma_trim_end(s, trim_start(s, 0), s.len() as int);
}

/// Trimming twice trims no more than trimming once.
pub proof fn lemma_trim_idempotent(s: Seq<char>)
    ensures
        trimmed(trimmed(s)) == trimmed(s),
{
    lemma_trim_bounds_exist(s);
    let (i, j) = choose|i: int, j: int| trim_bounds(s, i, j);
    assert(trim_bounds(s, i, j));
    lemma_trim_bounds(s, i, j);
    let t = s.subrange(i, j);
    assert(trim_bounds(t, 0, t.len() as int));
    lemma_trim_bounds(t, 0, t.len() as int);
    assert(t.subrange(0, t.len() as int) =~= t);
}

/// `s` without its leading and trailing white space.
pub fn trim_line(s: &str) -> (t: String)
    ensures
        t@ == trimmed(s@),
{
    let n = s.unicode_len();
    let mut i: usize = 0;
    while i < n && white_space(s.get_char(i))
        invariant
            n == s@.len(),
            i <= n,
            forall|k: int| 0 <= k < i ==> is_white_space(#[trigger] s@[k]),
        decreases n - i,
    {
        i = i + 1;
    }
    let mut j: usize = n;
    while j > i && white_space(s.get_char(j - 1))
        invariant
            n == s@.len(),
            i <= j <= n,
            forall|k: int| j <= k < n ==> is_white_space(#[trigger] s@[k]),
        decreases j - i,
    {
        j = j - 1;
    }
    proof {
        assert(trim_bounds(s@, i as int, j as int));
        lemma_trim_bounds(s@, i as int, j as int);
    }
    String::from_str(s.substring_char(i, j))
}

/// The ASCII white space characters (tab, line feed, vertical tab, form
/// feed, carriage return, space) are white space; letters and digits are not.
pub proof fn lemma_ascii_white_space(c: char)
    ensures
        (c == '\t' || c == '\n' || c == '\u{b}' || c == '\u{c}' || c == '\r' || c == ' ') ==> is_white_space(c),
        ('0' <= c <= '9' || 'a' <= c <= 'z' || 'A' <= c <= 'Z') ==> !is_white_space(c),
{
}

/// A line trims to the same text with or without its line ending, be it a
/// line feed or a carriage return and a line feed.
pub proof fn lemma_trim_ignores_line_ending(s: Seq<char>)
    ensures
        trimmed(s + seq!['\r', '\n']) == trimmed(s),
        trimmed(s + seq!['\n']) == trimmed(s),
{
    lemma_trim_with_white_tail(s, seq!['\r', '\n']);
    lemma_trim_with_white_tail(s, seq!['\n']);
}

/// Appending white space to a text does not change what it trims to.
pub proof fn lemma_trim_with_white_tail(s: Seq<char>, w: Seq<char>)
    requires
        forall|k: int| 0 <= k < w.len() ==> is_white_space(#[trigger] w[k]),
    ensures
        trimmed(s + w) == trimmed(s),
{
    lemma_trim_bounds_exist(s);
    let i = trim_start(s, 0);
    let j = trim_end(s, i, s.len() as int);
    lemma_trim_bounds(s, i, j);
    let t = s + w;
    assert forall|k: int| j <= k < t.len() implies is_white_space(#[trigger] t[k]) by {
        if k < s.len() {
            assert(t[k] == s[k]);
        } else {
            assert(t[k] == w[k - s.len()]);
        }
    }
    assert forall|k: int| 0 <= k < i implies is_white_space(#[trigger] t[k]) by {
        assert(t[k] == s[k]);
    }
    if i < j {
        assert(t[i] == s[i]);
        assert(t[j - 1] == s[j - 1]);
    }
    assert(trim_bounds(t, i, j));
    lemma_trim_bounds(t, i, j);
    assert(t.subrange(i, j) =~= s.subrange(i, j));
}

/// The first position at or after `k` that holds no white space.
pub open spec fn trim_start(s: Seq<char>, k: int) -> int
    decreases s.len() - k,
{
    if 0 <= k < s.len() && is_white_space(s[k]) {
        trim_start(s, k + 1)
    } else {
        k
    }
}

/// The end of the text in `s[lo..k]` without trailing white space.
pub open spec fn trim_end(s: Seq<char>, lo: int, k: int) -> int
    decreases k - lo,
{
    if lo < k && k <= s.len() && is_white_space(s[k - 1]) {
        trim_end(s, lo, k - 1)
    } else {
        k
    }
}


// ---------------------------------------------------------------------------
// Reading unsigned integers and words
// ---------------------------------------------------------------------------

/// `c` is an ASCII decimal digit.
pub open spec fn is_digit(c: char) -> bool {
    '0' as u32 <= c as u32 <= '9' as u32
}

/// The value of the decimal digit `c`.
pub open spec fn digit_value(c: char) -> nat {
    (c as u32 - '0' as u32) as nat
}

/// The value of the decimal digits `s`, most significant first.
pub open spec fn digits_value(s: Seq<char>) -> nat
    decreases s.len(),
{
    if s.len() == 0 {
        0
    } else {
        digits_value(s.drop_last()) * 10 + digit_value(s.last())
    }
}

/// `s` is a non-empty run of decimal digits.
pub open spec fn all_digits(s: Seq<char>) -> bool {
    s.len() > 0 && forall|k: int| 0 <= k < s.len() ==> is_digit(#[trigger] s[k])
}

/// The digits of `s`, after a leading `+` if it has one.
pub open spec fn unsigned_digits(s: Seq<char>) -> Seq<char> {
    if s.len() > 0 && s[0] == '+' {
        s.drop_first()
    } else {
        s
    }
}

/// What `str::parse::<u64>` makes of `s`: an optional `+`, then one or more
/// decimal digits whose value fits in 64 bits.
pub open spec fn parsed_u64(s: Seq<char>) -> Option<u64> {
    let d = unsigned_digits(s);
    if all_digits(d) && digits_value(d) <= u64::MAX {
        Some(digits_value(d) as u64)
    } else {
        None
    }
}

/// A prefix of a run of digits has no greater value than the whole run.
proof fn lemma_digits_value_prefix(s: Seq<char>, k: int)
    requires
        0 <= k <= s.len(),
    ensures
        digits_value(s.take(k)) <= digits_value(s),
    decreases s.len() - k,
{
    if k < s.len() {
        lemma_digits_value_prefix(s, k + 1);
        assert(s.take(k + 1).drop_last() =~= s.take(k));
    } else {
        assert(s.take(k) =~= s);
    }
}

/// Reads `s` as an unsigned 64-bit number, as `str::parse::<u64>` does.
pub fn parse_u64(s: &str) -> (r: Option<u64>)
    ensures
        r == parsed_u64(s@),
{
    let n = s.unicode_len();
    let mut k: usize = 0;
    if n > 0 && s.get_char(0) == '+' {
        k = 1;
    }
    let ghost d = unsigned_digits(s@);
    assert(d =~= s@.skip(k as int));
    if k == n {
        return None;
    }
    let mut value: u64 = 0;
    let mut m: usize = k;
    while m < n
        invariant
            n == s@.len(),
            k <= m <= n,
            k < n,
            d =~= s@.skip(k as int),
            d == unsigned_digits(s@),
            value as nat == digits_value(d.take(m - k)),
            forall|q: int| 0 <= q < m - k ==> is_digit(#[trigger] d[q]),
        decreases n - m,
    {
        let c = s.get_char(m);
        assert(c == d[m - k]);
        if c < '0' || c > '9' {
            assert(!is_digit(d[m - k]));
            return None;
        }
        let digit = (c as u32 - '0' as u32) as u64;
        assert(d.take(m - k + 1).drop_last() =~= d.take(m - k));
        assert(d.take(m - k + 1).last() == c);
        assert(digits_value(d.take(m - k + 1)) == value * 10 + digit);
        let next = match value.checked_mul(10) {
            Some(v) => v.checked_add(digit),
            None => None,
        };
        match next {
            Some(v) => {
                value = v;
            },
            None => {
                proof {
                    if all_digits(d) {
                        lemma_digits_value_prefix(d, m - k + 1);
                    }
                }
                return None;
            },
        }
        m = m + 1;
    }
    assert(d.take(n - k) =~= d);
    Some(value)
}

/// Whether `a` and `b` hold the same characters.
pub fn same_text(a: &str, b: &str) -> (r: bool)
    ensures
        r == (a@ == b@),
{
    let n = a.unicode_len();
    if n != b.unicode_len() {
        return false;
    }
    let mut k: usize = 0;
    while k < n
        invariant
            n == a@.len(),
            n == b@.len(),
            k <= n,
            forall|q: int| 0 <= q < k ==> a@[q] == b@[q],
        decreases n - k,
    {
        if a.get_char(k) != b.get_char(k) {
            return false;
        }
        k = k + 1;
    }
    assert(a@ =~= b@);
    true
}

/// The decimal notation of a number reads back as that number.
pub proof fn lemma_decimal_parses(n: u64)
    ensures
        parsed_u64(decimal(n as nat)) == Some(n),
{
    lemma_decimal_digits(n as nat);
    let d = decimal(n as nat);
    assert(is_digit(d[0]));
    assert(unsigned_digits(d) == d);
}

proof fn lemma_decimal_digits(n: nat)
    ensures
        all_digits(decimal(n)),
        digits_value(decimal(n)) == n,
    decreases n,
{
    lemma_digit_char((n % 10) as nat);
    if n < 10 {
        assert(n % 10 == n);
        assert(decimal(n).drop_last() =~= Seq::<char>::empty());
        assert(decimal(n).last() == digit_char(n));
        assert(digits_value(decimal(n)) == digits_value(decimal(n).drop_last()) * 10 + digit_value(decimal(n).last()));
    } else {
        lemma_decimal_digits(n / 10);
        let d = decimal(n);
        assert(n == (n / 10) * 10 + n % 10);
        assert(d.last() == digit_char((n % 10) as nat));
        assert(digits_value(d) == digits_value(d.drop_last()) * 10 + digit_value(d.last()));
        assert(d.drop_last() =~= decimal(n / 10));
        assert forall|k: int| 0 <= k < d.len() implies is_digit(#[trigger] d[k]) by {
            if k < d.len() - 1 {
                assert(d[k] == decimal(n / 10)[k]);
            }
        }
    }
}

proof fn lemma_digit_char(d: nat)
    requires
        d < 10,
    ensures
        is_digit(digit_char(d)),
        digit_value(digit_char(d)) == d,
{
}

proof fn lemma_trim_start(s: Seq<char>, k: int)
    requires
        0 <= k <= s.len(),
    ensures
        k <= trim_start(s, k) <= s.len(),
        forall|m: int| k <= m < trim_start(s, k) ==> is_white_space(#[trigger] s[m]),
        trim_start(s, k) < s.len() ==> !is_white_space(s[trim_start(s, k)]),
    decreases s.len() - k,
{
    if k < s.len() && is_white_space(s[k]) {
        lemma_trim_start(s, k + 1);
    }
}

proof fn lemma_trim_end(s: Seq<char>, lo: int, k: int)
    requires
        0 <= lo <= k <= s.len(),
    ensures
        lo <= trim_end(s, lo, k) <= k,
        forall|m: int| trim_end(s, lo, k) <= m < k ==> is_white_space(#[trigger] s[m]),
        trim_end(s, lo, k) > lo ==> !is_white_space(s[trim_end(s, lo, k) - 1]),
    decreases k - lo,
{
    if lo < k && is_white_space(s[k - 1]) {
        lemma_trim_end(s, lo, k - 1);
    }
}

} // verus!
