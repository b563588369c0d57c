//! Reading the alarm listener's tiny HTTP-like requests.
//!
//! The alarm socket receives a block of header lines ended by a bare
//! `\r\n`, one of which may announce a body length as
//! `Content-Length: <digits>`. These functions make the per-line
//! decisions of that loop — which line carries the length, what the
//! length is, and where the headers end — while the socket reading
//! around them stays with the caller.

use vstd::prelude::*;

use crate::text::{is_prefix_of, str_eq, str_starts_with};

verus! {

/// ASCII whitespace, the only kind these headers can carry.
pub open spec fn is_ws(c: char) -> bool {
    c == ' ' || c == '\t' || c == '\r' || c == '\n'
}

/// `s` without its leading whitespace.
pub open spec fn drop_leading_ws(s: Seq<char>) -> Seq<char>
    decreases s.len(),
{
    if s.len() > 0 && is_ws(s[0]) {
        drop_leading_ws(s.drop_first())
    } else {
        s
    }
}

/// `s` without its trailing whitespace.
pub open spec fn drop_trailing_ws(s: Seq<char>) -> Seq<char>
    decreases s.len(),
{
    if s.len() > 0 && is_ws(s.last()) {
        drop_trailing_ws(s.drop_last())
    } else {
        s
    }
}

/// `s` without leading and trailing whitespace.
pub open spec fn trim_ws(s: Seq<char>) -> Seq<char> {
    drop_trailing_ws(drop_leading_ws(s))
}

/// The numeric value of a decimal digit character.
pub open spec fn digit_of(c: char) -> int
    recommends
        '0' <= c <= '9',
{
    c as int - '0' as int
}

/// Every character of `s` is a decimal digit.
pub open spec fn all_digits(s: Seq<char>) -> bool {
    forall|i: int| 0 <= i < s.len() ==> '0' <= #[trigger] s[i] <= '9'
}

/// The number a string of decimal digits spells, most significant first.
pub open spec fn digits_val(s: Seq<char>) -> int
    decreases s.len(),
{
    if s.len() == 0 {
        0
    } else {
        digits_val(s.drop_last()) * 10 + digit_of(s.last())
    }
}

/// Digit strings spell non-negative numbers, and a prefix never spells
/// more than the whole.
proof fn lemma_digits_val_prefix(s: Seq<char>, j: int)
    requires
        all_digits(s),
        0 <= j <= s.len(),
    ensures
        0 <= digits_val(s.subrange(0, j)) <= digits_val(s),
    decreases s.len() - j,
{
    if j == s.len() {
        assert(s.subrange(0, j) =~= s);
        lemma_digits_val_nonneg(s);
    } else {
        lemma_digits_val_prefix(s, j + 1);
        assert(s.subrange(0, j + 1).drop_last() =~= s.subrange(0, j));
        lemma_digits_val_nonneg(s.subrange(0, j));
    }
}

/// A digit string spells a non-negative number.
proof fn lemma_digits_val_nonneg(s: Seq<char>)
    requires
        all_digits(s),
    ensures
        digits_val(s) >= 0,
    decreases s.len(),
{
    if s.len() > 0 {
        assert(all_digits(s.drop_last()));
        lemma_digits_val_nonneg(s.drop_last());
    }
}

/// The numeric value of one digit character, or `None` for anything
/// else.
fn digit_value(c: char) -> (d: Option<u8>)
    ensures
        d is Some <==> '0' <= c <= '9',
        d matches Some(v) ==> v == digit_of(c),
{
    match c {
        '0' => Some(0),
        '1' => Some(1),
        '2' => Some(2),
        '3' => Some(3),
        '4' => Some(4),
        '5' => Some(5),
        '6' => Some(6),
        '7' => Some(7),
        '8' => Some(8),
        '9' => Some(9),
        _ => None,
    }
}

/// Parse a non-empty all-digit string into a number. `None` on an empty
/// string, a non-digit, or a value too large for `u64`.
pub fn parse_u64_digits(s: &str) -> (r: Option<u64>)
    ensures
        r is Some <==> s@.len() > 0 && all_digits(s@) && digits_val(s@) <= u64::MAX,
        r matches Some(v) ==> v == digits_val(s@),
{
    let n = s.unicode_len();
    if n == 0 {
        return None;
    }
    let mut acc: u64 = 0;
    let mut i: usize = 0;
    while i < n
        invariant
            0 <= i <= n,
            n == s@.len(),
            all_digits(s@.subrange(0, i as int)),
            acc == digits_val(s@.subrange(0, i as int)),
        decreases n - i,
    {
        let c = s.get_char(i);
        let d = match digit_value(c) {
            Some(d) => d,
            None => {
                assert(!('0' <= s@[i as int] <= '9'));
                return None;
            },
        };
        proof {
            assert(s@.subrange(0, i + 1).drop_last() =~= s@.subrange(0, i as int));
            assert(s@.subrange(0, i + 1).last() == s@[i as int]);
        }
        if acc > (u64::MAX - d as u64) / 10 {
            proof {
                assert(digits_val(s@.subrange(0, i + 1)) > u64::MAX);
                if s@.len() > 0 && all_digits(s@) && digits_val(s@) <= u64::MAX {
                    lemma_digits_val_prefix(s@, i + 1);
                }
            }
            return None;
        }
        acc = acc * 10 + d as u64;
        i += 1;
    }
    proof {
        assert(s@.subrange(0, n as int) =~= s@);
    }
    Some(acc)
}

/// What a header line announces as the body length: the trimmed digits
/// after `Content-Length: `, or `None` for any other line or an
/// unreadable count.
pub open spec fn line_content_length(line: Seq<char>) -> Option<int> {
    if is_prefix_of("Content-Length: "@, line) {
        let t = trim_ws(line.subrange("Content-Length: "@.len() as int, line.len() as int));
        if t.len() > 0 && all_digits(t) {
            Some(digits_val(t))
        } else {
            None
        }
    } else {
        None
    }
}

/// Strip leading and trailing whitespace.
pub fn trim_str(s: &str) -> (t: &str)
    ensures
        t@ == trim_ws(s@),
{
    let n = s.unicode_len();
    let mut lo: usize = 0;
    while lo < n && is_ws_char(s.get_char(lo))
        invariant
            0 <= lo <= n,
            n == s@.len(),
            forall|j: int| 0 <= j < lo ==> is_ws(s@[j]),
        decreases n - lo,
    {
        lo += 1;
    }
    proof {
        lemma_drop_leading_ws_at(s@, lo as int);
    }
    if lo == n {
        let t = s.substring_char(n, n);
        proof {
            assert(drop_leading_ws(s@) =~= s@.subrange(n as int, n as int));
            assert(drop_leading_ws(s@).len() == 0);
        }
        return t;
    }
    let mut hi: usize = n;
    while hi > lo && is_ws_char(s.get_char(hi - 1))
        invariant
            lo <= hi <= n,
            n == s@.len(),
            lo < n,
            !is_ws(s@[lo as int]),
            forall|j: int| hi <= j < n ==> is_ws(s@[j]),
        decreases hi,
    {
        hi -= 1;
    }
    let t = s.substring_char(lo, hi);
    proof {
        let u = s@.subrange(lo as int, n as int);
        lemma_drop_trailing_ws_at(u, hi - lo as int);
        assert(u.subrange(0, hi - lo as int) =~= s@.subrange(lo as int, hi as int));
    }
    t
}

/// Is this character ASCII whitespace?
fn is_ws_char(c: char) -> (r: bool)
    ensures
        r == is_ws(c),
{
    c == ' ' || c == '\t' || c == '\r' || c == '\n'
}

/// Dropping leading whitespace keeps exactly the tail from the first
/// non-whitespace position.
proof fn lemma_drop_leading_ws_at(s: Seq<char>, k: int)
    requires
        0 <= k <= s.len(),
        forall|j: int| 0 <= j < k ==> is_ws(s[j]),
        k < s.len() ==> !is_ws(s[k]),
    ensures
        drop_leading_ws(s) == s.subrange(k, s.len() as int),
    decreases k,
{
    if k == 0 {
        assert(s.subrange(0, s.len() as int) =~= s);
    } else {
        assert(is_ws(s[0]));
        lemma_drop_leading_ws_at(s.drop_first(), k - 1);
        assert(s.drop_first().subrange(k - 1, s.drop_first().len() as int) =~= s.subrange(
            k,
            s.len() as int,
        ));
    }
}

/// Dropping trailing whitespace keeps exactly the head up to the last
/// non-whitespace position.
proof fn lemma_drop_trailing_ws_at(s: Seq<char>, m: int)
    requires
        0 <= m <= s.len(),
        forall|j: int| m <= j < s.len() ==> is_ws(s[j]),
        m > 0 ==> !is_ws(s[m - 1]),
    ensures
        drop_trailing_ws(s) == s.subrange(0, m),
    decreases s.len(),
{
    if m == s.len() {
        if s.len() == 0 {
            assert(s.subrange(0, 0) =~= s);
        } else {
            assert(!is_ws(s.last()));
            assert(s.subrange(0, s.len() as int) =~= s);
        }
    } else {
        assert(is_ws(s.last()));
        lemma_drop_trailing_ws_at(s.drop_last(), m);
        assert(s.drop_last().subrange(0, m) =~= s.subrange(0, m));
    }
}

/// Read the body length a header line announces, if any. Lines without
/// the `Content-Length: ` prefix carry none; an announced length that
/// does not parse, or does not fit in `u64`, reads as none.
pub fn content_length_of_line(line: &str) -> (r: Option<u64>)
    ensures
        line_content_length(line@) is None ==> r is None,
        line_content_length(line@) matches Some(v) ==> {
            &&& v <= u64::MAX ==> r == Some(v as u64)
            &&& v > u64::MAX ==> r is None
        },
{
    let prefix = "Content-Length: ";
    if !str_starts_with(line, prefix) {
        return None;
    }
    let plen = prefix.unicode_len();
    let rest = line.substring_char(plen, line.unicode_len());
    let t = trim_str(rest);
    parse_u64_digits(t)
}

/// Does this line end the header block?
pub fn is_end_of_headers(line: &str) -> (r: bool)
    ensures
        r == (line@ == "\r\n"@),
{
    str_eq(line, "\r\n")
}

} // verus!
