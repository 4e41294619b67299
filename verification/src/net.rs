//! Textual network addresses: decimal fields, dotted-quad IPv4 addresses,
//! `host:port` endpoints and `address/prefix` CIDR blocks.
//!
//! Each grammar is stated as a spec-level parser over the character sequence
//! and implemented by an executable parser proved to return exactly what the
//! spec parser describes.

use vstd::prelude::*;
use vstd::string::StrSliceExecFns;

verus! {

/// A decimal digit.
pub open spec fn is_digit(c: char) -> bool {
    '0' as int <= c as int && c as int <= '9' as int
}

/// The value of a decimal digit.
pub open spec fn digit_val(c: char) -> int {
    c as int - '0' as int
}

/// Every character is a decimal digit.
pub open spec fn all_digits(s: Seq<char>) -> bool {
    forall|i: int| 0 <= i < s.len() ==> is_digit(#[trigger] s[i])
}

/// The value of a digit string, most significant digit first.
pub open spec fn digits_val(s: Seq<char>) -> int
    decreases s.len(),
{
    if s.len() == 0 {
        0
    } else {
        digits_val(s.drop_last()) * 10 + digit_val(s.last())
    }
}

/// Ten to the `k`.
pub open spec fn ten_pow(k: nat) -> int
    decreases k,
{
    if k == 0 {
        1
    } else {
        10 * ten_pow((k - 1) as nat)
    }
}

/// A decimal field: nonempty, digits only, no leading zero.
pub open spec fn valid_decimal(s: Seq<char>) -> bool {
    s.len() >= 1 && all_digits(s) && (s.len() > 1 ==> s[0] != '0')
}

/// The value of a decimal field, or `None` where the text is not a decimal
/// field or its value is above `cap`.
pub open spec fn spec_parse_decimal(s: Seq<char>, cap: int) -> Option<int> {
    if valid_decimal(s) && digits_val(s) <= cap {
        Some(digits_val(s))
    } else {
        None
    }
}

/// The first position of `c` in `s` at or after `i`.
pub open spec fn find_from(s: Seq<char>, c: char, i: int) -> Option<int>
    decreases s.len() - i,
    when 0 <= i
{
    if i >= s.len() {
        None
    } else if s[i] == c {
        Some(i)
    } else {
        find_from(s, c, i + 1)
    }
}

proof fn lemma_digits_val_lower(s: Seq<char>)
    requires
        all_digits(s),
        s.len() >= 1,
        s[0] != '0',
    ensures
        digits_val(s) >= ten_pow((s.len() - 1) as nat),
    decreases s.len(),
{
    if s.len() == 1 {
        assert(is_digit(s[0]));
    } else {
        assert(all_digits(s.drop_last()));
        assert(s.drop_last()[0] == s[0]);
        lemma_digits_val_lower(s.drop_last());
        assert(is_digit(s.last()));
        assert(ten_pow((s.len() - 1) as nat) == 10 * ten_pow((s.len() - 2) as nat));
        assert(digits_val(s.drop_last()) * 10 >= ten_pow((s.len() - 2) as nat) * 10);
    }
}

proof fn lemma_ten_pow_5()
    ensures
        ten_pow(5) == 100000,
{
    assert(ten_pow(0) == 1);
    assert(ten_pow(1) == 10);
    assert(ten_pow(2) == 100);
    assert(ten_pow(3) == 1000);
    assert(ten_pow(4) == 10000);
    assert(ten_pow(5) == 100000);
}

proof fn lemma_digits_val_upper(s: Seq<char>)
    requires
        all_digits(s),
    ensures
        digits_val(s) < ten_pow(s.len()),
    decreases s.len(),
{
    if s.len() > 0 {
        assert(all_digits(s.drop_last()));
        lemma_digits_val_upper(s.drop_last());
        assert(is_digit(s.last()));
    }
}

proof fn lemma_ten_pow_mono(a: nat, b: nat)
    requires
        a <= b,
    ensures
        ten_pow(a) <= ten_pow(b),
    decreases b,
{
    if a < b {
        lemma_ten_pow_mono(a, (b - 1) as nat);
        assert(ten_pow((b - 1) as nat) >= 1) by {
            lemma_ten_pow_pos((b - 1) as nat);
        }
    }
}

proof fn lemma_ten_pow_pos(k: nat)
    ensures
        ten_pow(k) >= 1,
    decreases k,
{
    if k > 0 {
        lemma_ten_pow_pos((k - 1) as nat);
    }
}

/// Parse a decimal field of value at most `cap`.
///
/// Returns exactly what the spec-level parse describes: `None` for an empty
/// string, a non-digit, a leading zero, or a value above `cap`.
pub fn parse_decimal(s: &str, cap: u32) -> (r: Option<u32>)
    requires
        cap <= 65535,
    ensures
        r matches Some(v) ==> spec_parse_decimal(s@, cap as int) == Some(v as int),
        r is None ==> spec_parse_decimal(s@, cap as int) is None,
{
    let n = s.unicode_len();
    if n == 0 {
        return None;
    }
    if n > 5 {
        proof {
            if valid_decimal(s@) {
                lemma_digits_val_lower(s@);
                lemma_ten_pow_mono(5, (s@.len() - 1) as nat);
                lemma_ten_pow_5();
            }
        }
        return None;
    }
    if n > 1 && s.get_char(0) == '0' {
        return None;
    }
    let mut v: u32 = 0;
    let mut i: usize = 0;
    while i < n
        invariant
            i <= n,
            n == s@.len(),
            n <= 5,
            forall|j: int| 0 <= j < i ==> is_digit(#[trigger] s@[j]),
            v == digits_val(s@.subrange(0, i as int)),
            v < 100000,
        decreases n - i,
    {
        let c = s.get_char(i);
        let cv = c as u32;
        if cv < 48 || cv > 57 {
            assert(!is_digit(s@[i as int]));
            return None;
        }
        let d = cv - 48;
        proof {
            let pre = s@.subrange(0, i as int);
            let cur = s@.subrange(0, i as int + 1);
            assert(cur.drop_last() =~= pre);
            assert(cur.last() == s@[i as int]);
            assert(all_digits(cur));
            lemma_digits_val_upper(cur);
            lemma_ten_pow_mono(cur.len(), 5);
            lemma_ten_pow_5();
        }
        v = v * 10 + d;
        i = i + 1;
    }
    proof {
        assert(s@.subrange(0, n as int) =~= s@);
    }
    if v <= cap {
        Some(v)
    } else {
        None
    }
}

/// Find the first occurrence of `c` in `s` at or after `start`.
pub fn find_char_from(s: &str, c: char, start: usize) -> (r: Option<usize>)
    requires
        start <= s@.len(),
    ensures
        r matches Some(j) ==> find_from(s@, c, start as int) == Some(j as int)
            && start <= j < s@.len(),
        r is None ==> find_from(s@, c, start as int) is None,
    decreases s@.len() - start,
{
    let n = s.unicode_len();
    if start >= n {
        None
    } else if s.get_char(start) == c {
        Some(start)
    } else {
        find_char_from(s, c, start + 1)
    }
}

/// A dotted-quad IPv4 address.
#[derive(Clone, Copy, Debug, PartialEq, Eq, Structural)]
pub struct Ipv4Quad {
    pub a: u8,
    pub b: u8,
    pub c: u8,
    pub d: u8,
}

/// The four fields of a dotted-quad IPv4 address, or `None` where the text
/// is not one: exactly four decimal fields of value at most 255, separated
/// by single dots, no leading zeros.
pub open spec fn spec_parse_ipv4(s: Seq<char>) -> Option<(int, int, int, int)> {
    match find_from(s, '.', 0) {
        None => None,
        Some(i1) => match spec_parse_decimal(s.subrange(0, i1), 255) {
            None => None,
            Some(a) => {
                let t2 = s.subrange(i1 + 1, s.len() as int);
                match find_from(t2, '.', 0) {
                    None => None,
                    Some(i2) => match spec_parse_decimal(t2.subrange(0, i2), 255) {
                        None => None,
                        Some(b) => {
                            let t3 = t2.subrange(i2 + 1, t2.len() as int);
                            match find_from(t3, '.', 0) {
                                None => None,
                                Some(i3) => match spec_parse_decimal(t3.subrange(0, i3), 255) {
                                    None => None,
                                    Some(c) => match spec_parse_decimal(
                                        t3.subrange(i3 + 1, t3.len() as int),
                                        255,
                                    ) {
                                        None => None,
                                        Some(d) => Some((a, b, c, d)),
                                    },
                                },
                            }
                        },
                    },
                }
            },
        },
    }
}

/// Whether the text is a dotted-quad IPv4 address.
pub open spec fn valid_ipv4(s: Seq<char>) -> bool {
    spec_parse_ipv4(s) is Some
}

/// Parse a dotted-quad IPv4 address.
pub fn parse_ipv4(s: &str) -> (r: Option<Ipv4Quad>)
    ensures
        r matches Some(q) ==> spec_parse_ipv4(s@) == Some(
            (q.a as int, q.b as int, q.c as int, q.d as int),
        ),
        r is None ==> spec_parse_ipv4(s@) is None,
{
    let n = s.unicode_len();
    let i1 = match find_char_from(s, '.', 0) {
        None => {
            return None;
        },
        Some(i) => i,
    };
    let a = match parse_decimal(s.substring_char(0, i1), 255) {
        None => {
            return None;
        },
        Some(v) => v,
    };
    let t2 = s.substring_char(i1 + 1, n);
    let n2 = t2.unicode_len();
    let i2 = match find_char_from(t2, '.', 0) {
        None => {
            return None;
        },
        Some(i) => i,
    };
    let b = match parse_decimal(t2.substring_char(0, i2), 255) {
        None => {
            return None;
        },
        Some(v) => v,
    };
    let t3 = t2.substring_char(i2 + 1, n2);
    let n3 = t3.unicode_len();
    let i3 = match find_char_from(t3, '.', 0) {
        None => {
            return None;
        },
        Some(i) => i,
    };
    let c = match parse_decimal(t3.substring_char(0, i3), 255) {
        None => {
            return None;
        },
        Some(v) => v,
    };
    let d = match parse_decimal(t3.substring_char(i3 + 1, n3), 255) {
        None => {
            return None;
        },
        Some(v) => v,
    };
    Some(Ipv4Quad { a: a as u8, b: b as u8, c: c as u8, d: d as u8 })
}

proof fn lemma_digits_val_nonneg(s: Seq<char>)
    requires
        all_digits(s),
    ensures
        digits_val(s) >= 0,
    decreases s.len(),
{
    if s.len() > 0 {
        assert(all_digits(s.drop_last()));
        lemma_digits_val_nonneg(s.drop_last());
        assert(is_digit(s.last()));
    }
}

proof fn lemma_digits_prefix_le(s: Seq<char>, i: int)
    requires
        all_digits(s),
        0 <= i <= s.len(),
    ensures
        digits_val(s.subrange(0, i)) <= digits_val(s),
    decreases s.len() - i,
{
    if i == s.len() {
        assert(s.subrange(0, i) =~= s);
    } else {
        let a = s.subrange(0, i);
        let b = s.subrange(0, i + 1);
        assert(b.drop_last() =~= a);
        assert(b.last() == s[i]);
        assert(all_digits(a));
        lemma_digits_val_nonneg(a);
        assert(is_digit(s[i]));
        lemma_digits_prefix_le(s, i + 1);
    }
}

/// The value of a run of digits with leading zeros allowed, at most 65535:
/// the port grammar of a socket-address text.
pub open spec fn spec_parse_port(s: Seq<char>) -> Option<int> {
    if s.len() >= 1 && all_digits(s) && digits_val(s) <= 65535 {
        Some(digits_val(s))
    } else {
        None
    }
}

/// The value of a decimal with an optional leading plus sign and leading
/// zeros allowed, at most `cap`: how a bare number is read out of free
/// text.
pub open spec fn spec_parse_number(s: Seq<char>, cap: int) -> Option<int> {
    let body = if s.len() > 0 && s[0] == '+' {
        s.drop_first()
    } else {
        s
    };
    if body.len() >= 1 && all_digits(body) && digits_val(body) <= cap {
        Some(digits_val(body))
    } else {
        None
    }
}

fn parse_digits_from(s: &str, start: usize, cap: u32) -> (r: Option<u32>)
    requires
        start <= s@.len(),
        cap <= 65535,
    ensures
        ({
            let body = s@.subrange(start as int, s@.len() as int);
            &&& (r matches Some(v) ==> body.len() >= 1 && all_digits(body) && digits_val(body)
                == v as int && v <= cap)
            &&& (r is None ==> !(body.len() >= 1 && all_digits(body) && digits_val(body)
                <= cap as int))
        }),
{
    let ghost body = s@.subrange(start as int, s@.len() as int);
    let n = s.unicode_len();
    if start >= n {
        return None;
    }
    let mut v: u32 = 0;
    let mut i: usize = start;
    while i < n
        invariant
            start <= i <= n,
            n == s@.len(),
            cap <= 65535,
            body == s@.subrange(start as int, s@.len() as int),
            forall|j: int| start <= j < i ==> is_digit(#[trigger] s@[j]),
            v == digits_val(s@.subrange(start as int, i as int)),
            v <= cap,
        decreases n - i,
    {
        let c = s.get_char(i);
        let cv = c as u32;
        if cv < 48 || cv > 57 {
            proof {
                assert(!is_digit(s@[i as int]));
                assert(body[i - start] == s@[i as int]);
            }
            return None;
        }
        let d = cv - 48;
        proof {
            let pre = s@.subrange(start as int, i as int);
            let cur = s@.subrange(start as int, i as int + 1);
            assert(cur.drop_last() =~= pre);
            assert(cur.last() == s@[i as int]);
        }
        let v2 = v * 10 + d;
        if v2 > cap {
            proof {
                if all_digits(body) {
                    assert(body.subrange(0, i + 1 - start) =~= s@.subrange(
                        start as int,
                        i as int + 1,
                    ));
                    lemma_digits_prefix_le(body, i + 1 - start);
                }
            }
            return None;
        }
        v = v2;
        i = i + 1;
    }
    proof {
        assert(s@.subrange(start as int, n as int) =~= body);
    }
    Some(v)
}

/// Parse a port: digits with leading zeros allowed, value at most 65535.
pub fn parse_port(s: &str) -> (r: Option<u16>)
    ensures
        r matches Some(p) ==> spec_parse_port(s@) == Some(p as int),
        r is None ==> spec_parse_port(s@) is None,
{
    proof {
        assert(s@.subrange(0, s@.len() as int) =~= s@);
    }
    match parse_digits_from(s, 0, 65535) {
        Some(v) => Some(v as u16),
        None => None,
    }
}

/// Parse a capped decimal with an optional leading plus sign and leading
/// zeros allowed.
pub fn parse_number(s: &str, cap: u32) -> (r: Option<u32>)
    requires
        cap <= 65535,
    ensures
        r matches Some(v) ==> spec_parse_number(s@, cap as int) == Some(v as int),
        r is None ==> spec_parse_number(s@, cap as int) is None,
{
    let n = s.unicode_len();
    let start: usize = if n > 0 && s.get_char(0) == '+' {
        1
    } else {
        0
    };
    proof {
        if start == 1 {
            assert(s@.subrange(1, s@.len() as int) =~= s@.drop_first());
        } else {
            assert(s@.subrange(0, s@.len() as int) =~= s@);
        }
    }
    parse_digits_from(s, start, cap)
}

/// A hexadecimal digit.
pub open spec fn is_hex_digit(c: char) -> bool {
    ||| is_digit(c)
    ||| 'a' as int <= c as int && c as int <= 'f' as int
    ||| 'A' as int <= c as int && c as int <= 'F' as int
}

/// Every character is a hexadecimal digit.
pub open spec fn all_hex_digits(s: Seq<char>) -> bool {
    forall|i: int| 0 <= i < s.len() ==> is_hex_digit(#[trigger] s[i])
}

/// One group of an IPv6 address: one to four hexadecimal digits.
pub open spec fn valid_hex_group(s: Seq<char>) -> bool {
    1 <= s.len() <= 4 && all_hex_digits(s)
}

/// The position of the next colon at or after `i`, or the length.
pub open spec fn colon_end(s: Seq<char>, i: int) -> int {
    match find_from(s, ':', i) {
        Some(j) => j,
        None => s.len() as int,
    }
}

proof fn lemma_find_from_bounds(s: Seq<char>, c: char, i: int)
    requires
        0 <= i,
    ensures
        find_from(s, c, i) matches Some(j) ==> i <= j < s.len() && s[j] == c,
    decreases s.len() - i,
{
    if i < s.len() && s[i] != c {
        lemma_find_from_bounds(s, c, i + 1);
    }
}

/// How many colon-separated pieces stand from `i` to the end, all of them
/// hex groups — except that, where `v4_tail` allows it, the last may be a
/// dotted-quad tail, which stands for two groups.  `None` where any piece
/// is neither.
pub open spec fn spec_group_count(s: Seq<char>, i: int, v4_tail: bool) -> Option<int>
    decreases s.len() - i,
    when 0 <= i <= s.len()
    via spec_group_count_decreases
{
    let j = colon_end(s, i);
    let piece = s.subrange(i, j);
    if j == s.len() {
        if valid_hex_group(piece) {
            Some(1)
        } else if v4_tail && valid_ipv4(piece) {
            Some(2)
        } else {
            None
        }
    } else {
        if valid_hex_group(piece) {
            match spec_group_count(s, j + 1, v4_tail) {
                Some(n) => Some(1 + n),
                None => None,
            }
        } else {
            None
        }
    }
}

#[via_fn]
proof fn spec_group_count_decreases(s: Seq<char>, i: int, v4_tail: bool) {
    lemma_find_from_bounds(s, ':', i);
}

proof fn lemma_group_count_le(s: Seq<char>, i: int, v4_tail: bool)
    requires
        0 <= i <= s.len(),
    ensures
        spec_group_count(s, i, v4_tail) matches Some(n) ==> n <= s.len() - i + 1,
    decreases s.len() - i,
{
    lemma_find_from_bounds(s, ':', i);
    let j = colon_end(s, i);
    if j == s.len() {
        let piece = s.subrange(i, j);
        if !valid_hex_group(piece) && v4_tail && valid_ipv4(piece) {
            assert(piece.len() >= 1) by {
                if piece.len() == 0 {
                    assert(find_from(piece, '.', 0) is None);
                }
            }
        }
    } else {
        if valid_hex_group(s.subrange(i, j)) {
            lemma_group_count_le(s, j + 1, v4_tail);
        }
    }
}

/// The first position of two consecutive colons at or after `i`.
pub open spec fn double_colon_from(s: Seq<char>, i: int) -> Option<int>
    decreases s.len() - i,
    when 0 <= i
{
    if i + 1 >= s.len() {
        None
    } else if s[i] == ':' && s[i + 1] == ':' {
        Some(i)
    } else {
        double_colon_from(s, i + 1)
    }
}

/// Whether the text is an IPv6 address: eight hex groups separated by
/// single colons, a dotted-quad tail standing for the last two, or a
/// single `::` eliding one or more zero groups.
pub open spec fn valid_ipv6(s: Seq<char>) -> bool {
    match double_colon_from(s, 0) {
        None => spec_group_count(s, 0, true) == Some(8int),
        Some(k) => {
            let left = s.subrange(0, k);
            let right = s.subrange(k + 2, s.len() as int);
            let lc = if left.len() == 0 {
                Some(0int)
            } else {
                spec_group_count(left, 0, false)
            };
            let rc = if right.len() == 0 {
                Some(0int)
            } else {
                spec_group_count(right, 0, true)
            };
            &&& lc is Some
            &&& rc is Some
            &&& lc->0 + rc->0 <= 7
        },
    }
}

fn is_hex_group(s: &str) -> (r: bool)
    ensures
        r == valid_hex_group(s@),
{
    let n = s.unicode_len();
    if n < 1 || n > 4 {
        return false;
    }
    let mut i: usize = 0;
    while i < n
        invariant
            i <= n,
            n == s@.len(),
            forall|j: int| 0 <= j < i ==> is_hex_digit(#[trigger] s@[j]),
        decreases n - i,
    {
        let cv = s.get_char(i) as u32;
        if !((48 <= cv && cv <= 57) || (97 <= cv && cv <= 102) || (65 <= cv && cv <= 70)) {
            assert(!is_hex_digit(s@[i as int]));
            return false;
        }
        i = i + 1;
    }
    true
}

fn group_count_from(s: &str, i: usize, v4_tail: bool) -> (r: Option<usize>)
    requires
        i <= s@.len(),
    ensures
        r matches Some(n) ==> spec_group_count(s@, i as int, v4_tail) == Some(n as int),
        r is None ==> spec_group_count(s@, i as int, v4_tail) is None,
    decreases s@.len() - i,
{
    let n = s.unicode_len();
    let j = match find_char_from(s, ':', i) {
        Some(j) => j,
        None => n,
    };
    let piece = s.substring_char(i, j);
    if j == n {
        if is_hex_group(piece) {
            Some(1)
        } else if v4_tail && parse_ipv4(piece).is_some() {
            Some(2)
        } else {
            None
        }
    } else {
        if is_hex_group(piece) {
            match group_count_from(s, j + 1, v4_tail) {
                Some(c) => {
                    proof {
                        lemma_group_count_le(s@, j as int + 1, v4_tail);
                    }
                    Some(c + 1)
                },
                None => None,
            }
        } else {
            None
        }
    }
}

fn double_colon_exec(s: &str, i: usize) -> (r: Option<usize>)
    requires
        i <= s@.len(),
    ensures
        r matches Some(k) ==> double_colon_from(s@, i as int) == Some(k as int) && i <= k && k + 2
            <= s@.len(),
        r is None ==> double_colon_from(s@, i as int) is None,
    decreases s@.len() - i,
{
    let n = s.unicode_len();
    if n == 0 || i >= n - 1 {
        None
    } else if s.get_char(i) == ':' && s.get_char(i + 1) == ':' {
        Some(i)
    } else {
        double_colon_exec(s, i + 1)
    }
}

/// Whether the text is an IPv6 address.
pub fn is_valid_ipv6(s: &str) -> (r: bool)
    ensures
        r == valid_ipv6(s@),
{
    let n = s.unicode_len();
    match double_colon_exec(s, 0) {
        None => match group_count_from(s, 0, true) {
            Some(c) => c == 8,
            None => false,
        },
        Some(k) => {
            let left = s.substring_char(0, k);
            let right = s.substring_char(k + 2, n);
            let lc: Option<usize> = if left.unicode_len() == 0 {
                Some(0)
            } else {
                group_count_from(left, 0, false)
            };
            let rc: Option<usize> = if right.unicode_len() == 0 {
                Some(0)
            } else {
                group_count_from(right, 0, true)
            };
            match (lc, rc) {
                (Some(a), Some(b)) => a <= 7 && b <= 7 - a,
                _ => false,
            }
        },
    }
}

/// The host of a socket address: a dotted quad, or an IPv6 address kept as
/// its text.
#[derive(Clone, Debug, PartialEq, Eq)]
pub enum HostAddr {
    V4(Ipv4Quad),
    V6(String),
}

/// A socket address.
#[derive(Clone, Debug, PartialEq, Eq)]
pub struct EndpointAddr {
    pub host: HostAddr,
    pub port: u16,
}

/// An IPv4 endpoint `address:port`: a dotted quad, a colon, and a port.
/// A bracketed text is the IPv6 form, never this one.
pub open spec fn spec_parse_endpoint(s: Seq<char>) -> Option<((int, int, int, int), int)> {
    if s.len() == 0 || s[0] == '[' {
        None
    } else {
        match find_from(s, ':', 0) {
            None => None,
            Some(i) => match spec_parse_ipv4(s.subrange(0, i)) {
                None => None,
                Some(q) => match spec_parse_port(s.subrange(i + 1, s.len() as int)) {
                    None => None,
                    Some(p) => Some((q, p)),
                },
            },
        }
    }
}

/// An IPv6 endpoint `[address]:port`.
pub open spec fn spec_parse_endpoint_v6(s: Seq<char>) -> Option<(Seq<char>, int)> {
    if s.len() == 0 || s[0] != '[' {
        None
    } else {
        match find_from(s, ']', 0) {
            None => None,
            Some(m) => {
                let inside = s.subrange(1, m);
                if 1 <= m && valid_ipv6(inside) && m + 1 < s.len() && s[m + 1] == ':' {
                    match spec_parse_port(s.subrange(m + 2, s.len() as int)) {
                        None => None,
                        Some(p) => Some((inside, p)),
                    }
                } else {
                    None
                }
            },
        }
    }
}

/// Whether the text is a socket address, IPv4 or IPv6.
pub open spec fn valid_endpoint(s: Seq<char>) -> bool {
    spec_parse_endpoint(s) is Some || spec_parse_endpoint_v6(s) is Some
}

/// Parse an endpoint: `address:port` for IPv4, `[address]:port` for IPv6.
pub fn parse_endpoint(s: &str) -> (r: Option<EndpointAddr>)
    ensures
        r is Some <==> valid_endpoint(s@),
        r matches Some(e) ==> match e.host {
            HostAddr::V4(q) => spec_parse_endpoint(s@) == Some(
                ((q.a as int, q.b as int, q.c as int, q.d as int), e.port as int),
            ),
            HostAddr::V6(h) => spec_parse_endpoint_v6(s@) matches Some(x) && x.0 == h@ && x.1
                == e.port as int,
        },
{
    let n = s.unicode_len();
    if n > 0 && s.get_char(0) == '[' {
        let m = match find_char_from(s, ']', 0) {
            None => {
                return None;
            },
            Some(m) => m,
        };
        if m < 1 {
            return None;
        }
        let inside = s.substring_char(1, m);
        if !is_valid_ipv6(inside) {
            return None;
        }
        if m + 1 >= n {
            return None;
        }
        if s.get_char(m + 1) != ':' {
            return None;
        }
        let port = match parse_port(s.substring_char(m + 2, n)) {
            None => {
                return None;
            },
            Some(p) => p,
        };
        Some(EndpointAddr { host: HostAddr::V6(inside.to_owned()), port })
    } else {
        let i = match find_char_from(s, ':', 0) {
            None => {
                return None;
            },
            Some(i) => i,
        };
        let host = match parse_ipv4(s.substring_char(0, i)) {
            None => {
                return None;
            },
            Some(q) => q,
        };
        let port = match parse_port(s.substring_char(i + 1, n)) {
            None => {
                return None;
            },
            Some(p) => p,
        };
        Some(EndpointAddr { host: HostAddr::V4(host), port })
    }
}

/// A CIDR block.
#[derive(Clone, Debug, PartialEq, Eq)]
pub struct CidrBlock {
    pub addr: HostAddr,
    pub prefix: u8,
}

/// An IPv4 CIDR block `address/prefix`: a dotted quad, a slash, and a
/// prefix length of value at most 32, read as a bare number.
pub open spec fn spec_parse_cidr(s: Seq<char>) -> Option<((int, int, int, int), int)> {
    match find_from(s, '/', 0) {
        None => None,
        Some(i) => match spec_parse_ipv4(s.subrange(0, i)) {
            None => None,
            Some(q) => match spec_parse_number(s.subrange(i + 1, s.len() as int), 32) {
                None => None,
                Some(p) => Some((q, p)),
            },
        },
    }
}

/// An IPv6 CIDR block `address/prefix` with a prefix of value at most 128.
/// An address in dotted-quad form is the IPv4 block, never this one.
pub open spec fn spec_parse_cidr_v6(s: Seq<char>) -> Option<(Seq<char>, int)> {
    match find_from(s, '/', 0) {
        None => None,
        Some(i) => {
            let addr = s.subrange(0, i);
            if !valid_ipv4(addr) && valid_ipv6(addr) {
                match spec_parse_number(s.subrange(i + 1, s.len() as int), 128) {
                    None => None,
                    Some(p) => Some((addr, p)),
                }
            } else {
                None
            }
        },
    }
}

/// Whether the text is a CIDR block, IPv4 or IPv6.
pub open spec fn valid_cidr(s: Seq<char>) -> bool {
    spec_parse_cidr(s) is Some || spec_parse_cidr_v6(s) is Some
}

/// Parse a CIDR block `address/prefix`.
pub fn parse_cidr(s: &str) -> (r: Option<CidrBlock>)
    ensures
        r is Some <==> valid_cidr(s@),
        r matches Some(b) ==> match b.addr {
            HostAddr::V4(q) => spec_parse_cidr(s@) == Some(
                ((q.a as int, q.b as int, q.c as int, q.d as int), b.prefix as int),
            ),
            HostAddr::V6(h) => spec_parse_cidr_v6(s@) matches Some(x) && x.0 == h@ && x.1
                == b.prefix as int,
        },
{
    let n = s.unicode_len();
    let i = match find_char_from(s, '/', 0) {
        None => {
            return None;
        },
        Some(i) => i,
    };
    let addr_text = s.substring_char(0, i);
    match parse_ipv4(addr_text) {
        Some(addr) => {
            let prefix = match parse_number(s.substring_char(i + 1, n), 32) {
                None => {
                    return None;
                },
                Some(p) => p,
            };
            Some(CidrBlock { addr: HostAddr::V4(addr), prefix: prefix as u8 })
        },
        None => {
            if !is_valid_ipv6(addr_text) {
                return None;
            }
            let prefix = match parse_number(s.substring_char(i + 1, n), 128) {
                None => {
                    return None;
                },
                Some(p) => p,
            };
            Some(CidrBlock { addr: HostAddr::V6(addr_text.to_owned()), prefix: prefix as u8 })
        },
    }
}

/// The documented default endpoint and local address satisfy the crate's
/// grammars: a configuration holding them fails validation only over its
/// keys.
pub proof fn lemma_default_text_grammars()
    ensures
        valid_endpoint("127.0.0.1:51820"@),
        valid_cidr("10.8.0.2/32"@),
{
    reveal_strlit("127.0.0.1:51820");
    reveal_strlit("10.8.0.2/32");
    reveal_with_fuel(find_from, 16);
    reveal_with_fuel(digits_val, 6);
    let e = "127.0.0.1:51820"@;
    assert(find_from(e, ':', 0) == Some(9int));
    let ip = e.subrange(0, 9);
    assert(find_from(ip, '.', 0) == Some(3int));
    let o1 = ip.subrange(0, 3);
    assert(all_digits(o1));
    assert(digits_val(o1) == 127);
    assert(spec_parse_decimal(o1, 255) == Some(127int));
    let t2 = ip.subrange(4, 9);
    assert(find_from(t2, '.', 0) == Some(1int));
    let o2 = t2.subrange(0, 1);
    assert(all_digits(o2));
    assert(spec_parse_decimal(o2, 255) == Some(0int));
    let t3 = t2.subrange(2, 5);
    assert(find_from(t3, '.', 0) == Some(1int));
    let o3 = t3.subrange(0, 1);
    assert(all_digits(o3));
    assert(spec_parse_decimal(o3, 255) == Some(0int));
    let o4 = t3.subrange(2, 3);
    assert(all_digits(o4));
    assert(spec_parse_decimal(o4, 255) == Some(1int));
    assert(spec_parse_ipv4(ip) == Some((127int, 0int, 0int, 1int)));
    let port = e.subrange(10, 15);
    assert(all_digits(port));
    assert(digits_val(port) == 51820);
    assert(spec_parse_port(port) == Some(51820int));
    assert(spec_parse_endpoint(e) is Some);

    let c = "10.8.0.2/32"@;
    assert(find_from(c, '/', 0) == Some(8int));
    let addr = c.subrange(0, 8);
    assert(find_from(addr, '.', 0) == Some(2int));
    let a1 = addr.subrange(0, 2);
    assert(all_digits(a1));
    assert(digits_val(a1) == 10);
    assert(spec_parse_decimal(a1, 255) == Some(10int));
    let u2 = addr.subrange(3, 8);
    assert(find_from(u2, '.', 0) == Some(1int));
    let a2 = u2.subrange(0, 1);
    assert(all_digits(a2));
    assert(spec_parse_decimal(a2, 255) == Some(8int));
    let u3 = u2.subrange(2, 5);
    assert(find_from(u3, '.', 0) == Some(1int));
    let a3 = u3.subrange(0, 1);
    assert(all_digits(a3));
    assert(spec_parse_decimal(a3, 255) == Some(0int));
    let a4 = u3.subrange(2, 3);
    assert(all_digits(a4));
    assert(spec_parse_decimal(a4, 255) == Some(2int));
    assert(spec_parse_ipv4(addr) == Some((10int, 8int, 0int, 2int)));
    let prefix = c.subrange(9, 11);
    assert(all_digits(prefix));
    assert(digits_val(prefix) == 32);
    assert(spec_parse_number(prefix, 32) == Some(32int));
    assert(spec_parse_cidr(c) is Some);
}

/// The host part of an endpoint: everything before the first colon, or the
/// whole text where there is none.
pub fn endpoint_host(s: &str) -> (r: String)
    ensures
        find_from(s@, ':', 0) matches Some(i) ==> r@ == s@.subrange(0, i),
        find_from(s@, ':', 0) is None ==> r@ == s@,
{
    let n = s.unicode_len();
    match find_char_from(s, ':', 0) {
        None => s.substring_char(0, n).to_owned(),
        Some(i) => s.substring_char(0, i).to_owned(),
    }
}

} // verus!
