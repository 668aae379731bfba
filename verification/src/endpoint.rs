use vstd::prelude::*;

use crate::errors::AeronCError;
use vstd::string::StringSliceAdditionalSpecFns;

verus! {

/// ASCII decimal digit.
pub open spec fn is_digit(c: u8) -> bool {
    48 <= c <= 57
}

/// ASCII hexadecimal digit.
pub open spec fn is_hex(c: u8) -> bool {
    is_digit(c) || (65 <= c <= 70) || (97 <= c <= 102)
}

/// ASCII letter or digit.
pub open spec fn is_alnum(c: u8) -> bool {
    is_digit(c) || (65 <= c <= 90) || (97 <= c <= 122)
}

/// Whether `c` occurs in `s`.
pub open spec fn has_byte(s: Seq<u8>, c: u8) -> bool {
    exists|i: int| 0 <= i < s.len() && s[i] == c
}

/// Whether `c` occurs in `s` strictly before index `end`.
pub open spec fn has_byte_before(s: Seq<u8>, c: u8, end: int) -> bool {
    exists|i: int| 0 <= i < end && s[i] == c
}

/// Whether `c` occurs in `s` strictly after index `start`.
pub open spec fn has_byte_after(s: Seq<u8>, c: u8, start: int) -> bool {
    exists|i: int| start < i < s.len() && s[i] == c
}

/// The value of a string of decimal digits.
pub open spec fn decimal_value(s: Seq<u8>) -> nat
    decreases s.len(),
{
    if s.len() == 0 {
        0
    } else {
        decimal_value(s.drop_last()) * 10 + (s.last() - 48) as nat
    }
}

/// A port: a non-empty run of decimal digits whose value is at most 65535.
pub open spec fn valid_port(p: Seq<u8>) -> bool {
    &&& p.len() > 0
    &&& forall|i: int| 0 <= i < p.len() ==> is_digit(#[trigger] p[i])
    &&& decimal_value(p) <= 65535
}

/// An IPv6 literal (without brackets): non-empty, hex digits and colons only,
/// with at least one colon.
pub open spec fn valid_ipv6(h: Seq<u8>) -> bool {
    &&& h.len() > 0
    &&& has_byte(h, 58)
    &&& forall|i: int| 0 <= i < h.len() ==> is_hex(#[trigger] h[i]) || h[i] == 58
}

/// A hostname or IPv4 host: non-empty; letters, digits, `-`, `.` and at most one
/// `:`, which may not be the first or last byte.
pub open spec fn valid_host(h: Seq<u8>) -> bool {
    &&& h.len() > 0
    &&& forall|i: int, j: int|
        0 <= i < h.len() && 0 <= j < h.len() && #[trigger] h[i] == 58 && #[trigger] h[j] == 58
            ==> i == j
    &&& h[0] != 58
    &&& h[h.len() - 1] != 58
    &&& forall|i: int|
        0 <= i < h.len() ==> is_alnum(#[trigger] h[i]) || h[i] == 45 || h[i] == 46 || h[i] == 58
}

/// `[IPv6]:port`: `e` is the first `]`, at least one byte lies between the
/// brackets, a `:` follows the `]` directly, and the port is non-empty.
pub open spec fn valid_bracketed_at(b: Seq<u8>, e: int) -> bool {
    &&& 1 < e
    &&& e + 2 < b.len()
    &&& b[e] == 93
    &&& !has_byte_before(b, 93, e)
    &&& b[e + 1] == 58
    &&& valid_ipv6(b.subrange(1, e))
    &&& valid_port(b.subrange(e + 2, b.len() as int))
}

/// `host:port` split at the last `:` (index `c`), with a non-empty host and port.
pub open spec fn valid_unbracketed_at(b: Seq<u8>, c: int) -> bool {
    &&& 0 < c
    &&& c + 1 < b.len()
    &&& b[c] == 58
    &&& !has_byte_after(b, 58, c)
    &&& valid_host(b.subrange(0, c))
    &&& valid_port(b.subrange(c + 1, b.len() as int))
}

/// The endpoint syntax Aeron UDP channels accept: `host:port`, `IPv4:port` or
/// `[IPv6]:port`, with no `?`, `=` or `/` anywhere.
pub open spec fn valid_endpoint(b: Seq<u8>) -> bool {
    &&& b.len() > 0
    &&& !has_byte(b, 63)
    &&& !has_byte(b, 61)
    &&& !has_byte(b, 47)
    &&& if b[0] == 91 {
        exists|e: int| valid_bracketed_at(b, e)
    } else {
        exists|c: int| valid_unbracketed_at(b, c)
    }
}

/// One more digit multiplies the value by ten and adds the digit.
proof fn lemma_decimal_take_step(s: Seq<u8>, i: int)
    requires
        0 <= i < s.len(),
    ensures
        decimal_value(s.take(i + 1)) == decimal_value(s.take(i)) * 10 + (s[i] - 48) as nat,
{
    assert(s.take(i + 1).drop_last() =~= s.take(i));
}

/// The value of a digit string is at least the value of any of its prefixes.
proof fn lemma_decimal_prefix_le(s: Seq<u8>, i: int)
    requires
        0 <= i <= s.len(),
        forall|k: int| 0 <= k < s.len() ==> is_digit(#[trigger] s[k]),
    ensures
        decimal_value(s.take(i)) <= decimal_value(s),
    decreases s.len() - i,
{
    if i < s.len() {
        lemma_decimal_take_step(s, i);
        lemma_decimal_prefix_le(s, i + 1);
    } else {
        assert(s.take(i) =~= s);
    }
}

pub(crate) fn is_digit_byte(c: u8) -> (r: bool)
    ensures
        r == is_digit(c),
{
    48 <= c && c <= 57
}

pub(crate) fn is_hex_byte(c: u8) -> (r: bool)
    ensures
        r == is_hex(c),
{
    (48 <= c && c <= 57) || (65 <= c && c <= 70) || (97 <= c && c <= 102)
}

pub(crate) fn is_alnum_byte(c: u8) -> (r: bool)
    ensures
        r == is_alnum(c),
{
    (48 <= c && c <= 57) || (65 <= c && c <= 90) || (97 <= c && c <= 122)
}

/// Whether `b[start..end]` contains `c`.
fn contains_byte(b: &[u8], start: usize, end: usize, c: u8) -> (r: bool)
    requires
        start <= end <= b@.len(),
    ensures
        r == has_byte(b@.subrange(start as int, end as int), c),
{
    let mut i = start;
    while i < end
        invariant
            start <= i <= end <= b@.len(),
            forall|k: int| start <= k < i ==> b@[k] != c,
        decreases end - i,
    {
        if b[i] == c {
            assert(b@.subrange(start as int, end as int)[i - start] == c);
            return true;
        }
        i += 1;
    }
    assert forall|k: int| 0 <= k < end - start implies b@.subrange(
        start as int,
        end as int,
    )[k] != c by {
        assert(b@.subrange(start as int, end as int)[k] == b@[start + k]);
    }
    false
}

/// Validates a port held in `b[start..]`.
fn validate_port(b: &[u8], start: usize) -> (r: Result<(), AeronCError>)
    requires
        start <= b@.len(),
    ensures
        r is Ok <==> valid_port(b@.subrange(start as int, b@.len() as int)),
        r matches Err(e) ==> e.code == -1,
{
    let ghost p = b@.subrange(start as int, b@.len() as int);
    if start == b.len() {
        return Err(AeronCError::from_code(-1));
    }
    let mut value: u32 = 0;
    let mut i = start;
    while i < b.len()
        invariant
            start <= i <= b@.len(),
            p == b@.subrange(start as int, b@.len() as int),
            forall|k: int| 0 <= k < i - start ==> is_digit(#[trigger] p[k]),
            value == decimal_value(p.take(i - start)),
            value <= 65535,
        decreases b@.len() - i,
    {
        let c = b[i];
        if !is_digit_byte(c) {
            assert(p[i - start] == c);
            return Err(AeronCError::from_code(-1));
        }
        proof {
            assert(p[i - start] == c);
            lemma_decimal_take_step(p, i - start);
        }
        value = value * 10 + (c - 48) as u32;
        i += 1;
        if value > 65535 {
            proof {
                assert(value == decimal_value(p.take(i - start)));
                if forall|k: int| 0 <= k < p.len() ==> is_digit(#[trigger] p[k]) {
                    lemma_decimal_prefix_le(p, i - start);
                }
            }
            return Err(AeronCError::from_code(-1));
        }
    }
    assert(p.take(p.len() as int) =~= p);
    Ok(())
}

/// Validates an IPv6 literal held in `b[start..end]`.
fn validate_ipv6(b: &[u8], start: usize, end: usize) -> (r: Result<(), AeronCError>)
    requires
        start <= end <= b@.len(),
    ensures
        r is Ok <==> valid_ipv6(b@.subrange(start as int, end as int)),
        r matches Err(e) ==> e.code == -1,
{
    let ghost h = b@.subrange(start as int, end as int);
    if start == end {
        return Err(AeronCError::from_code(-1));
    }
    if !contains_byte(b, start, end, 58) {
        return Err(AeronCError::from_code(-1));
    }
    let mut i = start;
    while i < end
        invariant
            start <= i <= end <= b@.len(),
            h == b@.subrange(start as int, end as int),
            forall|k: int| 0 <= k < i - start ==> is_hex(#[trigger] h[k]) || h[k] == 58,
        decreases end - i,
    {
        let c = b[i];
        assert(h[i - start] == c);
        if !(is_hex_byte(c) || c == 58) {
            return Err(AeronCError::from_code(-1));
        }
        i += 1;
    }
    Ok(())
}

/// Validates a host held in `b[0..end]`.
fn validate_host(b: &[u8], end: usize) -> (r: Result<(), AeronCError>)
    requires
        end <= b@.len(),
    ensures
        r is Ok <==> valid_host(b@.subrange(0, end as int)),
        r matches Err(e) ==> e.code == -1,
{
    let ghost h = b@.subrange(0, end as int);
    if end == 0 {
        return Err(AeronCError::from_code(-1));
    }
    let mut colons: usize = 0;
    let mut first_colon: usize = 0;
    let mut i: usize = 0;
    while i < end
        invariant
            0 <= i <= end <= b@.len(),
            h == b@.subrange(0, end as int),
            colons <= 1,
            colons == 0 ==> forall|k: int| 0 <= k < i ==> h[k] != 58,
            colons == 1 ==> first_colon < i && h[first_colon as int] == 58 && forall|k: int|
                0 <= k < i && h[k] == 58 ==> k == first_colon,
        decreases end - i,
    {
        if b[i] == 58 {
            assert(h[i as int] == 58);
            if colons == 1 {
                assert(h[first_colon as int] == 58 && first_colon != i);
                return Err(AeronCError::from_code(-1));
            }
            colons = 1;
            first_colon = i;
        }
        i += 1;
    }
    if b[0] == 58 || b[end - 1] == 58 {
        return Err(AeronCError::from_code(-1));
    }
    let mut j: usize = 0;
    while j < end
        invariant
            0 <= j <= end <= b@.len(),
            h == b@.subrange(0, end as int),
            forall|k: int|
                0 <= k < j ==> is_alnum(#[trigger] h[k]) || h[k] == 45 || h[k] == 46 || h[k] == 58,
        decreases end - j,
    {
        let c = b[j];
        assert(h[j as int] == c);
        if !(is_alnum_byte(c) || c == 45 || c == 46 || c == 58) {
            return Err(AeronCError::from_code(-1));
        }
        j += 1;
    }
    Ok(())
}

/// Validates a UDP channel endpoint (`host:port`, `IPv4:port` or
/// `[IPv6]:port`) before it reaches the C layer. Every failure is code `-1`.
pub fn validate_endpoint_for_aeron_udp(endpoint: &str) -> (r: Result<(), AeronCError>)
    ensures
        r is Ok <==> valid_endpoint(endpoint.spec_bytes()),
        r matches Err(e) ==> e.code == -1,
{
    let b = endpoint.as_bytes();
    let ghost s = b@;
    let n = b.len();
    if n == 0 {
        return Err(AeronCError::from_code(-1));
    }
    assert(b@.subrange(0, n as int) =~= b@);
    if contains_byte(b, 0, n, 63) || contains_byte(b, 0, n, 61) || contains_byte(b, 0, n, 47) {
        return Err(AeronCError::from_code(-1));
    }
    if b[0] == 91 {
        // Find the first closing bracket.
        let mut e: usize = 0;
        while e < n && b[e] != 93
            invariant
                e <= n == b@.len(),
                s == b@,
                forall|k: int| 0 <= k < e ==> s[k] != 93,
            decreases n - e,
        {
            e += 1;
        }
        if e == n {
            assert forall|x: int| !valid_bracketed_at(s, x) by {
                if 0 <= x < s.len() && s[x] == 93 {
                    assert(s[x] != 93);
                }
            }
            return Err(AeronCError::from_code(-1));
        }
        // `e` is the first `]`; no other index can be.
        assert(!has_byte_before(s, 93, e as int));
        assert forall|x: int| #[trigger] valid_bracketed_at(s, x) implies x == e by {
            if x < e {
                assert(s[x] != 93);
            } else if x > e {
                assert(has_byte_before(s, 93, x));
            }
        }
        if e == 1 || n - e <= 2 || b[e + 1] != 58 {
            return Err(AeronCError::from_code(-1));
        }
        let host_ok = validate_ipv6(b, 1, e);
        if host_ok.is_err() {
            return Err(AeronCError::from_code(-1));
        }
        let port_ok = validate_port(b, e + 2);
        if port_ok.is_err() {
            return Err(AeronCError::from_code(-1));
        }
        assert(valid_bracketed_at(s, e as int));
        Ok(())
    } else {
        // Find the last colon.
        let mut c: usize = n;
        while c > 0 && b[c - 1] != 58
            invariant
                c <= n == b@.len(),
                s == b@,
                forall|k: int| c <= k < n ==> s[k] != 58,
            decreases c,
        {
            c -= 1;
        }
        if c == 0 {
            assert forall|x: int| !valid_unbracketed_at(s, x) by {
                if 0 <= x < s.len() && s[x] == 58 {
                    assert(s[x] != 58);
                }
            }
            return Err(AeronCError::from_code(-1));
        }
        let colon = c - 1;
        assert(!has_byte_after(s, 58, colon as int));
        assert forall|x: int| #[trigger] valid_unbracketed_at(s, x) implies x == colon by {
            if x > colon {
                assert(s[x] != 58);
            } else if x < colon {
                assert(has_byte_after(s, 58, x));
            }
        }
        if colon == 0 || colon + 1 >= n {
            return Err(AeronCError::from_code(-1));
        }
        let host_ok = validate_host(b, colon);
        if host_ok.is_err() {
            return Err(AeronCError::from_code(-1));
        }
        let port_ok = validate_port(b, colon + 1);
        if port_ok.is_err() {
            return Err(AeronCError::from_code(-1));
        }
        assert(valid_unbracketed_at(s, colon as int));
        Ok(())
    }
}

} // verus!
