//! Textual socket addresses.
//!
//! A listener or dialer is bound to a `host:port` address given as text.
//! This module models such an address as four octets and a port, and parses
//! the dotted-decimal form `a.b.c.d:p`, where every number is written in
//! plain decimal (no leading zeros, no sign), each octet is at most 255 and
//! the port is at most 65535. A string that deviates in any way is rejected;
//! construction of a listener or a dialer then fails fatally.

use vstd::prelude::*;
use vstd::string::StringSliceAdditionalSpecFns;

verus! {

/// The byte value of the ASCII digit `0`.
pub const DIGIT_ZERO: u8 = 48;

/// The byte value of the ASCII digit `9`.
pub const DIGIT_NINE: u8 = 57;

/// The byte value of `.`.
pub const DOT: u8 = 46;

/// The byte value of `:`.
pub const COLON: u8 = 58;

/// A socket address: four octets of a dotted-decimal host and a port.
#[derive(Clone, Copy, Debug, PartialEq, Eq, Structural)]
pub struct Addr {
    pub o0: u8,
    pub o1: u8,
    pub o2: u8,
    pub o3: u8,
    pub port: u16,
}

/// Whether `b` is the byte of an ASCII decimal digit.
pub open spec fn is_digit(b: u8) -> bool {
    DIGIT_ZERO <= b <= DIGIT_NINE
}

/// The numeric value of the digit byte `b`.
pub open spec fn digit_val(b: u8) -> nat {
    (b - DIGIT_ZERO) as nat
}

/// The end of the maximal run of digit bytes that starts at `i`: the first
/// index at or after `i` holding a non-digit, or the length of `s`.
pub open spec fn run_end(s: Seq<u8>, i: nat) -> nat
    decreases s.len() - i,
    when i <= s.len()
{
    if i < s.len() && is_digit(s[i as int]) {
        run_end(s, i + 1)
    } else {
        i
    }
}

/// The number denoted by a sequence of digit bytes, read in base ten.
pub open spec fn digits_value(s: Seq<u8>) -> nat
    decreases s.len(),
{
    if s.len() == 0 {
        0
    } else {
        digits_value(s.drop_last()) * 10 + digit_val(s.last())
    }
}

/// Whether `s` is a plain decimal numeral: at least one digit, nothing but
/// digits, and no leading zero (so `0` is plain but `00` and `01` are not).
pub open spec fn is_plain_decimal(s: Seq<u8>) -> bool {
    &&& s.len() >= 1
    &&& forall|i: int| 0 <= i < s.len() ==> is_digit(#[trigger] s[i])
    &&& (s[0] != DIGIT_ZERO || s.len() == 1)
}

/// Whether `s` writes one octet of a host: a plain decimal at most 255.
pub open spec fn valid_octet(s: Seq<u8>) -> bool {
    is_plain_decimal(s) && digits_value(s) <= 255
}

/// Whether `s` writes a port: a plain decimal at most 65535.
pub open spec fn valid_port(s: Seq<u8>) -> bool {
    is_plain_decimal(s) && digits_value(s) <= 65535
}

/// The address denoted by the byte string `s`, or `None` where `s` is not of
/// the exact form `a.b.c.d:p` with valid octets and port. The four dots and
/// the colon are located as the bytes that end the five maximal digit runs,
/// so the parse is deterministic.
pub open spec fn spec_parse_addr(s: Seq<u8>) -> Option<Addr> {
    let e0 = run_end(s, 0);
    if !(e0 < s.len() && s[e0 as int] == DOT) {
        None
    } else {
        let e1 = run_end(s, e0 + 1);
        if !(e1 < s.len() && s[e1 as int] == DOT) {
            None
        } else {
            let e2 = run_end(s, e1 + 1);
            if !(e2 < s.len() && s[e2 as int] == DOT) {
                None
            } else {
                let e3 = run_end(s, e2 + 1);
                if !(e3 < s.len() && s[e3 as int] == COLON) {
                    None
                } else {
                    let e4 = run_end(s, e3 + 1);
                    if e4 != s.len() {
                        None
                    } else {
                        let s0 = s.subrange(0, e0 as int);
                        let s1 = s.subrange(e0 as int + 1, e1 as int);
                        let s2 = s.subrange(e1 as int + 1, e2 as int);
                        let s3 = s.subrange(e2 as int + 1, e3 as int);
                        let s4 = s.subrange(e3 as int + 1, e4 as int);
                        if valid_octet(s0) && valid_octet(s1) && valid_octet(s2)
                            && valid_octet(s3) && valid_port(s4) {
                            Some(Addr {
                                o0: digits_value(s0) as u8,
                                o1: digits_value(s1) as u8,
                                o2: digits_value(s2) as u8,
                                o3: digits_value(s3) as u8,
                                port: digits_value(s4) as u16,
                            })
                        } else {
                            None
                        }
                    }
                }
            }
        }
    }
}

/// The canonical decimal numeral of `n`: its digits in base ten, most
/// significant first, with no leading zero.
pub open spec fn spec_decimal(n: nat) -> Seq<u8>
    decreases n,
{
    if n < 10 {
        seq![(DIGIT_ZERO as nat + n) as u8]
    } else {
        spec_decimal(n / 10).push((DIGIT_ZERO as nat + n % 10) as u8)
    }
}

/// The canonical text of an address: the four octets dotted, then a colon
/// and the port, every number in plain decimal.
pub open spec fn spec_render_addr(a: Addr) -> Seq<u8> {
    spec_decimal(a.o0 as nat) + seq![DOT] + spec_decimal(a.o1 as nat) + seq![DOT]
        + spec_decimal(a.o2 as nat) + seq![DOT] + spec_decimal(a.o3 as nat) + seq![COLON]
        + spec_decimal(a.port as nat)
}

/// A canonical numeral is a plain decimal: nonempty, nothing but digits,
/// and no leading zero.
proof fn lemma_spec_decimal_plain(n: nat)
    ensures
        spec_decimal(n).len() >= 1,
        forall|t: int|
            0 <= t < spec_decimal(n).len() ==> is_digit(#[trigger] spec_decimal(n)[t]),
        n >= 1 ==> spec_decimal(n)[0] != DIGIT_ZERO,
        is_plain_decimal(spec_decimal(n)),
    decreases n,
{
    if n >= 10 {
        lemma_spec_decimal_plain(n / 10);
    }
}

/// A canonical numeral denotes the number it was rendered from.
proof fn lemma_spec_decimal_value(n: nat)
    ensures
        digits_value(spec_decimal(n)) == n,
    decreases n,
{
    let s = spec_decimal(n);
    if n < 10 {
        assert(s.drop_last() =~= Seq::<u8>::empty());
        assert(digits_value(s) == digits_value(Seq::<u8>::empty()) * 10 + digit_val(s.last()));
    } else {
        lemma_spec_decimal_value(n / 10);
        assert(s.drop_last() =~= spec_decimal(n / 10));
        assert(s.last() == (DIGIT_ZERO as nat + n % 10) as u8);
        assert(digits_value(s) == (n / 10) * 10 + digit_val(s.last()));
        vstd::arithmetic::div_mod::lemma_fundamental_div_mod(n as int, 10);
    }
}

/// A maximal digit run ends exactly where the digits end: at the first
/// non-digit that follows, or at the end of the sequence.
proof fn lemma_run_end_at(s: Seq<u8>, i: nat, j: nat)
    requires
        i <= j <= s.len(),
        forall|t: int| i <= t < j ==> is_digit(#[trigger] s[t]),
        j == s.len() || !is_digit(s[j as int]),
    ensures
        run_end(s, i) == j,
    decreases j - i,
{
    if i < j {
        lemma_run_end_at(s, i + 1, j);
    }
}

/// Parsing is complete as well as sound on canonical text: the canonical
/// rendering of any address parses back to exactly that address. Together
/// with the definition of `spec_parse_addr` this pins the accepted
/// language down from both sides.
pub proof fn lemma_parse_render_round_trip(a: Addr)
    ensures
        spec_parse_addr(spec_render_addr(a)) == Some(a),
{
    let d0 = spec_decimal(a.o0 as nat);
    let d1 = spec_decimal(a.o1 as nat);
    let d2 = spec_decimal(a.o2 as nat);
    let d3 = spec_decimal(a.o3 as nat);
    let d4 = spec_decimal(a.port as nat);
    lemma_spec_decimal_plain(a.o0 as nat);
    lemma_spec_decimal_plain(a.o1 as nat);
    lemma_spec_decimal_plain(a.o2 as nat);
    lemma_spec_decimal_plain(a.o3 as nat);
    lemma_spec_decimal_plain(a.port as nat);
    lemma_spec_decimal_value(a.o0 as nat);
    lemma_spec_decimal_value(a.o1 as nat);
    lemma_spec_decimal_value(a.o2 as nat);
    lemma_spec_decimal_value(a.o3 as nat);
    lemma_spec_decimal_value(a.port as nat);
    let s = spec_render_addr(a);
    let e0 = d0.len() as int;
    let e1 = e0 + 1 + d1.len();
    let e2 = e1 + 1 + d2.len();
    let e3 = e2 + 1 + d3.len();
    let e4 = e3 + 1 + d4.len();
    assert(s.len() == e4);
    assert(s[e0] == DOT);
    assert(s[e1] == DOT);
    assert(s[e2] == DOT);
    assert(s[e3] == COLON);
    assert(forall|t: int| 0 <= t < e0 ==> is_digit(#[trigger] s[t]));
    assert(forall|t: int| e0 + 1 <= t < e1 ==> is_digit(#[trigger] s[t]));
    assert(forall|t: int| e1 + 1 <= t < e2 ==> is_digit(#[trigger] s[t]));
    assert(forall|t: int| e2 + 1 <= t < e3 ==> is_digit(#[trigger] s[t]));
    assert(forall|t: int| e3 + 1 <= t < e4 ==> is_digit(#[trigger] s[t]));
    lemma_run_end_at(s, 0, e0 as nat);
    lemma_run_end_at(s, (e0 + 1) as nat, e1 as nat);
    lemma_run_end_at(s, (e1 + 1) as nat, e2 as nat);
    lemma_run_end_at(s, (e2 + 1) as nat, e3 as nat);
    lemma_run_end_at(s, (e3 + 1) as nat, e4 as nat);
    assert(s.subrange(0, e0) =~= d0);
    assert(s.subrange(e0 + 1, e1) =~= d1);
    assert(s.subrange(e1 + 1, e2) =~= d2);
    assert(s.subrange(e2 + 1, e3) =~= d3);
    assert(s.subrange(e3 + 1, e4) =~= d4);
}

/// The value of an all-digit sequence never shrinks when more digits follow:
/// the value of a prefix bounds the value of the whole from below.
proof fn lemma_digits_value_prefix_le(s: Seq<u8>, j: int)
    requires
        0 <= j <= s.len(),
    ensures
        digits_value(s.take(j)) <= digits_value(s),
    decreases s.len(),
{
    if j == s.len() {
        assert(s.take(j) =~= s);
    } else {
        assert(s.len() >= 1);
        assert(s.drop_last().take(j) =~= s.take(j));
        lemma_digits_value_prefix_le(s.drop_last(), j);
    }
}

/// Scans the maximal digit run of `b` that starts at `i`. Returns its end,
/// and the run's value when the run is a plain decimal no greater than
/// `max`; `None` otherwise.
fn scan_decimal(b: &[u8], i: usize, max: u32) -> (r: (usize, Option<u32>))
    requires
        i <= b@.len(),
        max <= 65535,
    ensures
        r.0 == run_end(b@, i as nat),
        i <= r.0 <= b@.len(),
        (match r.1 {
            Some(v) => is_plain_decimal(b@.subrange(i as int, r.0 as int))
                && digits_value(b@.subrange(i as int, r.0 as int)) == v
                && v <= max,
            None => !(is_plain_decimal(b@.subrange(i as int, r.0 as int))
                && digits_value(b@.subrange(i as int, r.0 as int)) <= max),
        }),
{
    let mut j = i;
    while j < b.len() && DIGIT_ZERO <= b[j] && b[j] <= DIGIT_NINE
        invariant
            i <= j <= b@.len(),
            run_end(b@, i as nat) == run_end(b@, j as nat),
            forall|k: int| i <= k < j ==> is_digit(#[trigger] b@[k]),
        decreases b@.len() - j,
    {
        assert(run_end(b@, j as nat) == run_end(b@, (j + 1) as nat));
        j = j + 1;
    }
    assert(run_end(b@, j as nat) == j);
    let ghost seg = b@.subrange(i as int, j as int);
    if j == i {
        return (j, None);
    }
    if b[i] == DIGIT_ZERO && j - i > 1 {
        assert(seg[0] == DIGIT_ZERO && seg.len() > 1);
        return (j, None);
    }
    let mut v: u32 = 0;
    let mut k = i;
    while k < j
        invariant
            i <= k <= j <= b@.len(),
            j == run_end(b@, i as nat),
            forall|t: int| i <= t < j ==> is_digit(#[trigger] b@[t]),
            v == digits_value(b@.subrange(i as int, k as int)),
            v <= max,
            max <= 65535,
            seg == b@.subrange(i as int, j as int),
        decreases j - k,
    {
        let d = b[k] - DIGIT_ZERO;
        assert(b@.subrange(i as int, k + 1).drop_last() =~= b@.subrange(i as int, k as int));
        assert(b@.subrange(i as int, k + 1).last() == b@[k as int]);
        v = v * 10 + (d as u32);
        k = k + 1;
        if v > max {
            proof {
                assert(b@.subrange(i as int, j as int).take(k - i) =~= b@.subrange(
                    i as int,
                    k as int,
                ));
                lemma_digits_value_prefix_le(b@.subrange(i as int, j as int), k - i);
            }
            return (j, None);
        }
    }
    assert(seg =~= b@.subrange(i as int, j as int));
    (j, Some(v))
}

/// Parses a textual socket address of the form `a.b.c.d:p`.
///
/// Returns exactly what `spec_parse_addr` denotes on the bytes of `s`: the
/// address when `s` is well formed, and `None` on any malformed input —
/// a missing or extra separator, an empty or oversized number, a leading
/// zero, a sign, whitespace, or trailing text.
pub fn parse_addr(s: &str) -> (r: Option<Addr>)
    ensures
        r == spec_parse_addr(s.spec_bytes()),
{
    let b = s.as_bytes();
    let n = b.len();
    let (e0, v0) = scan_decimal(b, 0, 255);
    if !(e0 < n && b[e0] == DOT) {
        return None;
    }
    let (e1, v1) = scan_decimal(b, e0 + 1, 255);
    if !(e1 < n && b[e1] == DOT) {
        return None;
    }
    let (e2, v2) = scan_decimal(b, e1 + 1, 255);
    if !(e2 < n && b[e2] == DOT) {
        return None;
    }
    let (e3, v3) = scan_decimal(b, e2 + 1, 255);
    if !(e3 < n && b[e3] == COLON) {
        return None;
    }
    let (e4, v4) = scan_decimal(b, e3 + 1, 65535);
    if e4 != n {
        return None;
    }
    match (v0, v1, v2, v3, v4) {
        (Some(a0), Some(a1), Some(a2), Some(a3), Some(p)) => Some(Addr {
            o0: a0 as u8,
            o1: a1 as u8,
            o2: a2 as u8,
            o3: a3 as u8,
            port: p as u16,
        }),
        _ => None,
    }
}

} // verus!
