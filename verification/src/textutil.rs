//! Byte-level text helpers shared by the parsers and emitters: decimal
//! rendering and parsing, prefix and substring tests, and line splitting.

use vstd::prelude::*;
use vstd::string::StringSliceAdditionalSpecFns;

verus! {

/// The bytes of an ASCII character sequence, one byte per character.
pub open spec fn ascii_bytes(s: Seq<char>) -> Seq<u8> {
    Seq::new(s.len(), |i: int| s[i] as u8)
}

/// The byte form of an ASCII string slice.
pub fn lit_bytes<'a>(s: &'a str) -> (r: &'a [u8])
    requires
        s.is_ascii(),
    ensures
        r@ == ascii_bytes(s@),
{
    proof {
        vstd::string::is_ascii_spec_bytes(s);
    }
    s.as_bytes()
}

/// Canonical decimal rendering of a natural number, as ASCII digit bytes.
pub open spec fn dec_bytes(n: nat) -> Seq<u8>
    decreases n,
{
    if n < 10 {
        seq![(48 + n) as u8]
    } else {
        dec_bytes(n / 10) + seq![(48 + (n % 10)) as u8]
    }
}

/// Canonical decimal rendering of a signed value: a minus sign for negatives.
pub open spec fn dec_bytes_i64(n: int) -> Seq<u8> {
    if n < 0 {
        seq![45u8] + dec_bytes((-n) as nat)
    } else {
        dec_bytes(n as nat)
    }
}

/// Renders `n` in decimal, matching `dec_bytes`.
pub fn u64_to_dec_bytes(n: u64) -> (r: Vec<u8>)
    ensures
        r@ == dec_bytes(n as nat),
{
    let mut out: Vec<u8> = Vec::new();
    if n == 0 {
        out.push(48u8);
        assert(out@ =~= dec_bytes(0));
        return out;
    }
    let mut m: u64 = n;
    while m > 0
        invariant
            m > 0 ==> dec_bytes(n as nat) =~= dec_bytes(m as nat) + out@,
            m == 0 ==> dec_bytes(n as nat) =~= out@,
        decreases m,
    {
        let d: u8 = (m % 10) as u8 + 48;
        out.insert(0, d);
        proof {
            if m >= 10 {
                assert(dec_bytes(m as nat) =~= dec_bytes((m as nat) / 10) + seq![
                    (48 + ((m as nat) % 10)) as u8,
                ]);
                assert(dec_bytes(n as nat) =~= dec_bytes((m / 10) as nat) + out@);
            } else {
                assert(dec_bytes(m as nat) =~= seq![(48 + (m as nat)) as u8]);
                assert(dec_bytes(n as nat) =~= out@);
            }
        }
        m = m / 10;
    }
    out
}

/// Renders a signed value in decimal, matching `dec_bytes_i64`.
pub fn i64_to_dec_bytes(n: i64) -> (r: Vec<u8>)
    ensures
        r@ == dec_bytes_i64(n as int),
{
    if n >= 0 {
        u64_to_dec_bytes(n as u64)
    } else {
        let mag: u64 = if n == i64::MIN {
            9223372036854775808u64
        } else {
            (-n) as u64
        };
        let digits = u64_to_dec_bytes(mag);
        let mut out: Vec<u8> = Vec::new();
        out.push(45u8);
        let mut i: usize = 0;
        while i < digits.len()
            invariant
                i <= digits@.len(),
                digits@ == dec_bytes((-(n as int)) as nat),
                out@ =~= seq![45u8] + digits@.subrange(0, i as int),
            decreases digits@.len() - i,
        {
            out.push(digits[i]);
            i = i + 1;
        }
        assert(out@ =~= seq![45u8] + digits@);
        out
    }
}

/// Canonical decimal rendering as characters, for building message strings.
pub open spec fn dec_chars(n: nat) -> Seq<char> {
    dec_bytes(n).map_values(|b: u8| b as char)
}

/// Decimal rendering of a signed value as characters.
pub open spec fn dec_chars_i64(n: int) -> Seq<char> {
    dec_bytes_i64(n).map_values(|b: u8| b as char)
}

/// Relies on `u64`'s `Display` implementation: it prints the canonical
/// decimal digits of the value and nothing else.
#[verifier::external_body]
pub fn u64_to_string(n: u64) -> (r: String)
    ensures
        r@ == dec_chars(n as nat),
{
    n.to_string()
}

/// Relies on `i32`'s `Display` implementation: canonical decimal digits,
/// preceded by a minus sign for negative values.
#[verifier::external_body]
pub fn i32_to_string(n: i32) -> (r: String)
    ensures
        r@ == dec_chars_i64(n as int),
{
    n.to_string()
}

/// True when `b` is an ASCII decimal digit.
pub open spec fn is_dec_digit(b: u8) -> bool {
    48 <= b <= 57
}

/// True when every byte of `s` is an ASCII decimal digit and there is one.
pub open spec fn all_dec_digits(s: Seq<u8>) -> bool {
    s.len() > 0 && forall|i: int| 0 <= i < s.len() ==> is_dec_digit(#[trigger] s[i])
}

/// The numeric value of a digit string, most significant digit first.
pub open spec fn dec_value(s: Seq<u8>) -> nat
    decreases s.len(),
{
    if s.len() == 0 {
        0
    } else {
        dec_value(s.drop_last()) * 10 + (s.last() - 48) as nat
    }
}

/// Parses an all-digit byte string as a `u64`; `None` when empty, when a byte
/// is not a digit, or when the value exceeds `u64::MAX`.
pub fn parse_u64_dec(s: &[u8]) -> (r: Option<u64>)
    ensures
        match r {
            Some(v) => all_dec_digits(s@) && v as nat == dec_value(s@),
            None => !all_dec_digits(s@) || dec_value(s@) > u64::MAX,
        },
{
    if s.len() == 0 {
        return None;
    }
    let mut acc: u64 = 0;
    let mut i: usize = 0;
    while i < s.len()
        invariant
            i <= s@.len(),
            s@.len() > 0,
            forall|j: int| 0 <= j < i ==> is_dec_digit(#[trigger] s@[j]),
            acc as nat == dec_value(s@.subrange(0, i as int)),
        decreases s@.len() - i,
    {
        let b = s[i];
        if b < 48 || b > 57 {
            return None;
        }
        let d: u64 = (b - 48) as u64;
        let shifted = match acc.checked_mul(10) {
            Some(v) => v,
            None => {
                proof {
                    if all_dec_digits(s@) {
                        lemma_dec_value_prefix_monotonic(s@, i as int);
                    }
                }
                return None;
            },
        };
        let next = match shifted.checked_add(d) {
            Some(v) => v,
            None => {
                proof {
                    if all_dec_digits(s@) {
                        lemma_dec_value_prefix_monotonic(s@, i as int);
                    }
                }
                return None;
            },
        };
        proof {
            assert(s@.subrange(0, i + 1).drop_last() =~= s@.subrange(0, i as int));
            assert(s@.subrange(0, i + 1).last() == s@[i as int]);
        }
        acc = next;
        i = i + 1;
    }
    proof {
        assert(s@.subrange(0, s@.len() as int) =~= s@);
    }
    Some(acc)
}

/// A strict prefix of a digit string never exceeds the whole string's value:
/// each further digit multiplies the prefix value by ten.
proof fn lemma_dec_value_prefix_monotonic(s: Seq<u8>, i: int)
    requires
        0 <= i < s.len(),
        forall|j: int| 0 <= j < s.len() ==> is_dec_digit(#[trigger] s[j]),
    ensures
        dec_value(s) >= dec_value(s.subrange(0, i)) * 10 + (s[i] - 48) as nat,
    decreases s.len() - i,
{
    if i == s.len() - 1 {
        assert(s.subrange(0, i) =~= s.drop_last());
    } else {
        lemma_dec_value_prefix_monotonic(s, i + 1);
        assert(s.subrange(0, i + 1).drop_last() =~= s.subrange(0, i));
        assert(s.subrange(0, i + 1).last() == s[i]);
        assert(dec_value(s.subrange(0, i + 1)) == dec_value(s.subrange(0, i)) * 10 + (s[i]
            - 48) as nat);
        assert(dec_value(s.subrange(0, i)) * 10 + (s[i] - 48) as nat <= dec_value(
            s.subrange(0, i + 1),
        ));
        assert(dec_value(s.subrange(0, i + 1)) <= dec_value(s.subrange(0, i + 1)) * 10 + (s[i + 1]
            - 48) as nat) by (nonlinear_arith);
    }
}

/// True when `p` is a prefix of `s`.
pub open spec fn is_prefix_of(p: Seq<u8>, s: Seq<u8>) -> bool {
    p.len() <= s.len() && s.subrange(0, p.len() as int) == p
}

/// Prefix test over byte slices.
pub fn starts_with(s: &[u8], p: &[u8]) -> (r: bool)
    ensures
        r == is_prefix_of(p@, s@),
{
    if p.len() > s.len() {
        assert(!is_prefix_of(p@, s@));
        return false;
    }
    let mut i: usize = 0;
    while i < p.len()
        invariant
            i <= p@.len() <= s@.len(),
            forall|j: int| 0 <= j < i ==> s@[j] == p@[j],
        decreases p@.len() - i,
    {
        if s[i] != p[i] {
            assert(s@.subrange(0, p@.len() as int)[i as int] != p@[i as int]);
            return false;
        }
        i = i + 1;
    }
    assert(s@.subrange(0, p@.len() as int) =~= p@);
    true
}

/// True when the byte `b` occurs in `s`.
pub open spec fn contains_byte(s: Seq<u8>, b: u8) -> bool {
    exists|i: int| 0 <= i < s.len() && s[i] == b
}

/// Occurrence test for one byte.
pub fn find_byte(s: &[u8], b: u8) -> (r: Option<usize>)
    ensures
        match r {
            Some(i) => i < s@.len() && s@[i as int] == b && forall|j: int|
                0 <= j < i ==> s@[j] != b,
            None => !contains_byte(s@, b),
        },
{
    let mut i: usize = 0;
    while i < s.len()
        invariant
            i <= s@.len(),
            forall|j: int| 0 <= j < i ==> s@[j] != b,
        decreases s@.len() - i,
    {
        if s[i] == b {
            return Some(i);
        }
        i = i + 1;
    }
    None
}

/// True when `needle` occurs contiguously inside `hay`.
pub open spec fn is_substring_of(needle: Seq<u8>, hay: Seq<u8>) -> bool {
    exists|i: int|
        0 <= i <= hay.len() - needle.len() && #[trigger] hay.subrange(i, i + needle.len())
            == needle
}

/// Byte-for-byte equality of two slices.
pub fn bytes_eq(a: &[u8], b: &[u8]) -> (r: bool)
    ensures
        r == (a@ == b@),
{
    if a.len() != b.len() {
        assert(a@ != b@) by {
            assert(a@.len() != b@.len());
        }
        return false;
    }
    let mut i: usize = 0;
    while i < a.len()
        invariant
            a@.len() == b@.len(),
            i <= a@.len(),
            forall|j: int| 0 <= j < i ==> a@[j] == b@[j],
        decreases a@.len() - i,
    {
        if a[i] != b[i] {
            return false;
        }
        i = i + 1;
    }
    assert(a@ =~= b@);
    true
}

/// Substring search by direct comparison at each offset.
pub fn contains_substring(hay: &[u8], needle: &[u8]) -> (r: bool)
    ensures
        r == is_substring_of(needle@, hay@),
{
    if needle.len() > hay.len() {
        assert(!is_substring_of(needle@, hay@));
        return false;
    }
    if needle.len() == 0 {
        assert(is_substring_of(needle@, hay@)) by {
            assert(hay@.subrange(0, 0 + needle@.len() as int) =~= needle@);
        }
        return true;
    }
    let mut i: usize = 0;
    while i <= hay.len() - needle.len()
        invariant
            0 < needle@.len() <= hay@.len(),
            i <= hay@.len() - needle@.len() + 1,
            forall|k: int|
                0 <= k < i ==> #[trigger] hay@.subrange(k, k + needle@.len()) != needle@,
        decreases hay@.len() - i,
    {
        let seg = &hay[i..i + needle.len()];
        if bytes_eq(seg, needle) {
            assert(hay@.subrange(i as int, i + needle@.len()) == needle@);
            return true;
        }
        i = i + 1;
    }
    false
}

/// The index of the first occurrence of `sep` in `s`, or `s.len()` when none.
pub open spec fn first_occ(s: Seq<u8>, sep: u8) -> int
    decreases s.len(),
{
    if s.len() == 0 {
        0
    } else if s[0] == sep {
        0
    } else {
        1 + first_occ(s.subrange(1, s.len() as int), sep)
    }
}

/// `first_occ` is in range, points at the separator when one exists, and
/// nothing before it is the separator.
pub proof fn lemma_first_occ(s: Seq<u8>, sep: u8)
    ensures
        0 <= first_occ(s, sep) <= s.len(),
        first_occ(s, sep) < s.len() ==> s[first_occ(s, sep)] == sep,
        forall|j: int| 0 <= j < first_occ(s, sep) ==> s[j] != sep,
    decreases s.len(),
{
    if s.len() > 0 && s[0] != sep {
        lemma_first_occ(s.subrange(1, s.len() as int), sep);
        assert forall|j: int| 0 <= j < first_occ(s, sep) implies s[j] != sep by {
            if j > 0 {
                assert(s.subrange(1, s.len() as int)[j - 1] == s[j]);
            }
        }
        if first_occ(s, sep) < s.len() {
            assert(s.subrange(1, s.len() as int)[first_occ(s, sep) - 1] == s[first_occ(s, sep)]);
        }
    }
}

/// The fields of `s` around `sep`: the runs between separators, with no final
/// empty field after a trailing separator.
pub open spec fn spec_split(s: Seq<u8>, sep: u8) -> Seq<Seq<u8>>
    decreases s.len(),
    via spec_split_decreases
{
    if s.len() == 0 {
        seq![]
    } else if first_occ(s, sep) == s.len() {
        seq![s]
    } else {
        seq![s.subrange(0, first_occ(s, sep))] + spec_split(
            s.subrange(first_occ(s, sep) + 1, s.len() as int),
            sep,
        )
    }
}

#[via_fn]
proof fn spec_split_decreases(s: Seq<u8>, sep: u8) {
    lemma_first_occ(s, sep);
}

/// Splits on a separator byte, matching `spec_split`.
pub fn split_bytes(s: &[u8], sep: u8) -> (r: Vec<Vec<u8>>)
    ensures
        r@.map_values(|v: Vec<u8>| v@) == spec_split(s@, sep),
{
    let mut out: Vec<Vec<u8>> = Vec::new();
    let mut rest: Vec<u8> = Vec::new();
    let mut i: usize = 0;
    while i < s.len()
        invariant
            i <= s@.len(),
            rest@ =~= s@.subrange(0, i as int),
        decreases s@.len() - i,
    {
        rest.push(s[i]);
        i = i + 1;
    }
    assert(rest@ =~= s@);
    let mut remaining = rest;
    loop
        invariant
            spec_split(s@, sep) =~= out@.map_values(|v: Vec<u8>| v@) + spec_split(remaining@, sep),
        ensures
            out@.map_values(|v: Vec<u8>| v@) == spec_split(s@, sep),
        decreases remaining@.len(),
    {
        if remaining.len() == 0 {
            assert(out@.map_values(|v: Vec<u8>| v@) + spec_split(remaining@, sep)
                =~= out@.map_values(|v: Vec<u8>| v@));
            break;
        }
        let nl = find_byte(remaining.as_slice(), sep);
        match nl {
            None => {
                proof {
                    lemma_first_occ(remaining@, sep);
                    if first_occ(remaining@, sep) < remaining@.len() {
                        assert(contains_byte(remaining@, sep));
                    }
                    assert(spec_split(remaining@, sep) =~= seq![remaining@]);
                    assert((out@ + seq![remaining]).map_values(|v: Vec<u8>| v@) =~= out@.map_values(
                        |v: Vec<u8>| v@,
                    ) + seq![remaining@]);
                }
                out.push(remaining);
                assert(out@.map_values(|v: Vec<u8>| v@) + spec_split(Seq::<u8>::empty(), sep)
                    =~= out@.map_values(|v: Vec<u8>| v@));
                return out;
            },
            Some(pos) => {
                let ghost old_rem = remaining@;
                let mut line: Vec<u8> = Vec::new();
                let mut k: usize = 0;
                while k < pos
                    invariant
                        k <= pos < remaining@.len(),
                        line@ =~= remaining@.subrange(0, k as int),
                    decreases pos - k,
                {
                    line.push(remaining[k]);
                    k = k + 1;
                }
                let mut tail: Vec<u8> = Vec::new();
                let mut t: usize = pos + 1;
                while t < remaining.len()
                    invariant
                        pos + 1 <= t <= remaining@.len(),
                        tail@ =~= remaining@.subrange(pos + 1, t as int),
                    decreases remaining@.len() - t,
                {
                    tail.push(remaining[t]);
                    t = t + 1;
                }
                proof {
                    lemma_first_occ(old_rem, sep);
                    assert(old_rem[pos as int] == sep);
                    if first_occ(old_rem, sep) < pos as int {
                        assert(old_rem[first_occ(old_rem, sep)] == sep);
                        assert(false);
                    }
                    if (pos as int) < first_occ(old_rem, sep) {
                        assert(false);
                    }
                    assert(first_occ(old_rem, sep) == pos as int);
                    assert(spec_split(old_rem, sep) =~= seq![old_rem.subrange(0, pos as int)]
                        + spec_split(old_rem.subrange(pos + 1, old_rem.len() as int), sep));
                    assert(line@ =~= old_rem.subrange(0, pos as int));
                    assert(tail@ =~= old_rem.subrange(pos + 1, old_rem.len() as int));
                    assert((out@ + seq![line]).map_values(|v: Vec<u8>| v@) =~= out@.map_values(
                        |v: Vec<u8>| v@,
                    ) + seq![line@]);
                }
                out.push(line);
                remaining = tail;
            },
        }
    }
    out
}

/// The lines of a text: its fields around newline bytes.
pub open spec fn spec_lines(s: Seq<u8>) -> Seq<Seq<u8>> {
    spec_split(s, 10)
}

/// Splits on newline bytes, matching `spec_lines`.
pub fn split_lines(s: &[u8]) -> (r: Vec<Vec<u8>>)
    ensures
        r@.map_values(|v: Vec<u8>| v@) == spec_lines(s@),
{
    split_bytes(s, 10)
}


/// True for the ASCII whitespace bytes that trimming removes.
pub open spec fn is_ws_byte(b: u8) -> bool {
    b == 32 || b == 9 || b == 10 || b == 13
}

/// `s` without leading whitespace.
pub open spec fn trim_front(s: Seq<u8>) -> Seq<u8>
    decreases s.len(),
{
    if s.len() > 0 && is_ws_byte(s[0]) {
        trim_front(s.drop_first())
    } else {
        s
    }
}

/// `s` without trailing whitespace.
pub open spec fn trim_back(s: Seq<u8>) -> Seq<u8>
    decreases s.len(),
{
    if s.len() > 0 && is_ws_byte(s.last()) {
        trim_back(s.drop_last())
    } else {
        s
    }
}

/// `s` without leading or trailing whitespace.
pub open spec fn spec_trim(s: Seq<u8>) -> Seq<u8> {
    trim_back(trim_front(s))
}

/// Copies `s` without leading or trailing whitespace, matching `spec_trim`.
pub fn trim_bytes(s: &[u8]) -> (r: Vec<u8>)
    ensures
        r@ == spec_trim(s@),
{
    proof {
        assert(s@.subrange(0, s@.len() as int) =~= s@);
    }
    let mut lo: usize = 0;
    while lo < s.len() && is_ws_exec(s[lo])
        invariant
            lo <= s@.len(),
            trim_front(s@) == trim_front(s@.subrange(lo as int, s@.len() as int)),
        decreases s@.len() - lo,
    {
        proof {
            assert(s@.subrange(lo as int, s@.len() as int).drop_first() =~= s@.subrange(
                lo + 1,
                s@.len() as int,
            ));
        }
        lo = lo + 1;
    }
    proof {
        let tail = s@.subrange(lo as int, s@.len() as int);
        if tail.len() > 0 {
            assert(tail[0] == s@[lo as int]);
        }
        assert(trim_front(s@) == tail);
    }
    let mut hi: usize = s.len();
    while hi > lo && is_ws_exec(s[hi - 1])
        invariant
            lo <= hi <= s@.len(),
            trim_front(s@) == s@.subrange(lo as int, s@.len() as int),
            trim_back(s@.subrange(lo as int, s@.len() as int)) == trim_back(
                s@.subrange(lo as int, hi as int),
            ),
        decreases hi,
    {
        proof {
            let cur = s@.subrange(lo as int, hi as int);
            assert(cur.last() == s@[hi - 1]);
            assert(cur.drop_last() =~= s@.subrange(lo as int, hi - 1));
        }
        hi = hi - 1;
    }
    proof {
        let cur = s@.subrange(lo as int, hi as int);
        if cur.len() > 0 {
            assert(cur.last() == s@[hi - 1]);
        }
        assert(trim_back(cur) == cur);
        assert(spec_trim(s@) == cur);
    }
    let mut out: Vec<u8> = Vec::new();
    let mut i: usize = lo;
    while i < hi
        invariant
            lo <= i <= hi <= s@.len(),
            out@ =~= s@.subrange(lo as int, i as int),
        decreases hi - i,
    {
        out.push(s[i]);
        i = i + 1;
    }
    assert(out@ =~= s@.subrange(lo as int, hi as int));
    out
}

/// Whitespace test used by trimming.
fn is_ws_exec(b: u8) -> (r: bool)
    ensures
        r == is_ws_byte(b),
{
    b == 32 || b == 9 || b == 10 || b == 13
}

} // verus!

