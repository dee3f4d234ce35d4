//! Parsers for command-line values: sizes with unit suffixes and bind-mount
//! specifications.

use crate::error::{CapsuleError, CapsuleResult};
use crate::schema::BindMount;
use crate::textutil::{all_dec_digits, dec_value, parse_u64_dec, spec_trim, trim_bytes};
use vstd::prelude::*;
use vstd::string::StrSliceExecFns;
use vstd::string::StringSliceAdditionalSpecFns;

verus! {

/// The value of a digit string scaled by a unit, when it is a digit string
/// and the product fits.
pub open spec fn scaled_size(body: Seq<u8>, unit: nat) -> Option<u64> {
    if all_dec_digits(body) && dec_value(body) * unit <= u64::MAX {
        Some((dec_value(body) * unit) as u64)
    } else {
        None
    }
}

/// What a size string means: after trimming, a digit string with an optional
/// binary unit suffix, in either letter case.
pub open spec fn spec_parse_size(s: Seq<u8>) -> Option<u64> {
    let t = spec_trim(s);
    if t.len() == 0 {
        None
    } else if t.last() == 75 || t.last() == 107 {
        scaled_size(t.drop_last(), 1024)
    } else if t.last() == 77 || t.last() == 109 {
        scaled_size(t.drop_last(), 1048576)
    } else if t.last() == 71 || t.last() == 103 {
        scaled_size(t.drop_last(), 1073741824)
    } else {
        scaled_size(t, 1)
    }
}

/// Parses a size such as a plain byte count or a count with a binary unit
/// suffix; exactly the strings `spec_parse_size` accepts, with a
/// configuration error for the rest.
pub fn parse_size(size_str: &str) -> (r: CapsuleResult<u64>)
    ensures
        match r {
            Ok(v) => spec_parse_size(size_str.spec_bytes()) == Some(v),
            Err(e) => spec_parse_size(size_str.spec_bytes()) is None && e is Config,
        },
{
    let b = size_str.as_bytes();
    let t = trim_bytes(b);
    if t.len() == 0 {
        return Err(invalid_size(size_str));
    }
    let last = t[t.len() - 1];
    let (body, unit): (&[u8], u64) = if last == 75 || last == 107 {
        (&t.as_slice()[0..t.len() - 1], 1024u64)
    } else if last == 77 || last == 109 {
        (&t.as_slice()[0..t.len() - 1], 1048576u64)
    } else if last == 71 || last == 103 {
        (&t.as_slice()[0..t.len() - 1], 1073741824u64)
    } else {
        (t.as_slice(), 1u64)
    };
    proof {
        if unit != 1 {
            assert(body@ =~= t@.drop_last());
        } else {
            assert(body@ =~= t@);
        }
    }
    match parse_u64_dec(body) {
        Some(n) => match n.checked_mul(unit) {
            Some(v) => {
                proof {
                    assert(n as nat * unit as nat == dec_value(body@) * unit as nat);
                }
                Ok(v)
            },
            None => {
                proof {
                    assert(n as nat * unit as nat > u64::MAX);
                }
                Err(invalid_size(size_str))
            },
        },
        None => Err(invalid_size(size_str)),
    }
}

/// The configuration error for a malformed size.
fn invalid_size(size_str: &str) -> (r: CapsuleError)
    ensures
        r is Config,
{
    let m = String::from_str("Invalid size format: ").concat(size_str);
    CapsuleError::Config(m)
}

/// The index of the first occurrence of `c` in `s`, or `s.len()` when none.
pub open spec fn first_char_occ(s: Seq<char>, c: char) -> int
    decreases s.len(),
{
    if s.len() == 0 {
        0
    } else if s[0] == c {
        0
    } else {
        1 + first_char_occ(s.subrange(1, s.len() as int), c)
    }
}

/// `first_char_occ` is in range, points at `c` when present, and nothing
/// before it is `c`.
pub proof fn lemma_first_char_occ(s: Seq<char>, c: char)
    ensures
        0 <= first_char_occ(s, c) <= s.len(),
        first_char_occ(s, c) < s.len() ==> s[first_char_occ(s, c)] == c,
        forall|j: int| 0 <= j < first_char_occ(s, c) ==> s[j] != c,
    decreases s.len(),
{
    if s.len() > 0 && s[0] != c {
        lemma_first_char_occ(s.subrange(1, s.len() as int), c);
        assert forall|j: int| 0 <= j < first_char_occ(s, c) implies s[j] != c by {
            if j > 0 {
                assert(s.subrange(1, s.len() as int)[j - 1] == s[j]);
            }
        }
        if first_char_occ(s, c) < s.len() {
            assert(s.subrange(1, s.len() as int)[first_char_occ(s, c) - 1] == s[first_char_occ(
                s,
                c,
            )]);
        }
    }
}

/// What a bind-mount specification means: source and destination around the
/// first colon; an optional third part must read `ro` or `rw`; anything
/// else is refused.
pub open spec fn spec_parse_bind(s: Seq<char>) -> Option<(Seq<char>, Seq<char>, bool)> {
    let i = first_char_occ(s, ':');
    if i == s.len() {
        None
    } else {
        let rest = s.subrange(i + 1, s.len() as int);
        let j = first_char_occ(rest, ':');
        if j == rest.len() {
            Some((s.subrange(0, i), rest, true))
        } else {
            let mode = rest.subrange(j + 1, rest.len() as int);
            if first_char_occ(mode, ':') != mode.len() {
                None
            } else if mode == "ro"@ {
                Some((s.subrange(0, i), rest.subrange(0, j), true))
            } else if mode == "rw"@ {
                Some((s.subrange(0, i), rest.subrange(0, j), false))
            } else {
                None
            }
        }
    }
}

/// The index of the first occurrence of `c`, by scanning.
fn find_char(s: &str, from: usize, c: char) -> (r: usize)
    requires
        from <= s@.len(),
    ensures
        from + first_char_occ(s@.subrange(from as int, s@.len() as int), c) == r,
        from <= r <= s@.len(),
{
    proof {
        lemma_first_char_occ(s@.subrange(from as int, s@.len() as int), c);
    }
    let n = s.unicode_len();
    let mut i: usize = from;
    while i < n
        invariant
            from <= i <= n,
            n == s@.len(),
            first_char_occ(s@.subrange(from as int, s@.len() as int), c) == i - from
                + first_char_occ(s@.subrange(i as int, s@.len() as int), c) || exists|j: int|
                from <= j < i && s@[j] == c,
            forall|j: int| from <= j < i ==> s@[j] != c,
        decreases n - i,
    {
        let ch = s.get_char(i);
        proof {
            let cur = s@.subrange(i as int, s@.len() as int);
            assert(cur[0] == s@[i as int]);
            assert(cur.subrange(1, cur.len() as int) =~= s@.subrange(i + 1, s@.len() as int));
        }
        if ch == c {
            proof {
                let whole = s@.subrange(from as int, s@.len() as int);
                lemma_first_char_occ(whole, c);
                let f = first_char_occ(whole, c);
                if from + f < i {
                    assert(whole[f] == c);
                    assert(s@[from + f] == c);
                    assert(false);
                }
                if from + f > i {
                    assert(whole[i - from] == s@[i as int]);
                    assert(false);
                }
            }
            return i;
        }
        i = i + 1;
    }
    proof {
        let whole = s@.subrange(from as int, s@.len() as int);
        lemma_first_char_occ(whole, c);
        let f = first_char_occ(whole, c);
        if from + f < n {
            assert(whole[f] == c);
            assert(s@[from + f] == c);
            assert(false);
        }
        assert(s@.subrange(n as int, s@.len() as int).len() == 0);
    }
    n
}

/// Parses a bind-mount specification; exactly the strings `spec_parse_bind`
/// accepts, with a configuration error for the rest.
pub fn parse_bind_mount(spec: &str) -> (r: CapsuleResult<BindMount>)
    ensures
        match r {
            Ok(b) => spec_parse_bind(spec@) == Some((b.source@, b.destination@, b.readonly)),
            Err(e) => spec_parse_bind(spec@) is None && e is Config,
        },
{
    let n = s_len(spec);
    proof {
        assert(spec@.subrange(0, spec@.len() as int) =~= spec@);
    }
    let i = find_char(spec, 0, ':');
    if i == n {
        return Err(invalid_bind(spec));
    }
    let ghost rest = spec@.subrange(i + 1, spec@.len() as int);
    let j = find_char(spec, i + 1, ':');
    proof {
        assert(rest =~= spec@.subrange(i + 1, spec@.len() as int));
    }
    if j == n {
        proof {
            assert(first_char_occ(rest, ':') == rest.len());
        }
        let source = String::from_str(spec.substring_char(0, i));
        let destination = String::from_str(spec.substring_char(i + 1, n));
        assert(destination@ =~= rest);
        return Ok(BindMount { source, destination, readonly: true });
    }
    proof {
        assert(first_char_occ(rest, ':') == j - i - 1);
        assert(rest.subrange(j - i, rest.len() as int) =~= spec@.subrange(
            j + 1,
            spec@.len() as int,
        ));
    }
    let ghost mode = rest.subrange(j - i, rest.len() as int);
    let k = find_char(spec, j + 1, ':');
    if k != n {
        proof {
            assert(first_char_occ(mode, ':') == k - j - 1);
            assert(first_char_occ(mode, ':') != mode.len());
        }
        return Err(invalid_bind(spec));
    }
    proof {
        assert(first_char_occ(mode, ':') == mode.len());
    }
    let mode_str = spec.substring_char(j + 1, n);
    assert(mode_str@ =~= mode);
    proof {
        reveal_strlit("ro");
        reveal_strlit("rw");
    }
    let readonly: bool = if eq_str(mode_str, "ro") {
        true
    } else if eq_str(mode_str, "rw") {
        false
    } else {
        return Err(invalid_bind(spec));
    };
    let source = String::from_str(spec.substring_char(0, i));
    let destination = String::from_str(spec.substring_char(i + 1, j));
    proof {
        assert(destination@ =~= rest.subrange(0, j - i - 1));
    }
    Ok(BindMount { source, destination, readonly })
}

/// String equality through owned copies.
fn eq_str(a: &str, b: &str) -> (r: bool)
    ensures
        r == (a@ == b@),
{
    let ao = String::from_str(a);
    let bo = String::from_str(b);
    ao.eq(&bo)
}

/// The character length of a string slice.
fn s_len(s: &str) -> (r: usize)
    ensures
        r == s@.len(),
{
    s.unicode_len()
}

/// The configuration error for a malformed bind-mount specification.
fn invalid_bind(spec: &str) -> (r: CapsuleError)
    ensures
        r is Config,
{
    let m = String::from_str("Invalid bind mount format '").concat(spec).concat(
        "'. Use 'source:dest' or 'source:dest:mode'.",
    );
    CapsuleError::Config(m)
}

} // verus!
