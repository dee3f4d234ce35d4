//! Parsers for the kernel's accounting text: per-process I/O counters,
//! cgroup cpu and I/O statistics, memory events, and the mount table.
//!
//! Fields are taken around single space bytes, as the kernel writes them.

use crate::capture::IoStats;
use crate::textutil::{
    all_dec_digits, ascii_bytes, bytes_eq, dec_value, find_byte, first_occ, is_prefix_of,
    lemma_first_occ, lit_bytes, parse_u64_dec, spec_lines, spec_split, split_bytes, split_lines,
    starts_with, spec_trim, trim_bytes,
};
use vstd::prelude::*;

verus! {

/// The value of an all-digit byte string, or zero when it is not one or does
/// not fit in a `u64`.
pub open spec fn u64_of_or_zero(s: Seq<u8>) -> u64 {
    if all_dec_digits(s) && dec_value(s) <= u64::MAX {
        dec_value(s) as u64
    } else {
        0u64
    }
}

/// Parses an all-digit byte string, reading anything else as zero.
fn parse_u64_or_zero(s: &[u8]) -> (r: u64)
    ensures
        r == u64_of_or_zero(s@),
{
    match parse_u64_dec(s) {
        Some(v) => v,
        None => 0,
    }
}

/// The value after `key` on the first line that starts with `key`, or zero
/// when no line does.
pub open spec fn first_prefix_value(lines: Seq<Seq<u8>>, key: Seq<u8>) -> u64
    decreases lines.len(),
{
    if lines.len() == 0 {
        0u64
    } else if is_prefix_of(key, lines[0]) {
        u64_of_or_zero(lines[0].subrange(key.len() as int, lines[0].len() as int))
    } else {
        first_prefix_value(lines.drop_first(), key)
    }
}

/// Scans for the first line starting with `key` and parses what follows.
fn lookup_prefix_value(lines: &Vec<Vec<u8>>, key: &[u8]) -> (r: u64)
    ensures
        r == first_prefix_value(lines@.map_values(|v: Vec<u8>| v@), key@),
{
    let ghost lv = lines@.map_values(|v: Vec<u8>| v@);
    proof {
        assert(lv.subrange(0, lv.len() as int) =~= lv);
    }
    let mut i: usize = 0;
    while i < lines.len()
        invariant
            i <= lines@.len(),
            lv == lines@.map_values(|v: Vec<u8>| v@),
            first_prefix_value(lv, key@) == first_prefix_value(
                lv.subrange(i as int, lv.len() as int),
                key@,
            ),
        decreases lines@.len() - i,
    {
        let ghost rest = lv.subrange(i as int, lv.len() as int);
        assert(rest[0] == lv[i as int]);
        if starts_with(lines[i].as_slice(), key) {
            let line = lines[i].as_slice();
            let tail = &line[key.len()..line.len()];
            assert(tail@ =~= lv[i as int].subrange(key@.len() as int, lv[i as int].len() as int));
            return parse_u64_or_zero(tail);
        }
        proof {
            assert(rest.drop_first() =~= lv.subrange(i + 1, lv.len() as int));
        }
        i = i + 1;
    }
    proof {
        assert(lv.subrange(lv.len() as int, lv.len() as int) =~= Seq::<Seq<u8>>::empty());
    }
    0
}

/// The second field of the first line whose first field is `key`, parsed, or
/// zero when no line matches.
pub open spec fn first_field_value(lines: Seq<Seq<u8>>, key: Seq<u8>) -> u64
    decreases lines.len(),
{
    if lines.len() == 0 {
        0u64
    } else {
        let parts = spec_split(lines[0], 32);
        if parts.len() >= 2 && parts[0] == key {
            u64_of_or_zero(parts[1])
        } else {
            first_field_value(lines.drop_first(), key)
        }
    }
}

/// Scans for the first line whose first space-separated field is `key` and
/// parses the second field.
fn lookup_field_value(lines: &Vec<Vec<u8>>, key: &[u8]) -> (r: u64)
    ensures
        r == first_field_value(lines@.map_values(|v: Vec<u8>| v@), key@),
{
    let ghost lv = lines@.map_values(|v: Vec<u8>| v@);
    proof {
        assert(lv.subrange(0, lv.len() as int) =~= lv);
    }
    let mut i: usize = 0;
    while i < lines.len()
        invariant
            i <= lines@.len(),
            lv == lines@.map_values(|v: Vec<u8>| v@),
            first_field_value(lv, key@) == first_field_value(
                lv.subrange(i as int, lv.len() as int),
                key@,
            ),
        decreases lines@.len() - i,
    {
        let ghost rest = lv.subrange(i as int, lv.len() as int);
        assert(rest[0] == lv[i as int]);
        let parts = split_bytes(lines[i].as_slice(), 32);
        let ghost pv = spec_split(lv[i as int], 32);
        if parts.len() >= 2 && bytes_eq(parts[0].as_slice(), key) {
            assert(parts@[0]@ == pv[0]);
            assert(parts@[1]@ == pv[1]);
            return parse_u64_or_zero(parts[1].as_slice());
        }
        proof {
            if pv.len() >= 2 {
                assert(parts@[0]@ == pv[0]);
            }
            assert(rest.drop_first() =~= lv.subrange(i + 1, lv.len() as int));
        }
        i = i + 1;
    }
    proof {
        assert(lv.subrange(lv.len() as int, lv.len() as int) =~= Seq::<Seq<u8>>::empty());
    }
    0
}

/// What one process's I/O accounting text says, counter by counter.
pub open spec fn spec_proc_io(content: Seq<u8>) -> IoStats {
    IoStats {
        read_bytes: first_prefix_value(spec_lines(content), ascii_bytes("read_bytes: "@)),
        write_bytes: first_prefix_value(spec_lines(content), ascii_bytes("write_bytes: "@)),
        read_calls: first_prefix_value(spec_lines(content), ascii_bytes("syscr: "@)),
        write_calls: first_prefix_value(spec_lines(content), ascii_bytes("syscw: "@)),
    }
}

/// Reads the four counters out of a process's I/O accounting text.
pub fn parse_proc_io(content: &[u8]) -> (r: IoStats)
    ensures
        r == spec_proc_io(content@),
{
    proof {
        reveal_strlit("read_bytes: ");
        reveal_strlit("write_bytes: ");
        reveal_strlit("syscr: ");
        reveal_strlit("syscw: ");
    }
    let lines = split_lines(content);
    IoStats {
        read_bytes: lookup_prefix_value(&lines, lit_bytes("read_bytes: ")),
        write_bytes: lookup_prefix_value(&lines, lit_bytes("write_bytes: ")),
        read_calls: lookup_prefix_value(&lines, lit_bytes("syscr: ")),
        write_calls: lookup_prefix_value(&lines, lit_bytes("syscw: ")),
    }
}

/// What a cgroup's cpu statistics text says: total, user, and system
/// microseconds.
pub open spec fn spec_cpu_stat(content: Seq<u8>) -> (u64, u64, u64) {
    (
        first_field_value(spec_lines(content), ascii_bytes("usage_usec"@)),
        first_field_value(spec_lines(content), ascii_bytes("user_usec"@)),
        first_field_value(spec_lines(content), ascii_bytes("system_usec"@)),
    )
}

/// Reads total, user, and system cpu time out of a cgroup's cpu statistics.
pub fn parse_cpu_stat(content: &[u8]) -> (r: (u64, u64, u64))
    ensures
        r == spec_cpu_stat(content@),
{
    proof {
        reveal_strlit("usage_usec");
        reveal_strlit("user_usec");
        reveal_strlit("system_usec");
    }
    let lines = split_lines(content);
    (
        lookup_field_value(&lines, lit_bytes("usage_usec")),
        lookup_field_value(&lines, lit_bytes("user_usec")),
        lookup_field_value(&lines, lit_bytes("system_usec")),
    )
}

/// True when the memory-events text records at least one out-of-memory kill.
pub open spec fn spec_oom_killed(content: Seq<u8>) -> bool {
    first_field_value(spec_lines(content), ascii_bytes("oom_kill"@)) > 0
}

/// Decides from the memory-events text whether the kernel killed for memory.
pub fn parse_oom_killed(content: &[u8]) -> (r: bool)
    ensures
        r == spec_oom_killed(content@),
{
    proof {
        reveal_strlit("oom_kill");
    }
    let lines = split_lines(content);
    let count = lookup_field_value(&lines, lit_bytes("oom_kill"));
    count > 0
}

/// What a single-value cgroup file holds: its trimmed text as a number, if
/// it is one.
pub open spec fn spec_cgroup_u64(content: Seq<u8>) -> Option<u64> {
    let t = spec_trim(content);
    if all_dec_digits(t) && dec_value(t) <= u64::MAX {
        Some(dec_value(t) as u64)
    } else {
        None
    }
}

/// Parses a single-value cgroup file such as the current memory use.
pub fn parse_cgroup_u64(content: &[u8]) -> (r: Option<u64>)
    ensures
        r == spec_cgroup_u64(content@),
{
    let t = trim_bytes(content);
    parse_u64_dec(t.as_slice())
}

/// The mount point of the first cgroup-v2 entry in the mount table: the
/// second field of the first line whose third field reads `cgroup2`.
pub open spec fn spec_cgroup2_mount(content: Seq<u8>) -> Option<Seq<u8>>
    decreases content.len(),
{
    spec_cgroup2_mount_lines(spec_lines(content))
}

pub open spec fn spec_cgroup2_mount_lines(lines: Seq<Seq<u8>>) -> Option<Seq<u8>>
    decreases lines.len(),
{
    if lines.len() == 0 {
        None
    } else {
        let parts = spec_split(lines[0], 32);
        if parts.len() >= 3 && parts[2] == ascii_bytes("cgroup2"@) {
            Some(parts[1])
        } else {
            spec_cgroup2_mount_lines(lines.drop_first())
        }
    }
}

/// Finds the cgroup-v2 mount point in the mount table text.
pub fn find_cgroup2_mount(content: &[u8]) -> (r: Option<Vec<u8>>)
    ensures
        match r {
            Some(p) => spec_cgroup2_mount(content@) == Some(p@),
            None => spec_cgroup2_mount(content@) is None,
        },
{
    proof {
        reveal_strlit("cgroup2");
    }
    let tag = lit_bytes("cgroup2");
    let lines = split_lines(content);
    let ghost lv = lines@.map_values(|v: Vec<u8>| v@);
    proof {
        assert(lv.subrange(0, lv.len() as int) =~= lv);
    }
    let mut i: usize = 0;
    while i < lines.len()
        invariant
            i <= lines@.len(),
            tag@ == ascii_bytes("cgroup2"@),
            lv == lines@.map_values(|v: Vec<u8>| v@),
            lv == spec_lines(content@),
            spec_cgroup2_mount_lines(lv) == spec_cgroup2_mount_lines(
                lv.subrange(i as int, lv.len() as int),
            ),
        decreases lines@.len() - i,
    {
        let ghost rest = lv.subrange(i as int, lv.len() as int);
        assert(rest[0] == lv[i as int]);
        let parts = split_bytes(lines[i].as_slice(), 32);
        let ghost pv = spec_split(lv[i as int], 32);
        if parts.len() >= 3 && bytes_eq(parts[2].as_slice(), tag) {
            assert(parts@[2]@ == pv[2]);
            assert(parts@[1]@ == pv[1]);
            let mut parts = parts;
            let mount = parts.swap_remove(1);
            assert(mount@ == pv[1]);
            return Some(mount);
        }
        proof {
            if pv.len() >= 3 {
                assert(parts@[2]@ == pv[2]);
            }
            assert(rest.drop_first() =~= lv.subrange(i + 1, lv.len() as int));
        }
        i = i + 1;
    }
    proof {
        assert(lv.subrange(lv.len() as int, lv.len() as int) =~= Seq::<Seq<u8>>::empty());
    }
    None
}


/// Addition clamped at the largest `u64`.
pub open spec fn sat_add(a: u64, b: u64) -> u64 {
    if a + b > u64::MAX {
        u64::MAX
    } else {
        (a + b) as u64
    }
}

/// Addition clamped at the largest `u64`.
fn saturating_add_u64(a: u64, b: u64) -> (r: u64)
    ensures
        r == sat_add(a, b),
{
    match a.checked_add(b) {
        Some(v) => v,
        None => u64::MAX,
    }
}

/// The number in one `key=value` field whose key is `tag`; zero otherwise.
pub open spec fn tagged_value(part: Seq<u8>, tag: Seq<u8>) -> u64 {
    let k = first_occ(part, 61);
    if k < part.len() && part.subrange(0, k) == tag {
        u64_of_or_zero(part.subrange(k + 1, part.len() as int))
    } else {
        0u64
    }
}

/// Clamped sum of the tagged values over a run of fields.
pub open spec fn fields_tag_fold(parts: Seq<Seq<u8>>, tag: Seq<u8>, acc: u64) -> u64
    decreases parts.len(),
{
    if parts.len() == 0 {
        acc
    } else {
        fields_tag_fold(parts.drop_first(), tag, sat_add(acc, tagged_value(parts[0], tag)))
    }
}

/// Clamped sum of the tagged values over every device line: each line's
/// fields after the first are searched for `tag=value` entries.
pub open spec fn iostat_fold(lines: Seq<Seq<u8>>, tag: Seq<u8>, acc: u64) -> u64
    decreases lines.len(),
{
    if lines.len() == 0 {
        acc
    } else {
        let parts = spec_split(lines[0], 32);
        let acc2 = if parts.len() >= 2 {
            fields_tag_fold(parts.subrange(1, parts.len() as int), tag, acc)
        } else {
            acc
        };
        iostat_fold(lines.drop_first(), tag, acc2)
    }
}

/// What a cgroup's I/O statistics text says: bytes read and bytes written,
/// summed over all devices, clamped at the largest `u64`.
pub open spec fn spec_io_stat(content: Seq<u8>) -> (u64, u64) {
    (
        iostat_fold(spec_lines(content), ascii_bytes("rbytes"@), 0u64),
        iostat_fold(spec_lines(content), ascii_bytes("wbytes"@), 0u64),
    )
}

/// The number in one `key=value` field when its key is `tag`, else zero.
fn field_tagged_value(part: &[u8], tag: &[u8]) -> (r: u64)
    ensures
        r == tagged_value(part@, tag@),
{
    proof {
        lemma_first_occ(part@, 61);
    }
    match find_byte(part, 61u8) {
        Some(pos) => {
            proof {
                if first_occ(part@, 61) < pos as int {
                    assert(part@[first_occ(part@, 61)] == 61);
                    assert(false);
                }
                if (pos as int) < first_occ(part@, 61) {
                    assert(false);
                }
            }
            let n = part.len();
            assert(pos < n);
            let key = &part[0..pos];
            if bytes_eq(key, tag) {
                let value = &part[pos + 1..n];
                parse_u64_or_zero(value)
            } else {
                0
            }
        },
        None => {
            proof {
                if first_occ(part@, 61) < part@.len() {
                    assert(part@[first_occ(part@, 61)] == 61);
                }
            }
            0
        },
    }
}

/// Sums the tagged values of the fields after the first on every line.
pub fn parse_io_stat(content: &[u8]) -> (r: (u64, u64))
    ensures
        r == spec_io_stat(content@),
{
    proof {
        reveal_strlit("rbytes");
        reveal_strlit("wbytes");
    }
    let rtag = lit_bytes("rbytes");
    let wtag = lit_bytes("wbytes");
    let lines = split_lines(content);
    let ghost lv = lines@.map_values(|v: Vec<u8>| v@);
    proof {
        assert(lv.subrange(0, lv.len() as int) =~= lv);
    }
    let mut racc: u64 = 0;
    let mut wacc: u64 = 0;
    let mut i: usize = 0;
    while i < lines.len()
        invariant
            i <= lines@.len(),
            rtag@ == ascii_bytes("rbytes"@),
            wtag@ == ascii_bytes("wbytes"@),
            lv == lines@.map_values(|v: Vec<u8>| v@),
            lv == spec_lines(content@),
            iostat_fold(lv, rtag@, 0u64) == iostat_fold(
                lv.subrange(i as int, lv.len() as int),
                rtag@,
                racc,
            ),
            iostat_fold(lv, wtag@, 0u64) == iostat_fold(
                lv.subrange(i as int, lv.len() as int),
                wtag@,
                wacc,
            ),
        decreases lines@.len() - i,
    {
        let ghost rest = lv.subrange(i as int, lv.len() as int);
        assert(rest[0] == lv[i as int]);
        let parts = split_bytes(lines[i].as_slice(), 32);
        let ghost pv = spec_split(lv[i as int], 32);
        let ghost racc0 = racc;
        let ghost wacc0 = wacc;
        if parts.len() >= 2 {
            proof {
                assert(pv.subrange(1, pv.len() as int) =~= pv.subrange(1, pv.len() as int));
            }
            let mut j: usize = 1;
            while j < parts.len()
                invariant
                    1 <= j <= parts@.len(),
                    2 <= parts@.len(),
                    rtag@ == ascii_bytes("rbytes"@),
                    wtag@ == ascii_bytes("wbytes"@),
                    pv == parts@.map_values(|v: Vec<u8>| v@),
                    fields_tag_fold(pv.subrange(1, pv.len() as int), rtag@, racc0) ==
                        fields_tag_fold(pv.subrange(j as int, pv.len() as int), rtag@, racc),
                    fields_tag_fold(pv.subrange(1, pv.len() as int), wtag@, wacc0) ==
                        fields_tag_fold(pv.subrange(j as int, pv.len() as int), wtag@, wacc),
                decreases parts@.len() - j,
            {
                let ghost sub = pv.subrange(j as int, pv.len() as int);
                proof {
                    assert(sub[0] == pv[j as int]);
                    assert(sub.drop_first() =~= pv.subrange(j + 1, pv.len() as int));
                }
                let dr = field_tagged_value(parts[j].as_slice(), rtag);
                let dw = field_tagged_value(parts[j].as_slice(), wtag);
                racc = saturating_add_u64(racc, dr);
                wacc = saturating_add_u64(wacc, dw);
                j = j + 1;
            }
            proof {
                assert(pv.subrange(pv.len() as int, pv.len() as int) =~= Seq::<Seq<u8>>::empty());
            }
        }
        proof {
            assert(rest.drop_first() =~= lv.subrange(i + 1, lv.len() as int));
        }
        i = i + 1;
    }
    proof {
        assert(lv.subrange(lv.len() as int, lv.len() as int) =~= Seq::<Seq<u8>>::empty());
    }
    (racc, wacc)
}

} // verus!

