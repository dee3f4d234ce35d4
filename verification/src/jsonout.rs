//! Rendering a response as its JSON document, byte for byte, and reading
//! the execution identifier back out of such a document.

use crate::clock::{clamp_stamp, iso8601_of};
use crate::schema::{
    ErrorDetail, ErrorResponse, ExecutionMetrics, ExecutionResponse, ExecutionStatus,
};
use crate::textutil::{
    ascii_bytes, dec_bytes, dec_bytes_i64, first_occ, i64_to_dec_bytes, is_prefix_of,
    lemma_first_occ, lit_bytes, starts_with, u64_to_dec_bytes, find_byte,
};
use crate::validation::string_bytes;
use vstd::prelude::*;
use vstd::string::StringSliceAdditionalSpecFns;

verus! {

/// The digit used for one hexadecimal nibble.
pub open spec fn hex_digit(n: u8) -> u8 {
    if n < 10 {
        (48 + n) as u8
    } else {
        (87 + n) as u8
    }
}

/// The JSON escape of one byte: quotes and backslashes get a backslash, the
/// named control characters their short forms, other control bytes the
/// four-digit form, and everything else stands as it is.
pub open spec fn esc_byte(b: u8) -> Seq<u8> {
    if b == 34 {
        seq![92u8, 34u8]
    } else if b == 92 {
        seq![92u8, 92u8]
    } else if b == 10 {
        seq![92u8, 110u8]
    } else if b == 13 {
        seq![92u8, 114u8]
    } else if b == 9 {
        seq![92u8, 116u8]
    } else if b < 32 {
        seq![92u8, 117u8, 48u8, 48u8, hex_digit(b / 16), hex_digit(b % 16)]
    } else {
        seq![b]
    }
}

/// The JSON escape of a byte string.
pub open spec fn esc_bytes(s: Seq<u8>) -> Seq<u8>
    decreases s.len(),
{
    if s.len() == 0 {
        Seq::empty()
    } else {
        esc_bytes(s.drop_last()) + esc_byte(s.last())
    }
}

/// A byte needing no escape: printable, no quote, no backslash.
pub open spec fn clean_byte(b: u8) -> bool {
    b >= 32 && b != 34 && b != 92
}

/// Escaping leaves a clean byte string as it is.
pub proof fn lemma_esc_clean(s: Seq<u8>)
    requires
        forall|i: int| 0 <= i < s.len() ==> clean_byte(#[trigger] s[i]),
    ensures
        esc_bytes(s) == s,
    decreases s.len(),
{
    if s.len() > 0 {
        lemma_esc_clean(s.drop_last());
        assert(esc_byte(s.last()) =~= seq![s.last()]);
        assert(esc_bytes(s) =~= s);
    } else {
        assert(esc_bytes(s) =~= s);
    }
}

/// A quoted, escaped JSON string.
pub open spec fn json_string(s: Seq<u8>) -> Seq<u8> {
    seq![34u8] + esc_bytes(s) + seq![34u8]
}

/// The wire word for each status.
pub open spec fn status_chars(s: ExecutionStatus) -> Seq<char> {
    match s {
        ExecutionStatus::Success => "success"@,
        ExecutionStatus::Error => "error"@,
        ExecutionStatus::Timeout => "timeout"@,
        ExecutionStatus::Killed => "killed"@,
    }
}

/// The metrics object, field by field.
pub open spec fn metrics_json(m: ExecutionMetrics) -> Seq<u8> {
    ascii_bytes("{\"wall_time_ms\":"@) + dec_bytes(m.wall_time_ms as nat) + ascii_bytes(
        ",\"cpu_time_ms\":"@,
    ) + dec_bytes(m.cpu_time_ms as nat) + ascii_bytes(",\"user_time_ms\":"@) + dec_bytes(
        m.user_time_ms as nat,
    ) + ascii_bytes(",\"kernel_time_ms\":"@) + dec_bytes(m.kernel_time_ms as nat) + ascii_bytes(
        ",\"max_memory_bytes\":"@,
    ) + dec_bytes(m.max_memory_bytes as nat) + ascii_bytes(",\"io_bytes_read\":"@) + dec_bytes(
        m.io_bytes_read as nat,
    ) + ascii_bytes(",\"io_bytes_written\":"@) + dec_bytes(m.io_bytes_written as nat)
        + ascii_bytes("}"@)
}

/// The details object of each detail kind.
pub open spec fn details_json(d: ErrorDetail) -> Seq<u8> {
    match d {
        ErrorDetail::Timeout { timeout_ms, elapsed_ms } => ascii_bytes("{\"timeout_ms\":"@)
            + dec_bytes(timeout_ms as nat) + ascii_bytes(",\"elapsed_ms\":"@) + dec_bytes(
            elapsed_ms as nat,
        ) + ascii_bytes("}"@),
        ErrorDetail::Signal { signal, signal_name } => ascii_bytes("{\"signal\":"@) + dec_bytes_i64(
            signal as int,
        ) + ascii_bytes(",\"signal_name\":"@) + json_string(string_bytes(signal_name))
            + ascii_bytes("}"@),
        ErrorDetail::MemoryLimit { memory_limit } => ascii_bytes("{\"memory_limit\":"@) + dec_bytes(
            memory_limit as nat,
        ) + ascii_bytes("}"@),
    }
}

/// The error object: code, message, and details when present.
pub open spec fn error_json(e: ErrorResponse) -> Seq<u8> {
    ascii_bytes("{\"code\":"@) + json_string(string_bytes(e.code)) + ascii_bytes(",\"message\":"@)
        + json_string(string_bytes(e.message)) + (match e.details {
        Some(d) => ascii_bytes(",\"details\":"@) + details_json(d),
        None => Seq::empty(),
    }) + ascii_bytes("}"@)
}

/// The opening of the document: the identifier and the status.
pub open spec fn head_json(r: ExecutionResponse) -> Seq<u8> {
    ascii_bytes("{\"execution_id\":\""@) + esc_bytes(string_bytes(r.execution_id)) + ascii_bytes(
        "\",\"status\":\""@,
    ) + ascii_bytes(status_chars(r.status)) + ascii_bytes("\""@) + (match r.exit_code {
        Some(c) => ascii_bytes(",\"exit_code\":"@) + dec_bytes_i64(c as int),
        None => Seq::empty(),
    })
}

/// The middle of the document: the streams and the metrics, when present.
pub open spec fn body_json(r: ExecutionResponse) -> Seq<u8> {
    (match r.stdout {
        Some(s) => ascii_bytes(",\"stdout\":"@) + json_string(string_bytes(s)),
        None => Seq::empty(),
    }) + (match r.stderr {
        Some(s) => ascii_bytes(",\"stderr\":"@) + json_string(string_bytes(s)),
        None => Seq::empty(),
    }) + (match r.metrics {
        Some(m) => ascii_bytes(",\"metrics\":"@) + metrics_json(m),
        None => Seq::empty(),
    })
}

/// The close of the document: the timestamps in RFC 3339 UTC form, and the
/// error record when present.
pub open spec fn tail_json(r: ExecutionResponse) -> Seq<u8> {
    ascii_bytes(",\"timestamps\":{\"started\":\""@) + vstd::utf8::encode_utf8(
        iso8601_of(clamp_stamp(r.timestamps.started_ms) as int),
    ) + ascii_bytes("\",\"completed\":\""@) + vstd::utf8::encode_utf8(
        iso8601_of(clamp_stamp(r.timestamps.completed_ms) as int),
    ) + ascii_bytes("\"}"@) + (match r.error {
        Some(e) => ascii_bytes(",\"error\":"@) + error_json(e),
        None => Seq::empty(),
    }) + ascii_bytes("}"@)
}

/// The whole response document: absent fields are omitted.
pub open spec fn response_json(r: ExecutionResponse) -> Seq<u8> {
    head_json(r) + body_json(r) + tail_json(r)
}

/// Appends an ASCII literal.
fn push_lit(out: &mut Vec<u8>, s: &str)
    requires
        s.is_ascii(),
    ensures
        final(out)@ == old(out)@ + ascii_bytes(s@),
{
    let b = lit_bytes(s);
    push_bytes(out, b);
}

/// Appends raw bytes.
fn push_bytes(out: &mut Vec<u8>, s: &[u8])
    ensures
        final(out)@ == old(out)@ + s@,
{
    let mut i: usize = 0;
    while i < s.len()
        invariant
            i <= s@.len(),
            out@ =~= old(out)@ + s@.subrange(0, i as int),
        decreases s@.len() - i,
    {
        out.push(s[i]);
        i = i + 1;
    }
    assert(out@ =~= old(out)@ + s@);
}

/// Appends the escape of one byte.
fn push_esc_byte(out: &mut Vec<u8>, b: u8)
    ensures
        final(out)@ == old(out)@ + esc_byte(b),
{
    if b == 34 {
        out.push(92);
        out.push(34);
        assert(out@ =~= old(out)@ + esc_byte(b));
    } else if b == 92 {
        out.push(92);
        out.push(92);
        assert(out@ =~= old(out)@ + esc_byte(b));
    } else if b == 10 {
        out.push(92);
        out.push(110);
        assert(out@ =~= old(out)@ + esc_byte(b));
    } else if b == 13 {
        out.push(92);
        out.push(114);
        assert(out@ =~= old(out)@ + esc_byte(b));
    } else if b == 9 {
        out.push(92);
        out.push(116);
        assert(out@ =~= old(out)@ + esc_byte(b));
    } else if b < 32 {
        out.push(92);
        out.push(117);
        out.push(48);
        out.push(48);
        let hi = b / 16;
        let lo = b % 16;
        out.push(if hi < 10 { hi + 48 } else { hi + 87 });
        out.push(if lo < 10 { lo + 48 } else { lo + 87 });
        assert(out@ =~= old(out)@ + esc_byte(b));
    } else {
        out.push(b);
        assert(out@ =~= old(out)@ + esc_byte(b));
    }
}

/// Appends a quoted, escaped JSON string.
fn push_json_string(out: &mut Vec<u8>, s: &[u8])
    ensures
        final(out)@ == old(out)@ + json_string(s@),
{
    out.push(34);
    let ghost at_open = out@;
    let mut i: usize = 0;
    while i < s.len()
        invariant
            i <= s@.len(),
            out@ =~= at_open + esc_bytes(s@.subrange(0, i as int)),
        decreases s@.len() - i,
    {
        proof {
            assert(s@.subrange(0, i + 1).drop_last() =~= s@.subrange(0, i as int));
            assert(s@.subrange(0, i + 1).last() == s@[i as int]);
        }
        push_esc_byte(out, s[i]);
        i = i + 1;
    }
    proof {
        assert(s@.subrange(0, s@.len() as int) =~= s@);
    }
    out.push(34);
    assert(out@ =~= old(out)@ + json_string(s@));
}

/// Appends a natural number in decimal.
fn push_u64(out: &mut Vec<u8>, n: u64)
    ensures
        final(out)@ == old(out)@ + dec_bytes(n as nat),
{
    let d = u64_to_dec_bytes(n);
    push_bytes(out, d.as_slice());
}

/// Appends a signed number in decimal.
fn push_i32(out: &mut Vec<u8>, n: i32)
    ensures
        final(out)@ == old(out)@ + dec_bytes_i64(n as int),
{
    let d = i64_to_dec_bytes(n as i64);
    push_bytes(out, d.as_slice());
}

/// Appends the metrics object.
fn push_metrics(out: &mut Vec<u8>, m: &ExecutionMetrics)
    ensures
        final(out)@ == old(out)@ + metrics_json(*m),
{
    proof {
        reveal_strlit("{\"wall_time_ms\":");
        reveal_strlit(",\"cpu_time_ms\":");
        reveal_strlit(",\"user_time_ms\":");
        reveal_strlit(",\"kernel_time_ms\":");
        reveal_strlit(",\"max_memory_bytes\":");
        reveal_strlit(",\"io_bytes_read\":");
        reveal_strlit(",\"io_bytes_written\":");
        reveal_strlit("}");
    }
    push_lit(out, "{\"wall_time_ms\":");
    push_u64(out, m.wall_time_ms);
    push_lit(out, ",\"cpu_time_ms\":");
    push_u64(out, m.cpu_time_ms);
    push_lit(out, ",\"user_time_ms\":");
    push_u64(out, m.user_time_ms);
    push_lit(out, ",\"kernel_time_ms\":");
    push_u64(out, m.kernel_time_ms);
    push_lit(out, ",\"max_memory_bytes\":");
    push_u64(out, m.max_memory_bytes);
    push_lit(out, ",\"io_bytes_read\":");
    push_u64(out, m.io_bytes_read);
    push_lit(out, ",\"io_bytes_written\":");
    push_u64(out, m.io_bytes_written);
    push_lit(out, "}");
    assert(out@ =~= old(out)@ + metrics_json(*m));
}

/// Appends the details object.
fn push_details(out: &mut Vec<u8>, d: &ErrorDetail)
    ensures
        final(out)@ == old(out)@ + details_json(*d),
{
    match d {
        ErrorDetail::Timeout { timeout_ms, elapsed_ms } => {
            proof {
                reveal_strlit("{\"timeout_ms\":");
                reveal_strlit(",\"elapsed_ms\":");
                reveal_strlit("}");
            }
            push_lit(out, "{\"timeout_ms\":");
            push_u64(out, *timeout_ms);
            push_lit(out, ",\"elapsed_ms\":");
            push_u64(out, *elapsed_ms);
            push_lit(out, "}");
            assert(out@ =~= old(out)@ + details_json(*d));
        },
        ErrorDetail::Signal { signal, signal_name } => {
            proof {
                reveal_strlit("{\"signal\":");
                reveal_strlit(",\"signal_name\":");
                reveal_strlit("}");
            }
            push_lit(out, "{\"signal\":");
            push_i32(out, *signal);
            push_lit(out, ",\"signal_name\":");
            push_json_string(out, signal_name.as_str().as_bytes());
            push_lit(out, "}");
            assert(out@ =~= old(out)@ + details_json(*d));
        },
        ErrorDetail::MemoryLimit { memory_limit } => {
            proof {
                reveal_strlit("{\"memory_limit\":");
                reveal_strlit("}");
            }
            push_lit(out, "{\"memory_limit\":");
            push_u64(out, *memory_limit);
            push_lit(out, "}");
            assert(out@ =~= old(out)@ + details_json(*d));
        },
    }
}

/// Appends the error object.
fn push_error(out: &mut Vec<u8>, e: &ErrorResponse)
    ensures
        final(out)@ == old(out)@ + error_json(*e),
{
    proof {
        reveal_strlit("{\"code\":");
        reveal_strlit(",\"message\":");
        reveal_strlit(",\"details\":");
        reveal_strlit("}");
    }
    push_lit(out, "{\"code\":");
    push_json_string(out, e.code.as_str().as_bytes());
    push_lit(out, ",\"message\":");
    push_json_string(out, e.message.as_str().as_bytes());
    match &e.details {
        Some(d) => {
            push_lit(out, ",\"details\":");
            push_details(out, d);
        },
        None => {},
    }
    push_lit(out, "}");
    assert(out@ =~= old(out)@ + error_json(*e));
}

/// Appends the opening of the document.
fn push_head(out: &mut Vec<u8>, r: &ExecutionResponse)
    ensures
        final(out)@ == old(out)@ + head_json(*r),
{
    proof {
        reveal_strlit("{\"execution_id\":\"");
        reveal_strlit("\",\"status\":\"");
        reveal_strlit("\"");
        reveal_strlit("success");
        reveal_strlit("error");
        reveal_strlit("timeout");
        reveal_strlit("killed");
        reveal_strlit(",\"exit_code\":");
    }
    push_lit(out, "{\"execution_id\":\"");
    push_esc_all(out, r.execution_id.as_str().as_bytes());
    push_lit(out, "\",\"status\":\"");
    match r.status {
        ExecutionStatus::Success => push_lit(out, "success"),
        ExecutionStatus::Error => push_lit(out, "error"),
        ExecutionStatus::Timeout => push_lit(out, "timeout"),
        ExecutionStatus::Killed => push_lit(out, "killed"),
    }
    push_lit(out, "\"");
    match &r.exit_code {
        Some(c) => {
            push_lit(out, ",\"exit_code\":");
            push_i32(out, *c);
        },
        None => {},
    }
    assert(out@ =~= old(out)@ + head_json(*r));
}

/// Appends the middle of the document.
fn push_body(out: &mut Vec<u8>, r: &ExecutionResponse)
    ensures
        final(out)@ == old(out)@ + body_json(*r),
{
    proof {
        reveal_strlit(",\"stdout\":");
        reveal_strlit(",\"stderr\":");
        reveal_strlit(",\"metrics\":");
    }
    match &r.stdout {
        Some(s) => {
            push_lit(out, ",\"stdout\":");
            push_json_string(out, s.as_str().as_bytes());
        },
        None => {},
    }
    match &r.stderr {
        Some(s) => {
            push_lit(out, ",\"stderr\":");
            push_json_string(out, s.as_str().as_bytes());
        },
        None => {},
    }
    match &r.metrics {
        Some(m) => {
            push_lit(out, ",\"metrics\":");
            push_metrics(out, m);
        },
        None => {},
    }
    assert(out@ =~= old(out)@ + body_json(*r));
}

/// Appends the close of the document.
fn push_tail(out: &mut Vec<u8>, r: &ExecutionResponse)
    ensures
        final(out)@ == old(out)@ + tail_json(*r),
{
    proof {
        reveal_strlit(",\"timestamps\":{\"started\":\"");
        reveal_strlit("\",\"completed\":\"");
        reveal_strlit("\"}");
        reveal_strlit(",\"error\":");
        reveal_strlit("}");
    }
    push_lit(out, ",\"timestamps\":{\"started\":\"");
    let started = crate::clock::format_stamp(r.timestamps.started_ms);
    push_bytes(out, started.as_str().as_bytes());
    push_lit(out, "\",\"completed\":\"");
    let completed = crate::clock::format_stamp(r.timestamps.completed_ms);
    push_bytes(out, completed.as_str().as_bytes());
    push_lit(out, "\"}");
    match &r.error {
        Some(e) => {
            push_lit(out, ",\"error\":");
            push_error(out, e);
        },
        None => {},
    }
    push_lit(out, "}");
    assert(out@ =~= old(out)@ + tail_json(*r));
}

/// Renders the whole response document, matching `response_json`.
pub fn emit_response(r: &ExecutionResponse) -> (out: Vec<u8>)
    ensures
        out@ == response_json(*r),
{
    let mut out: Vec<u8> = Vec::new();
    push_head(&mut out, r);
    push_body(&mut out, r);
    push_tail(&mut out, r);
    assert(out@ =~= response_json(*r));
    out
}

/// Appends the escape of a byte string, without quotes.
fn push_esc_all(out: &mut Vec<u8>, s: &[u8])
    ensures
        final(out)@ == old(out)@ + esc_bytes(s@),
{
    let mut i: usize = 0;
    while i < s.len()
        invariant
            i <= s@.len(),
            out@ =~= old(out)@ + esc_bytes(s@.subrange(0, i as int)),
        decreases s@.len() - i,
    {
        proof {
            assert(s@.subrange(0, i + 1).drop_last() =~= s@.subrange(0, i as int));
            assert(s@.subrange(0, i + 1).last() == s@[i as int]);
        }
        push_esc_byte(out, s[i]);
        i = i + 1;
    }
    proof {
        assert(s@.subrange(0, s@.len() as int) =~= s@);
    }
}

/// Where the execution identifier stands in a document: directly after the
/// opening of the first field, up to the next quote.
pub open spec fn spec_parse_execution_id(doc: Seq<u8>) -> Option<Seq<u8>> {
    let pfx = ascii_bytes("{\"execution_id\":\""@);
    if is_prefix_of(pfx, doc) {
        let rest = doc.subrange(pfx.len() as int, doc.len() as int);
        let q = first_occ(rest, 34);
        if q < rest.len() {
            Some(rest.subrange(0, q))
        } else {
            None
        }
    } else {
        None
    }
}

/// Reads the execution identifier back out of a document.
pub fn parse_execution_id(doc: &[u8]) -> (r: Option<Vec<u8>>)
    ensures
        match r {
            Some(id) => spec_parse_execution_id(doc@) == Some(id@),
            None => spec_parse_execution_id(doc@) is None,
        },
{
    proof {
        reveal_strlit("{\"execution_id\":\"");
    }
    let pfx = lit_bytes("{\"execution_id\":\"");
    if !starts_with(doc, pfx) {
        return None;
    }
    let n = doc.len();
    let rest = &doc[pfx.len()..n];
    assert(rest@ =~= doc@.subrange(pfx@.len() as int, doc@.len() as int));
    proof {
        lemma_first_occ(rest@, 34);
    }
    match find_byte(rest, 34u8) {
        Some(q) => {
            proof {
                if first_occ(rest@, 34) < q as int {
                    assert(rest@[first_occ(rest@, 34)] == 34);
                    assert(false);
                }
                if (q as int) < first_occ(rest@, 34) {
                    assert(false);
                }
            }
            let mut id: Vec<u8> = Vec::new();
            let mut i: usize = 0;
            while i < q
                invariant
                    i <= q < rest@.len(),
                    id@ =~= rest@.subrange(0, i as int),
                decreases q - i,
            {
                id.push(rest[i]);
                i = i + 1;
            }
            assert(id@ =~= rest@.subrange(0, q as int));
            Some(id)
        },
        None => {
            proof {
                if first_occ(rest@, 34) < rest@.len() {
                    assert(rest@[first_occ(rest@, 34)] == 34);
                }
            }
            None
        },
    }
}

/// Round trip of the identifier: when a response's identifier holds only
/// clean bytes — true of the hyphenated hexadecimal form — the identifier
/// read back from the emitted document is exactly the identifier emitted.
pub proof fn lemma_execution_id_round_trip(r: ExecutionResponse)
    requires
        forall|i: int|
            0 <= i < string_bytes(r.execution_id).len() ==> clean_byte(
                #[trigger] string_bytes(r.execution_id)[i],
            ),
    ensures
        spec_parse_execution_id(response_json(r)) == Some(string_bytes(r.execution_id)),
{
    let idb = string_bytes(r.execution_id);
    let pfx = ascii_bytes("{\"execution_id\":\""@);
    let doc = response_json(r);
    lemma_esc_clean(idb);
    let mid = ascii_bytes("\",\"status\":\""@) + ascii_bytes(status_chars(r.status))
        + ascii_bytes("\""@) + (match r.exit_code {
        Some(c) => ascii_bytes(",\"exit_code\":"@) + dec_bytes_i64(c as int),
        None => Seq::empty(),
    });
    let tail = mid + body_json(r) + tail_json(r);
    assert(head_json(r) =~= pfx + idb + mid);
    assert(doc =~= pfx + idb + tail);
    reveal_strlit("{\"execution_id\":\"");
    reveal_strlit("\",\"status\":\"");
    assert(doc.subrange(0, pfx.len() as int) =~= pfx);
    assert(is_prefix_of(pfx, doc));
    let rest = doc.subrange(pfx.len() as int, doc.len() as int);
    assert(rest =~= idb + tail);
    assert(tail[0] == 34) by {
        assert(ascii_bytes("\",\"status\":\""@)[0] == 34);
    }
    lemma_first_occ(rest, 34);
    let q = first_occ(rest, 34);
    assert(rest[idb.len() as int] == 34);
    if q < idb.len() {
        assert(rest[q] == idb[q]);
        assert(clean_byte(idb[q]));
        assert(false);
    }
    if q > idb.len() {
        assert(false);
    }
    assert(q == idb.len());
    assert(rest.subrange(0, q) =~= idb);
}

} // verus!
