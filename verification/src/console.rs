//! Bounded console-line formatting for the boot log.
//!
//! Each log record becomes one `target:message` line held in a fixed-size
//! buffer. A record that does not fit is truncated and ends in a three-byte
//! marker, never more than the buffer size; formatting never fails, so a
//! diagnostic can never crash the boot, and each line is computed afresh, so
//! an oversized record cannot corrupt the lines that follow it.

use vstd::prelude::*;

verus! {

/// Capacity in bytes of the console line buffer.
pub const LOG_BUFFER_SIZE: usize = 1024;

/// The byte separating the record's target from its message: ':'.
pub const SEPARATOR_BYTE: u8 = 58;

/// The byte the truncation marker repeats: '.'.
pub const MARKER_BYTE: u8 = 46;

/// The three-byte marker that ends a truncated line.
pub open spec fn spec_truncation_marker() -> Seq<u8> {
    seq![MARKER_BYTE, MARKER_BYTE, MARKER_BYTE]
}

/// The emitted line for a record: `target`, a colon, the message — whole when
/// it fits the buffer, otherwise its first `LOG_BUFFER_SIZE - 3` bytes
/// followed by the truncation marker.
pub open spec fn spec_log_line(target: Seq<u8>, message: Seq<u8>) -> Seq<u8> {
    let full = target + seq![SEPARATOR_BYTE] + message;
    if full.len() <= LOG_BUFFER_SIZE {
        full
    } else {
        full.take(LOG_BUFFER_SIZE - 3) + spec_truncation_marker()
    }
}

/// Law: an emitted line never exceeds the buffer, and a record that does not
/// fit is emitted as exactly the buffer-filling prefix plus the marker.
pub proof fn lemma_log_line_bounded(target: Seq<u8>, message: Seq<u8>)
    ensures
        spec_log_line(target, message).len() <= LOG_BUFFER_SIZE,
        target.len() + 1 + message.len() > LOG_BUFFER_SIZE ==> spec_log_line(target, message).len()
            == LOG_BUFFER_SIZE,
{
}

/// Append the first `k` bytes of `src` to `out`.
fn push_prefix(out: &mut Vec<u8>, src: &Vec<u8>, k: usize)
    requires
        k <= src@.len(),
        old(out)@.len() + k <= usize::MAX,
    ensures
        final(out)@ == old(out)@ + src@.take(k as int),
{
    let mut j: usize = 0;
    while j < k
        invariant
            j <= k,
            k <= src@.len(),
            old(out)@.len() + k <= usize::MAX,
            out@ == old(out)@ + src@.take(j as int),
        decreases k - j,
    {
        out.push(src[j]);
        assert(out@ =~= old(out)@ + src@.take(j + 1));
        j = j + 1;
    }
    assert(out@ =~= old(out)@ + src@.take(k as int));
}

/// Format one `target:message` console line into a fresh buffer, truncating
/// to the fixed buffer size with the three-byte marker when the record does
/// not fit.
pub fn format_log_line(target: &Vec<u8>, message: &Vec<u8>) -> (r: Vec<u8>)
    requires
        target@.len() + 1 + message@.len() <= usize::MAX,
    ensures
        r@ == spec_log_line(target@, message@),
        r@.len() <= LOG_BUFFER_SIZE,
{
    let ghost full = target@ + seq![SEPARATOR_BYTE] + message@;
    let total = target.len() + 1 + message.len();
    let mut out: Vec<u8> = Vec::new();
    if total <= LOG_BUFFER_SIZE {
        push_prefix(&mut out, target, target.len());
        out.push(SEPARATOR_BYTE);
        push_prefix(&mut out, message, message.len());
        assert(out@ =~= full);
    } else {
        let limit = LOG_BUFFER_SIZE - 3;
        if target.len() >= limit {
            push_prefix(&mut out, target, limit);
            assert(out@ =~= full.take(limit as int));
        } else {
            push_prefix(&mut out, target, target.len());
            out.push(SEPARATOR_BYTE);
            let message_prefix = limit - target.len() - 1;
            push_prefix(&mut out, message, message_prefix);
            assert(out@ =~= full.take(limit as int));
        }
        out.push(MARKER_BYTE);
        out.push(MARKER_BYTE);
        out.push(MARKER_BYTE);
        assert(out@ =~= full.take(limit as int) + spec_truncation_marker());
    }
    out
}

} // verus!
