//! Single-file (in-memory) diff and patch: the decisions taken around each
//! call into the engine.
//!
//! The engine itself computes diffs and applies them; it writes into a
//! buffer that the caller provides and answers with a status word. What the
//! library decides is how large that buffer is, and what the caller gets
//! back once the engine has answered.
use vstd::prelude::*;

use crate::status::{error_of, status, status_of, unit, unit_of, Error};

verus! {

/// Metadata extracted from a serialized (single-compressed, zstd) diff.
#[derive(Debug, Clone, Copy, PartialEq, Eq, Structural)]
pub struct DiffInfo {
    /// Size of the new (target) data the diff reconstructs.
    pub new_size: u64,
    /// Size of the old (source) data the diff was built against.
    pub old_size: u64,
}

/// `n` zero bytes.
pub open spec fn zeros(n: nat) -> Seq<u8> {
    Seq::new(n, |i: int| 0u8)
}

/// A buffer of `len` zero bytes, for the engine to write into.
pub fn zeroed(len: usize) -> (out: Vec<u8>)
    ensures
        out@ == zeros(len as nat),
        out@.len() == len,
        forall|i: int| 0 <= i < len ==> out@[i] == 0u8,
{
    let out = vec![0u8; len];
    assert(out@ =~= zeros(len as nat));
    out
}

/// A non-negative status word read as a byte count.
pub open spec fn byte_count(n: i64) -> usize {
    n as usize
}

/// What the diff buffer holds once the engine has written `n` bytes of
/// diff into it: its first `n` bytes (all of it, if it is no longer).
pub open spec fn written_prefix(out: Seq<u8>, n: i64) -> Seq<u8> {
    if (byte_count(n) as int) < out.len() {
        out.take(byte_count(n) as int)
    } else {
        out
    }
}

/// Finish a diff: the engine has written into `out` and answered `code`.
/// On success the diff is the part of `out` that the engine wrote; a
/// negative word is the error it stands for.
pub fn diff_output(out: Vec<u8>, code: i64) -> (r: Result<Vec<u8>, Error>)
    ensures
        r is Ok <==> code >= 0,
        r matches Ok(d) ==> d@ == written_prefix(out@, code),
        r matches Ok(d) ==> d@.is_prefix_of(out@),
        r matches Ok(d) ==> (code <= usize::MAX ==> d@.len() == if code < out@.len() {
            code as int
        } else {
            out@.len() as int
        }),
        r matches Err(e) ==> status_of(code) == Err::<i64, Error>(e),
{
    match status(code) {
        Ok(n) => {
            let mut out = out;
            let count: usize = #[verifier::truncate] (n as usize);
            out.truncate(count);
            Ok(out)
        },
        Err(e) => Err(e),
    }
}

/// A finished diff is as long as the byte count that the engine reported,
/// unless the buffer was shorter, and it is a prefix of the buffer.
pub proof fn lemma_written_prefix_len(out: Seq<u8>, n: i64)
    ensures
        written_prefix(out, n).len() == if (byte_count(n) as int) < out.len() {
            byte_count(n) as int
        } else {
            out.len() as int
        },
        written_prefix(out, n).is_prefix_of(out),
{
}

/// A non-negative status word that fits a buffer length is its own byte
/// count: nothing is cut off it.
pub proof fn lemma_byte_count_is_the_word(n: i64)
    requires
        0 <= n <= usize::MAX,
    ensures
        byte_count(n) as int == n as int,
{
}

/// A finished diff holds exactly the bytes the engine wrote: when the
/// reported count `n` fits the buffer, it is the first `n` bytes of it.
pub proof fn lemma_written_prefix_holds_the_count(out: Seq<u8>, n: i64)
    requires
        0 <= n <= out.len(),
        n <= usize::MAX,
    ensures
        written_prefix(out, n).len() == n as int,
        forall|i: int| 0 <= i < n ==> written_prefix(out, n)[i] == out[i],
{
}

/// `n` zero bytes are `n` bytes long and all of them are zero.
pub proof fn lemma_zeros(n: nat)
    ensures
        zeros(n).len() == n,
        forall|i: int| 0 <= i < n ==> zeros(n)[i] == 0u8,
{
}

/// The number of bytes that the engine reports it wrote into a buffer the
/// caller provided, or the error that its answer stands for.
pub fn written_len(code: i64) -> (r: Result<usize, Error>)
    ensures
        r is Ok <==> code >= 0,
        r matches Ok(n) ==> n == byte_count(code),
        r matches Ok(n) ==> (code <= usize::MAX ==> n as int == code as int),
        r matches Err(e) ==> status_of(code) == Err::<i64, Error>(e),
{
    match status(code) {
        Ok(n) => Ok(#[verifier::truncate] (n as usize)),
        Err(e) => Err(e),
    }
}

/// The sizes recorded in a diff, once the engine has read them and answered
/// `code`: the sizes when the word is not negative, otherwise its error.
pub fn diff_info_result(code: i32, new_size: u64, old_size: u64) -> (r: Result<DiffInfo, Error>)
    ensures
        r is Ok <==> code >= 0,
        r matches Ok(info) ==> info == (DiffInfo { new_size, old_size }),
        r matches Err(e) ==> unit_of(code) == Err::<(), Error>(e),
{
    match unit(code) {
        Ok(()) => Ok(DiffInfo { new_size, old_size }),
        Err(e) => Err(e),
    }
}

/// What happened last while a diff is being applied.
pub enum PatchEvent {
    /// Patching was asked for, with an optional size of the new data.
    Start { new_len_hint: Option<usize> },
    /// The sizes that the diff records were read, or reading them failed.
    InfoRead(Result<DiffInfo, Error>),
    /// The engine applied the diff into `out` and answered `code`.
    Applied { out: Vec<u8>, code: i64 },
}

/// What the caller does next while a diff is being applied.
pub enum PatchStep {
    /// Read the sizes that the diff records, and report them.
    ReadInfo,
    /// Have the engine apply the diff into this buffer, and report.
    Apply { out: Vec<u8> },
    /// Patching is over, with this result.
    Done(Result<Vec<u8>, Error>),
}

/// The size of the new data recorded in a diff, as a buffer length.
pub open spec fn recorded_len(info: DiffInfo) -> usize {
    info.new_size as usize
}

/// Without a size hint, the buffer is as long as the new size that the diff
/// records, whatever old size it records.
pub proof fn lemma_recorded_len_is_new_size(info: DiffInfo)
    requires
        info.new_size <= usize::MAX,
    ensures
        recorded_len(info) as int == info.new_size as int,
        forall|old_size: u64| #[trigger]
            recorded_len(DiffInfo { new_size: info.new_size, old_size }) == recorded_len(info),
{
}

/// Apply a single-stream zstd diff, one decision at a time.
///
/// If a size hint `n` is given, exactly `n` bytes are produced; otherwise
/// the size is read from the diff first. The engine then writes the new
/// data into a zeroed buffer of that size, and on success the whole buffer
/// is the result. Any error along the way ends patching with that error.
pub fn patch(event: PatchEvent) -> (step: PatchStep)
    ensures
        match event {
            PatchEvent::Start { new_len_hint: Some(n) } => step matches PatchStep::Apply { out }
                && out@ == zeros(n as nat) && out@.len() == n && forall|i: int|
                0 <= i < n ==> out@[i] == 0u8,
            PatchEvent::Start { new_len_hint: None } => step is ReadInfo,
            PatchEvent::InfoRead(Ok(info)) => step matches PatchStep::Apply { out } && out@
                == zeros(recorded_len(info) as nat) && (info.new_size <= usize::MAX ==> out@.len()
                == info.new_size) && forall|i: int| 0 <= i < out@.len() ==> out@[i] == 0u8,
            PatchEvent::InfoRead(Err(e)) => step == PatchStep::Done(Err(e)),
            PatchEvent::Applied { out, code } => if code >= 0 {
                step matches PatchStep::Done(Ok(new)) && new@ == out@
            } else {
                step == PatchStep::Done(Err(error_of(code)))
            },
        },
{
    match event {
        PatchEvent::Start { new_len_hint: Some(n) } => PatchStep::Apply { out: zeroed(n) },
        PatchEvent::Start { new_len_hint: None } => PatchStep::ReadInfo,
        PatchEvent::InfoRead(Ok(info)) => {
            let len: usize = #[verifier::truncate] (info.new_size as usize);
            PatchStep::Apply { out: zeroed(len) }
        },
        PatchEvent::InfoRead(Err(e)) => PatchStep::Done(Err(e)),
        PatchEvent::Applied { out, code } => match status(code) {
            Ok(_) => PatchStep::Done(Ok(out)),
            Err(e) => PatchStep::Done(Err(e)),
        },
    }
}

} // verus!
