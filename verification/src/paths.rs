//! Paths handed to the engine's directory diff and patch.
//!
//! The engine takes paths as UTF-8 text. A path arrives here as the bytes of
//! its platform encoding (a superset of UTF-8); it is accepted when those
//! bytes are valid UTF-8 and refused with `Error::Invalid` otherwise.
use vstd::prelude::*;

use crate::options::DiffOptions;
use crate::status::Error;
use vstd::utf8::{decode_utf8, encode_utf8, valid_utf8};

verus! {

/// `std::str::from_utf8`: the bytes read as a string slice when they are
/// valid UTF-8, nothing otherwise. The slice that comes back holds the same
/// bytes, so its characters are the ones the bytes encode.
#[verifier::external_body]
fn utf8_str(bytes: &[u8]) -> (r: Option<&str>)
    ensures
        r is Some <==> valid_utf8(bytes@),
        r matches Some(s) ==> s@ == decode_utf8(bytes@),
{
    match std::str::from_utf8(bytes) {
        Ok(s) => Some(s),
        Err(_) => None,
    }
}

/// What `path_str` returns for the given path bytes.
pub open spec fn path_text(path: Seq<u8>) -> Result<Seq<char>, Error> {
    if valid_utf8(path) {
        Ok(decode_utf8(path))
    } else {
        Err(Error::Invalid)
    }
}

/// Convert a path, given as the bytes of its platform encoding, to a UTF-8
/// string suitable for the engine. Returns `Error::Invalid` if the path is
/// not valid UTF-8.
pub fn path_str(path: &[u8]) -> (r: Result<String, Error>)
    ensures
        r is Ok <==> path_text(path@) is Ok,
        r matches Ok(s) ==> path_text(path@) == Ok::<Seq<char>, Error>(s@),
        r matches Err(e) ==> e == Error::Invalid,
        r is Ok <==> valid_utf8(path@),
        r matches Ok(s) ==> s@ == decode_utf8(path@),
{
    match utf8_str(path) {
        Some(s) => Ok(s.to_owned()),
        None => Err(Error::Invalid),
    }
}

/// An accepted path encodes back to exactly the bytes it was given as.
pub proof fn lemma_path_text_round_trip(path: Seq<u8>)
    requires
        path_text(path) is Ok,
    ensures
        encode_utf8(path_text(path)->Ok_0) == path,
{
    vstd::utf8::decode_utf8_encode_utf8(path);
}

/// A path is refused exactly when its bytes are not valid UTF-8; every valid
/// one, absolute or relative, is accepted as the text its bytes encode.
pub proof fn lemma_path_text_refuses_only_bad_utf8(path: Seq<u8>)
    ensures
        path_text(path) is Ok <==> valid_utf8(path),
        valid_utf8(path) ==> path_text(path) == Ok::<Seq<char>, Error>(decode_utf8(path)),
        !valid_utf8(path) ==> path_text(path) == Err::<Seq<char>, Error>(Error::Invalid),
{
}

/// Three paths are accepted together exactly when each of them is valid
/// UTF-8, whatever else they hold.
pub proof fn lemma_all_utf8_is_each_valid(a: Seq<u8>, b: Seq<u8>, c: Seq<u8>)
    ensures
        all_utf8(a, b, c) == (valid_utf8(a) && valid_utf8(b) && valid_utf8(c)),
{
}

/// A directory diff, ready to hand to the engine: the three paths as UTF-8
/// text and the zstd level and thread count to use.
pub struct DirDiffJob {
    /// Old (source) directory.
    pub old_dir: String,
    /// New (target) directory.
    pub new_dir: String,
    /// Where the serialized dir-diff is written.
    pub out_diff_path: String,
    /// zstd compression level.
    pub level: i32,
    /// Number of worker threads.
    pub threads: i32,
}

/// A directory patch, ready to hand to the engine: the three paths as UTF-8
/// text and the thread count to use (the level plays no part in patching).
pub struct DirPatchJob {
    /// Old (source) directory.
    pub old_dir: String,
    /// The serialized dir-diff.
    pub diff_path: String,
    /// Where the new directory is reconstructed.
    pub out_new_dir: String,
    /// Number of worker threads.
    pub threads: i32,
}

/// All three paths are valid UTF-8.
pub open spec fn all_utf8(a: Seq<u8>, b: Seq<u8>, c: Seq<u8>) -> bool {
    valid_utf8(a) && valid_utf8(b) && valid_utf8(c)
}

/// Prepare a zstd directory diff between `old_dir` and `new_dir`, written to
/// `out_diff_path`: each path is converted to UTF-8 text, and the options
/// give the level and thread count. Fails with `Error::Invalid`, before any
/// work is done, when a path is not valid UTF-8.
pub fn diff_dir(old_dir: &[u8], new_dir: &[u8], out_diff_path: &[u8], opts: DiffOptions) -> (r:
    Result<DirDiffJob, Error>)
    ensures
        r is Ok <==> all_utf8(old_dir@, new_dir@, out_diff_path@),
        r is Ok <==> valid_utf8(old_dir@) && valid_utf8(new_dir@) && valid_utf8(out_diff_path@),
        r matches Err(e) ==> e == Error::Invalid,
        r matches Ok(job) ==> {
            &&& job.old_dir@ == decode_utf8(old_dir@)
            &&& job.new_dir@ == decode_utf8(new_dir@)
            &&& job.out_diff_path@ == decode_utf8(out_diff_path@)
            &&& job.level == opts.level
            &&& job.threads == opts.threads
        },
{
    let old_s = path_str(old_dir)?;
    let new_s = path_str(new_dir)?;
    let out_s = path_str(out_diff_path)?;
    Ok(DirDiffJob {
        old_dir: old_s,
        new_dir: new_s,
        out_diff_path: out_s,
        level: opts.level,
        threads: opts.threads,
    })
}

/// Prepare a directory patch: the new directory is reconstructed at
/// `out_new_dir` from `old_dir` and the dir-diff at `diff_path`. Each path
/// is converted to UTF-8 text; only the thread count of the options is used.
/// Fails with `Error::Invalid`, before any work is done, when a path is not
/// valid UTF-8.
pub fn patch_dir(old_dir: &[u8], diff_path: &[u8], out_new_dir: &[u8], opts: DiffOptions) -> (r:
    Result<DirPatchJob, Error>)
    ensures
        r is Ok <==> all_utf8(old_dir@, diff_path@, out_new_dir@),
        r is Ok <==> valid_utf8(old_dir@) && valid_utf8(diff_path@) && valid_utf8(out_new_dir@),
        r matches Err(e) ==> e == Error::Invalid,
        r matches Ok(job) ==> {
            &&& job.old_dir@ == decode_utf8(old_dir@)
            &&& job.diff_path@ == decode_utf8(diff_path@)
            &&& job.out_new_dir@ == decode_utf8(out_new_dir@)
            &&& job.threads == opts.threads
        },
{
    let old_s = path_str(old_dir)?;
    let diff_s = path_str(diff_path)?;
    let out_s = path_str(out_new_dir)?;
    Ok(DirPatchJob { old_dir: old_s, diff_path: diff_s, out_new_dir: out_s, threads: opts.threads })
}

} // verus!
