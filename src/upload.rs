//! Decisions of the upload hand-off: where a finished recording goes, how it
//! is cut into chunks, and when progress is worth reporting. The transfer
//! itself is performed by the upload collaborator.
use vstd::prelude::*;
use vstd::string::{StrSliceExecFns, StringExecFns};

verus! {

/// Bytes sent per request of an upload session.
pub const UPLOAD_CHUNK_SIZE: usize = 10485760;

/// Progress steps smaller than this (in percent) are not reported.
pub const PROGRESS_STEP: u8 = 5;

/// The path of `file_name` inside `folder`, with exactly the separators needed.
pub open spec fn destination_of(folder: Seq<char>, file_name: Seq<char>) -> Seq<char> {
    if folder.len() > 0 && folder.last() == '/' {
        folder + file_name
    } else {
        folder + seq!['/'] + file_name
    }
}

/// Where a recording named `file_name` is stored in the destination `folder`.
pub fn destination_path(folder: &str, file_name: &str) -> (r: String)
    ensures
        r@ == destination_of(folder@, file_name@),
{
    let n = folder.unicode_len();
    let mut r = String::from_str(folder);
    if n > 0 && folder.get_char(n - 1) == '/' {
        r.append(file_name);
    } else {
        proof {
            reveal_strlit("/");
        }
        r.append("/");
        r.append(file_name);
    }
    r
}

/// The chunk after `uploaded` bytes of `total`: where it ends, and whether it is the last.
pub fn next_chunk(uploaded: usize, total: usize) -> (r: (usize, bool))
    requires
        uploaded <= total,
    ensures
        r.0 == if total - uploaded > UPLOAD_CHUNK_SIZE { uploaded + UPLOAD_CHUNK_SIZE } else { total as int },
        r.1 == (r.0 == total),
{
    let end = if total - uploaded > UPLOAD_CHUNK_SIZE {
        uploaded + UPLOAD_CHUNK_SIZE
    } else {
        total
    };
    (end, end == total)
}

/// Percent of `total` bytes that `uploaded` bytes are, rounded down.
pub fn upload_progress(uploaded: u64, total: u64) -> (r: u8)
    requires
        0 < total,
        uploaded <= total,
    ensures
        r == uploaded as int * 100 / total as int,
{
    let p = (uploaded as u128 * 100) / total as u128;
    proof {
        assert(uploaded as int * 100 / total as int <= 100) by (nonlinear_arith)
            requires
                0 < total,
                uploaded <= total,
        ;
    }
    p as u8
}

/// Whether progress is worth reporting: a step of at least `PROGRESS_STEP`
/// since the last report, or completion.
pub fn should_report_progress(progress: u8, last_reported: u8) -> (r: bool)
    ensures
        r == (progress as int >= last_reported as int + PROGRESS_STEP as int || progress == 100),
{
    progress as u16 >= last_reported as u16 + PROGRESS_STEP as u16 || progress == 100
}

} // verus!
