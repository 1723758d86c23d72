//! Decisions of the streaming downloader: what a response's status and
//! declared length mean for the attempt, and the progress counter.
use vstd::prelude::*;

use crate::retry::FailureKind;

verus! {

/// Bytes written so far against the length the server declared.
#[derive(Clone, Copy, Debug)]
pub struct ProgressState {
    pub bytes_transferred: u64,
    pub total_bytes: u64,
}

impl ProgressState {
    /// Nothing transferred yet of `total_bytes`.
    pub fn new(total_bytes: u64) -> (r: ProgressState)
        ensures
            r.bytes_transferred == 0,
            r.total_bytes == total_bytes,
    {
        ProgressState { bytes_transferred: 0, total_bytes }
    }

    /// Counts a chunk of `chunk_len` bytes that has been written; the counter
    /// never passes the declared total.
    pub fn advance(&mut self, chunk_len: u64)
        ensures
            final(self).total_bytes == old(self).total_bytes,
            final(self).bytes_transferred == if old(self).bytes_transferred + chunk_len
                <= old(self).total_bytes {
                old(self).bytes_transferred + chunk_len
            } else {
                old(self).total_bytes as int
            },
    {
        if chunk_len <= self.total_bytes && self.bytes_transferred <= self.total_bytes - chunk_len {
            self.bytes_transferred = self.bytes_transferred + chunk_len;
        } else {
            self.bytes_transferred = self.total_bytes;
        }
    }
}

/// The counter only moves forward while it has not passed the total.
pub proof fn progress_is_monotone(p: ProgressState, chunk_len: u64, q: ProgressState)
    requires
        p.bytes_transferred <= p.total_bytes,
        q.total_bytes == p.total_bytes,
        q.bytes_transferred == if p.bytes_transferred + chunk_len <= p.total_bytes {
            p.bytes_transferred + chunk_len
        } else {
            p.total_bytes as int
        },
    ensures
        p.bytes_transferred <= q.bytes_transferred <= q.total_bytes,
{
}

/// Whether an HTTP status is a success (2xx).
pub open spec fn is_success_status(status: u16) -> bool {
    200 <= status && status <= 299
}

/// Checks a response before its body is read: a status other than 2xx is a
/// failure of the attempt, and so is a missing content length. On success the
/// progress counter starts at zero of the declared length.
pub fn accept_response(status: u16, content_length: Option<u64>) -> (r: Result<
    ProgressState,
    FailureKind,
>)
    ensures
        !is_success_status(status) ==> r == Err::<ProgressState, FailureKind>(
            FailureKind::HttpStatus(status),
        ),
        is_success_status(status) && content_length is None ==> r == Err::<
            ProgressState,
            FailureKind,
        >(FailureKind::MissingContentLength),
        is_success_status(status) && content_length is Some ==> (r matches Ok(p)
            && p.total_bytes == content_length->Some_0 && p.bytes_transferred == 0),
{
    if !(200 <= status && status <= 299) {
        return Err(FailureKind::HttpStatus(status));
    }
    match content_length {
        None => Err(FailureKind::MissingContentLength),
        Some(len) => Ok(ProgressState::new(len)),
    }
}

} // verus!
