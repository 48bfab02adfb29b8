//! The decisions of one streamed download: where it starts, whether the
//! response is accepted, how the file is opened, the running byte count,
//! progress reports and cancellation. The caller performs the request, the
//! file writes and the callback, and hands each outcome back.
use vstd::prelude::*;
use vstd::string::*;
use crate::format::{decimal, push_decimal};

verus! {

/// The terminal outcome of a download attempt.
pub struct DownloadResult {
    /// Whether the transfer ran, to the end or to a requested stop.
    pub success: bool,
    /// Bytes in the file that this transfer produced, any resumed prefix included.
    pub bytes_downloaded: u64,
    /// Present exactly when `success` is false.
    pub error_message: Option<String>,
}

/// What a progress callback asks for after a chunk.
#[derive(Clone, Copy, Debug, PartialEq, Eq, Structural)]
pub enum ProgressSignal {
    Continue,
    Cancel,
}

/// A hard failure of the transfer's own bookkeeping.
#[derive(Clone, Copy, Debug, PartialEq, Eq, Structural)]
pub enum TransferError {
    /// The byte count would pass `u64::MAX`.
    TooLarge,
}

/// The offset a download starts from: the length of the file already on
/// disk when resuming and it exists, otherwise 0.
pub open spec fn resume_offset(resume: bool, existing_len: Option<u64>) -> u64 {
    if resume {
        match existing_len {
            Some(n) => n,
            None => 0,
        }
    } else {
        0
    }
}

/// Whether a response status starts a body stream: any 2xx, 206 included.
pub open spec fn status_ok(status: u16) -> bool {
    200 <= status && status < 300
}

/// The offset that a response confirms: the requested one when the server
/// answered a range request with 206, otherwise 0 (a server that ignored the
/// range sends the whole file, which then replaces the partial one).
pub open spec fn confirmed_offset(requested: u64, status: u16) -> u64 {
    if requested > 0 && status == 206 {
        requested
    } else {
        0
    }
}

/// The expected final size: the remaining length plus the confirmed offset,
/// saturating at `u64::MAX`, or 0 (unknown) without a declared length.
pub open spec fn expected_total(offset: u64, content_length: Option<u64>) -> u64 {
    match content_length {
        Some(n) => if n + offset <= u64::MAX {
            (n + offset) as u64
        } else {
            u64::MAX
        },
        None => 0,
    }
}

/// `HTTP error: ` followed by the status code and, when there is one, a space
/// and the reason phrase.
pub open spec fn status_message(status: u16, reason: Seq<char>) -> Seq<char> {
    seq!['H', 'T', 'T', 'P', ' ', 'e', 'r', 'r', 'o', 'r', ':', ' '] + decimal(status as nat) + if reason.len()
        == 0 {
        Seq::<char>::empty()
    } else {
        seq![' '] + reason
    }
}

/// The `Range` header value that asks for everything from `start` on.
pub open spec fn range_value(start: u64) -> Seq<char> {
    seq!['b', 'y', 't', 'e', 's', '='] + decimal(start as nat) + seq!['-']
}

/// The state of an accepted transfer.
pub struct Transfer {
    /// Bytes kept from an earlier run; the file is appended to when positive
    /// and created anew otherwise.
    pub start_offset: u64,
    /// Expected final size, 0 when unknown.
    pub total_size: u64,
    /// Bytes in the file so far, the kept prefix included.
    pub downloaded: u64,
    /// The bytes this transfer has written.
    pub received: Ghost<Seq<u8>>,
}

/// The step after a progress report.
pub enum Step {
    /// Read the next chunk.
    Continue(Transfer),
    /// Stop reading, with this outcome.
    Stop(DownloadResult),
}

/// How a response is handled.
pub enum ResponseDecision {
    /// No byte is written; the outcome is a soft failure.
    Reject(DownloadResult),
    /// The body is streamed into the file.
    Accept(Transfer),
}

/// The state right after a response with `status` and `content_length`
/// was accepted for a request from `requested`.
pub open spec fn opened(requested: u64, status: u16, content_length: Option<u64>) -> Transfer {
    let offset = confirmed_offset(requested, status);
    Transfer {
        start_offset: offset,
        total_size: expected_total(offset, content_length),
        downloaded: offset,
        received: Ghost(Seq::empty()),
    }
}

/// The state after `data` was written.
pub open spec fn after_chunk(t: Transfer, data: Seq<u8>) -> Transfer {
    Transfer {
        start_offset: t.start_offset,
        total_size: t.total_size,
        downloaded: (t.downloaded + data.len()) as u64,
        received: Ghost(t.received@ + data),
    }
}

/// The file's content after transfer `t`, given its content `prior` before.
pub open spec fn file_after(prior: Seq<u8>, t: Transfer) -> Seq<u8> {
    if t.start_offset > 0 {
        prior + t.received@
    } else {
        t.received@
    }
}

/// Whether `r` reports a transfer that ran, with `n` bytes in the file.
pub open spec fn succeeded_with(r: DownloadResult, n: u64) -> bool {
    r.success && r.bytes_downloaded == n && r.error_message is None
}

/// The offset to start a download from, given whether to resume and the
/// length of the output file if it exists.
pub fn start_offset(resume: bool, existing_len: Option<u64>) -> (r: u64)
    ensures
        r == resume_offset(resume, existing_len),
{
    if resume {
        match existing_len {
            Some(n) => n,
            None => 0,
        }
    } else {
        0
    }
}

/// The `Range` header to send for a download from `start`: none from 0,
/// `bytes=<start>-` otherwise.
pub fn range_header(start: u64) -> (r: Option<String>)
    ensures
        start == 0 ==> r is None,
        start > 0 ==> (r matches Some(v) && v@ == range_value(start)),
{
    if start == 0 {
        return None;
    }
    let mut v = String::from_str("bytes=");
    proof {
        reveal_strlit("bytes=");
        reveal_strlit("-");
    }
    push_decimal(&mut v, start as u128);
    v.append("-");
    assert(v@ =~= range_value(start));
    Some(v)
}

/// Whether a response status starts a body stream.
pub fn status_accepted(status: u16) -> (r: bool)
    ensures
        r == status_ok(status),
{
    200 <= status && status < 300
}

impl Transfer {
    /// The bookkeeping invariant: the count is the kept prefix plus what was
    /// written, so it never falls below the prefix.
    pub open spec fn wf(&self) -> bool {
        self.downloaded == self.start_offset + self.received@.len()
    }

    /// Decides on a response to a request from `requested`: a status other
    /// than 2xx is rejected with its code in the message and nothing
    /// written; otherwise the transfer is opened.
    pub fn begin(requested: u64, status: u16, reason: &str, content_length: Option<u64>) -> (r: ResponseDecision)
        ensures
            !status_ok(status) ==> (r matches ResponseDecision::Reject(res) && !res.success
                && res.bytes_downloaded == 0 && (res.error_message matches Some(m) && m@ == status_message(
                status,
                reason@,
            ))),
            status_ok(status) ==> (r matches ResponseDecision::Accept(t) && t == opened(
                requested,
                status,
                content_length,
            )),
    {
        if !status_accepted(status) {
            let mut m = String::from_str("HTTP error: ");
            proof {
                reveal_strlit("HTTP error: ");
                reveal_strlit(" ");
            }
            push_decimal(&mut m, status as u128);
            if reason.unicode_len() > 0 {
                m.append(" ");
                m.append(reason);
            }
            assert(m@ =~= status_message(status, reason@));
            return ResponseDecision::Reject(
                DownloadResult { success: false, bytes_downloaded: 0, error_message: Some(m) },
            );
        }
        let offset = if requested > 0 && status == 206 {
            requested
        } else {
            0
        };
        let total_size = match content_length {
            Some(n) => n.saturating_add(offset),
            None => 0,
        };
        ResponseDecision::Accept(
            Transfer { start_offset: offset, total_size, downloaded: offset, received: Ghost(Seq::empty()) },
        )
    }

    /// Whether the output file is appended to (rather than created anew).
    pub fn appends(&self) -> (r: bool)
        ensures
            r == (self.start_offset > 0),
    {
        self.start_offset > 0
    }

    /// Accounts for `chunk`, just written to the file. Fails, changing
    /// nothing, when the count would pass `u64::MAX`.
    pub fn record_chunk(&mut self, chunk: &[u8]) -> (r: Result<(), TransferError>)
        requires
            old(self).wf(),
        ensures
            old(self).downloaded + chunk@.len() <= u64::MAX ==> (r is Ok && *final(self) == after_chunk(
                *old(self),
                chunk@,
            )),
            old(self).downloaded + chunk@.len() > u64::MAX ==> (r == Err::<(), TransferError>(
                TransferError::TooLarge,
            ) && *final(self) == *old(self)),
            final(self).wf(),
    {
        let len = chunk.len() as u64;
        if len > u64::MAX - self.downloaded {
            return Err(TransferError::TooLarge);
        }
        self.downloaded = self.downloaded + len;
        self.received = Ghost(self.received@ + chunk@);
        Ok(())
    }

    /// The values handed to a progress callback: bytes so far and the
    /// expected total (0 when unknown).
    pub fn progress(&self) -> (r: (u64, u64))
        ensures
            r == (self.downloaded, self.total_size),
    {
        (self.downloaded, self.total_size)
    }

    /// The outcome of a transfer that ran: successful, with the bytes so far.
    pub fn finish(self) -> (r: DownloadResult)
        ensures
            succeeded_with(r, self.downloaded),
    {
        DownloadResult { success: true, bytes_downloaded: self.downloaded, error_message: None }
    }

    /// Acts on what the progress callback signalled: go on unchanged, or stop
    /// cleanly with the bytes written so far.
    pub fn after_progress(self, signal: ProgressSignal) -> (r: Step)
        ensures
            signal == ProgressSignal::Continue ==> (r matches Step::Continue(t) && t == self),
            signal == ProgressSignal::Cancel ==> (r matches Step::Stop(res) && succeeded_with(
                res,
                self.downloaded,
            )),
    {
        match signal {
            ProgressSignal::Continue => Step::Continue(self),
            ProgressSignal::Cancel => Step::Stop(self.finish()),
        }
    }
}

/// Writing two chunks one after the other is accounted for as writing their
/// concatenation, so how the body is split into chunks does not matter.
pub proof fn lemma_chunks_compose(t: Transfer, a: Seq<u8>, b: Seq<u8>)
    requires
        t.downloaded + a.len() + b.len() <= u64::MAX,
    ensures
        after_chunk(after_chunk(t, a), b) == after_chunk(t, a + b),
{
    assert(t.received@ + a + b =~= t.received@ + (a + b));
}

/// Downloading in two calls, a fresh one that stopped after the first `k`
/// bytes and then a resumed one from the file it left, produces the same
/// file as one complete download, and the second call reports the full size
/// of the file. This holds whether the server honours the range request
/// (206 with the rest) or ignores it (200 with everything).
pub proof fn lemma_resume_matches_full_download(content: Seq<u8>, k: nat, honours_range: bool)
    requires
        k <= content.len(),
        content.len() <= u64::MAX,
    ensures
        ({
            let first = after_chunk(
                opened(resume_offset(true, None), 200, Some(content.len() as u64)),
                content.subrange(0, k as int),
            );
            let on_disk = file_after(Seq::empty(), first);
            let from = resume_offset(true, Some(on_disk.len() as u64));
            let second = if from > 0 && honours_range {
                after_chunk(
                    opened(from, 206, Some((content.len() - from) as u64)),
                    content.subrange(from as int, content.len() as int),
                )
            } else {
                after_chunk(opened(from, 200, Some(content.len() as u64)), content)
            };
            &&& file_after(on_disk, second) == content
            &&& second.downloaded == content.len()
        }),
{
    let first = after_chunk(
        opened(resume_offset(true, None), 200, Some(content.len() as u64)),
        content.subrange(0, k as int),
    );
    let on_disk = file_after(Seq::empty(), first);
    assert(on_disk =~= content.subrange(0, k as int));
    let from = resume_offset(true, Some(on_disk.len() as u64));
    assert(on_disk + content.subrange(from as int, content.len() as int) =~= content);
    assert(Seq::<u8>::empty() + content =~= content);
}

/// A fresh download whose callback cancels after the first chunk ends in
/// success, reporting exactly the length of that chunk.
pub proof fn lemma_cancel_after_first_chunk(
    status: u16,
    content_length: Option<u64>,
    chunk: Seq<u8>,
    r: DownloadResult,
)
    requires
        status_ok(status),
        chunk.len() <= u64::MAX,
        succeeded_with(r, after_chunk(opened(0, status, content_length), chunk).downloaded),
    ensures
        r.success,
        r.bytes_downloaded == chunk.len(),
        r.error_message is None,
{
}

} // verus!
