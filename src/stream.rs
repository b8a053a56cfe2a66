//! Decisions of the callback streams that let host byte streams stand in for native streams.
//!
//! The native library pulls from a reader through read, seek, tell and size callbacks, and pushes
//! a finished document through a write callback. Each callback alternates host I/O with a
//! decision; the decisions live here, as functions from what the host returned to what the
//! callback answers, and the callbacks themselves only perform the I/O they are told to.
use crate::error::{from, is_known_status, translate, Error, FILE_IO_ERROR, STREAM_EOF, SUCCESS};
use vstd::prelude::*;

verus! {

/// The answer a stream callback gives the native library.
#[derive(Clone, Copy, Debug, PartialEq, Eq)]
pub enum StreamReply {
    /// The operation succeeded.
    Success,
    /// The source ended before a read was filled; this is reported, not raised as an error.
    EndOfStream,
    /// The host stream failed: the callback raises a file I/O error with this detail, the host's
    /// OS error code.
    FileIoFailure(u64),
}

impl StreamReply {
    /// The native status of the reply.
    pub open spec fn spec_status(self) -> u64 {
        match self {
            StreamReply::Success => SUCCESS,
            StreamReply::EndOfStream => STREAM_EOF,
            StreamReply::FileIoFailure(_) => FILE_IO_ERROR,
        }
    }

    /// Returns the native status of the reply.
    pub fn status(&self) -> (r: u64)
        ensures
            r == self.spec_status(),
    {
        match self {
            StreamReply::Success => SUCCESS,
            StreamReply::EndOfStream => STREAM_EOF,
            StreamReply::FileIoFailure(_) => FILE_IO_ERROR,
        }
    }

    /// The detail that goes with the reply's status.
    pub open spec fn spec_detail(self) -> u64 {
        match self {
            StreamReply::FileIoFailure(d) => d,
            _ => 0,
        }
    }
}

/// Returns what a callback's reply surfaces as once the native library hands its status and
/// detail back through the guard: success, `StreamEof`, or `FileIo` with the host's code.
pub fn reply_result(reply: StreamReply) -> (r: Result<(), Error>)
    ensures
        r == translate(reply.spec_status(), reply.spec_detail()),
        reply is Success ==> r is Ok,
        reply is EndOfStream ==> r == Err::<(), Error>(Error::StreamEof),
        reply matches StreamReply::FileIoFailure(d) ==> r == Err::<(), Error>(Error::FileIo(d)),
{
    let detail = match reply {
        StreamReply::FileIoFailure(d) => d,
        _ => 0,
    };
    from(reply.status(), detail)
}

/// The detail recorded for a host I/O failure: its raw OS error code, or 0 where it has none.
pub open spec fn os_error_detail(code: Option<i32>) -> u64 {
    match code {
        Some(c) => c as u64,
        None => 0,
    }
}

/// Returns the detail recorded for a host I/O failure whose raw OS error code is `code`.
pub fn io_error_detail(code: Option<i32>) -> (detail: u64)
    ensures
        detail == os_error_detail(code),
        code matches Some(c) ==> (c >= 0 ==> detail == c),
        code is None ==> detail == 0,
{
    match code {
        Some(c) => c as u64,
        None => 0,
    }
}

/// Progress of one native read request that is being filled from the host source.
#[derive(Clone, Copy, Debug, PartialEq, Eq)]
pub struct ReadFill {
    /// The number of bytes the native side asked for.
    pub requested: usize,
    /// The number of bytes already placed at the front of the native buffer.
    pub filled: usize,
    /// The position of the host source, advanced by each chunk read.
    pub pos: u64,
}

impl ReadFill {
    pub open spec fn wf(self) -> bool {
        self.filled <= self.requested
    }
}

/// How a native read request ends.
#[derive(Clone, Copy, Debug, PartialEq, Eq)]
pub struct ReadDone {
    /// The answer to the native side.
    pub reply: StreamReply,
    /// The number of bytes reported as read.
    pub size: usize,
    /// The position of the host source afterwards.
    pub pos: u64,
}

/// What the read callback does next.
#[derive(Clone, Copy, Debug, PartialEq, Eq)]
pub enum ReadStep {
    /// Read from the host source into the native buffer from `filled` up to `requested`.
    Continue(ReadFill),
    /// Report to the native side.
    Done(ReadDone),
}

/// The first step of a read of `requested` bytes from a source at `pos`.
pub open spec fn spec_read_start(requested: usize, pos: u64) -> ReadStep {
    if requested == 0 {
        ReadStep::Done(ReadDone { reply: StreamReply::Success, size: 0, pos })
    } else {
        ReadStep::Continue(ReadFill { requested, filled: 0, pos })
    }
}

/// The step after the host source answered a read with `host`: `Ok(n)` for `n` bytes, where 0
/// means the end of the source, or `Err(detail)` for a failure.
pub open spec fn spec_read_next(fill: ReadFill, host: Result<usize, u64>) -> ReadStep {
    match host {
        Ok(n) => if n == 0 {
            ReadStep::Done(ReadDone { reply: StreamReply::EndOfStream, size: fill.filled, pos: fill.pos })
        } else {
            let next = ReadFill {
                requested: fill.requested,
                filled: (fill.filled + n) as usize,
                pos: (fill.pos + n) as u64,
            };
            if next.filled == fill.requested {
                ReadStep::Done(ReadDone { reply: StreamReply::Success, size: fill.requested, pos: next.pos })
            } else {
                ReadStep::Continue(next)
            }
        },
        Err(detail) => ReadStep::Done(
            ReadDone { reply: StreamReply::FileIoFailure(detail), size: 0, pos: fill.pos },
        ),
    }
}

/// Begins a native read of `requested` bytes from a host source at `pos`.
pub fn read_start(requested: usize, pos: u64) -> (step: ReadStep)
    ensures
        step == spec_read_start(requested, pos),
        step matches ReadStep::Continue(fill) ==> fill.wf() && fill.filled < fill.requested,
{
    if requested == 0 {
        ReadStep::Done(ReadDone { reply: StreamReply::Success, size: 0, pos })
    } else {
        ReadStep::Continue(ReadFill { requested, filled: 0, pos })
    }
}

/// Takes in what one read of the host source returned and decides whether to read again or to
/// report: a full buffer is a success, the end of the source reports the bytes read so far with
/// an end-of-stream reply, and a host failure reports nothing read and a file I/O error.
pub fn read_next(fill: ReadFill, host: Result<usize, u64>) -> (step: ReadStep)
    requires
        fill.wf(),
        fill.filled < fill.requested,
        host matches Ok(n) ==> n <= fill.requested - fill.filled && fill.pos + n <= u64::MAX,
    ensures
        step == spec_read_next(fill, host),
        step matches ReadStep::Continue(next) ==> next.wf() && next.filled < next.requested
            && next.requested == fill.requested,
{
    match host {
        Ok(n) => if n == 0 {
            ReadStep::Done(ReadDone { reply: StreamReply::EndOfStream, size: fill.filled, pos: fill.pos })
        } else {
            let next = ReadFill {
                requested: fill.requested,
                filled: fill.filled + n,
                pos: fill.pos + n as u64,
            };
            if next.filled == fill.requested {
                ReadStep::Done(ReadDone { reply: StreamReply::Success, size: fill.requested, pos: next.pos })
            } else {
                ReadStep::Continue(next)
            }
        },
        Err(detail) => ReadStep::Done(
            ReadDone { reply: StreamReply::FileIoFailure(detail), size: 0, pos: fill.pos },
        ),
    }
}

/// The step a read reaches from `step` when the host source answers with `hosts`, in order.
pub open spec fn read_run(step: ReadStep, hosts: Seq<Result<usize, u64>>) -> ReadStep
    decreases hosts.len(),
{
    if hosts.len() == 0 {
        step
    } else {
        match step {
            ReadStep::Continue(fill) => read_run(spec_read_next(fill, hosts[0]), hosts.drop_first()),
            ReadStep::Done(_) => step,
        }
    }
}

/// The number of bytes that a sequence of host answers hands over.
pub open spec fn delivered(hosts: Seq<Result<usize, u64>>) -> int
    decreases hosts.len(),
{
    if hosts.len() == 0 {
        0
    } else {
        (match hosts[0] {
            Ok(n) => n as int,
            Err(_) => 0,
        }) + delivered(hosts.drop_first())
    }
}

/// Host answers of a source that hands over data in non-empty chunks, then reports its end.
pub open spec fn runs_out(hosts: Seq<Result<usize, u64>>) -> bool {
    &&& hosts.len() > 0
    &&& hosts.last() == Ok::<usize, u64>(0)
    &&& forall|i: int| 0 <= i < hosts.len() - 1 ==> (#[trigger] hosts[i] matches Ok(n) && n > 0)
}

proof fn lemma_run_out_from(fill: ReadFill, hosts: Seq<Result<usize, u64>>)
    requires
        fill.wf(),
        runs_out(hosts),
        fill.filled + delivered(hosts) < fill.requested,
        fill.pos + delivered(hosts) <= u64::MAX,
    ensures
        read_run(ReadStep::Continue(fill), hosts) == ReadStep::Done(
            ReadDone {
                reply: StreamReply::EndOfStream,
                size: (fill.filled + delivered(hosts)) as usize,
                pos: (fill.pos + delivered(hosts)) as u64,
            },
        ),
    decreases hosts.len(),
{
    let rest = hosts.drop_first();
    if hosts.len() == 1 {
        assert(hosts[0] == Ok::<usize, u64>(0));
        assert(delivered(rest) == 0);
    } else {
        assert(hosts[0] matches Ok(n) && n > 0);
        assert forall|i: int| 0 <= i < rest.len() - 1 implies (#[trigger] rest[i] matches Ok(n)
            && n > 0) by {
            assert(rest[i] == hosts[i + 1]);
        }
        assert(rest.last() == hosts.last());
        assert(delivered(rest) >= 0) by {
            lemma_delivered_nonnegative(rest);
        }
        if let Ok(n) = hosts[0] {
            let next = ReadFill {
                requested: fill.requested,
                filled: (fill.filled + n) as usize,
                pos: (fill.pos + n) as u64,
            };
            assert(spec_read_next(fill, hosts[0]) == ReadStep::Continue(next));
            lemma_run_out_from(next, rest);
        }
    }
}

proof fn lemma_delivered_nonnegative(hosts: Seq<Result<usize, u64>>)
    ensures
        delivered(hosts) >= 0,
    decreases hosts.len(),
{
    if hosts.len() > 0 {
        lemma_delivered_nonnegative(hosts.drop_first());
    }
}

/// A read that asks for more than the source holds ends with the bytes that the source had and
/// an end-of-stream reply, not with a failure, however the source splits its data into chunks.
pub proof fn lemma_short_source_reports_eof(
    requested: usize,
    pos: u64,
    hosts: Seq<Result<usize, u64>>,
)
    requires
        runs_out(hosts),
        delivered(hosts) < requested,
        pos + delivered(hosts) <= u64::MAX,
    ensures
        read_run(spec_read_start(requested, pos), hosts) == ReadStep::Done(
            ReadDone {
                reply: StreamReply::EndOfStream,
                size: delivered(hosts) as usize,
                pos: (pos + delivered(hosts)) as u64,
            },
        ),
{
    lemma_delivered_nonnegative(hosts);
    lemma_run_out_from(ReadFill { requested, filled: 0, pos }, hosts);
}

/// Where a seek callback moves the host source.
#[derive(Clone, Copy, Debug, PartialEq, Eq)]
pub enum SeekTarget {
    /// To an absolute position.
    Start(u64),
    /// Relative to the current position.
    Current(i64),
    /// Relative to the end of the source.
    End(i64),
}

/// The native seek origins (`HPDF_WhenceMode`): 0 is the start, 1 the current position and 2
/// the end.
pub open spec fn is_whence_code(whence: u32) -> bool {
    whence < 3
}

/// Maps a native seek request to the host seek it stands for. A negative absolute offset is
/// reinterpreted as an unsigned position, as a two's-complement cast does.
pub fn seek_target(offset: i32, whence: u32) -> (target: SeekTarget)
    requires
        is_whence_code(whence),
    ensures
        whence == 0 ==> target == SeekTarget::Start(offset as u64),
        whence == 0 && offset >= 0 ==> target == SeekTarget::Start(offset as u64) && offset
            == target->Start_0,
        whence == 1 ==> target == SeekTarget::Current(offset as i64),
        whence == 2 ==> target == SeekTarget::End(offset as i64),
{
    match whence {
        0 => SeekTarget::Start(offset as u64),
        1 => SeekTarget::Current(offset as i64),
        _ => SeekTarget::End(offset as i64),
    }
}

/// What the seek callback records and answers once the host seek returned `host`: the new
/// absolute position on success; on failure the position is kept and a file I/O error raised.
pub fn seek_done(pos: u64, host: Result<u64, u64>) -> (r: (u64, StreamReply))
    ensures
        host matches Ok(p) ==> r == (p, StreamReply::Success),
        host matches Err(d) ==> r == (pos, StreamReply::FileIoFailure(d)),
{
    match host {
        Ok(p) => (p, StreamReply::Success),
        Err(d) => (pos, StreamReply::FileIoFailure(d)),
    }
}

/// The position that the tell callback reports: the tracked position, cut to the native 32-bit
/// signed integer.
pub fn tell_position(pos: u64) -> (r: i32)
    ensures
        r == pos as i32,
        pos <= i32::MAX ==> r == pos,
{
    pos as i32
}

/// The answer of the size callback.
#[derive(Clone, Copy, Debug, PartialEq, Eq)]
pub struct SizeReply {
    /// The size reported to the native side.
    pub size: u32,
    /// The OS error code of a failure to restore the position, which the callback records on the
    /// native stream as a file I/O error.
    pub failure: Option<u64>,
}

/// Decides the answer of the size callback, which seeks to the end of the source to measure it
/// (`end`: the position reached, or the detail of a failure) and then seeks back to where it was
/// (`restore`). A failed measurement counts as size 0; a failed restore reports size 0 and records
/// the failure. The size is cut to the native 32-bit unsigned integer.
pub fn size_reply(end: Result<u64, u64>, restore: Result<u64, u64>) -> (r: SizeReply)
    ensures
        restore matches Err(d) ==> r == (SizeReply { size: 0, failure: Some(d) }),
        restore is Ok ==> (end matches Ok(len) ==> r == (SizeReply {
            size: len as u32,
            failure: None,
        }) && (len <= u32::MAX ==> r.size == len)),
        restore is Ok && end is Err ==> r == (SizeReply { size: 0, failure: None }),
{
    match restore {
        Err(d) => SizeReply { size: 0, failure: Some(d) },
        Ok(_) => match end {
            Ok(len) => SizeReply { size: len as u32, failure: None },
            Err(_) => SizeReply { size: 0, failure: None },
        },
    }
}

/// The answer of the write callback, which hands the whole buffer to the host sink: success, or
/// a file I/O error with the detail of the sink's failure.
pub open spec fn spec_write_reply(host: Result<(), u64>) -> StreamReply {
    match host {
        Ok(()) => StreamReply::Success,
        Err(d) => StreamReply::FileIoFailure(d),
    }
}

/// Returns the answer of the write callback once the host sink returned `host`.
pub fn write_reply(host: Result<(), u64>) -> (r: StreamReply)
    ensures
        r == spec_write_reply(host),
{
    match host {
        Ok(()) => StreamReply::Success,
        Err(d) => StreamReply::FileIoFailure(d),
    }
}

/// A sink that fails a write with the OS error `code` makes the save fail with a file I/O error
/// that carries `code`: the write callback raises the file I/O status with that detail, and the
/// guard, reading the status and detail back from the handle, translates them into
/// `Error::FileIo(code)`.
pub proof fn lemma_failing_sink_reports_its_code(code: i32)
    requires
        code >= 0,
    ensures
        spec_write_reply(Err(os_error_detail(Some(code)))) == StreamReply::FileIoFailure(
            code as u64,
        ),
        spec_write_reply(Err(os_error_detail(Some(code)))).spec_status() == FILE_IO_ERROR,
        is_known_status(FILE_IO_ERROR),
        translate(FILE_IO_ERROR, code as u64) == Err::<(), Error>(Error::FileIo(code as u64)),
        ({
            let reply = spec_write_reply(Err(os_error_detail(Some(code))));
            translate(reply.spec_status(), reply.spec_detail()) == Err::<(), Error>(
                Error::FileIo(code as u64),
            )
        }),
{
}

} // verus!
