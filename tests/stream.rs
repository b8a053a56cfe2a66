use libharu::error::{from, FILE_IO_ERROR, STREAM_EOF, SUCCESS};
use libharu::stream::{
    io_error_detail, read_next, reply_result, read_start, seek_done, seek_target, size_reply, tell_position,
    write_reply, ReadDone, ReadFill, ReadStep, SeekTarget, SizeReply, StreamReply,
};
use libharu::Error;

fn run_read(requested: usize, pos: u64, hosts: &[Result<usize, u64>]) -> ReadDone {
    let mut step = read_start(requested, pos);
    for host in hosts {
        match step {
            ReadStep::Continue(fill) => step = read_next(fill, *host),
            ReadStep::Done(_) => break,
        }
    }
    match step {
        ReadStep::Done(done) => done,
        ReadStep::Continue(fill) => panic!("read left unfinished at {:?}", fill),
    }
}

#[test]
fn short_source_reports_bytes_and_end_of_stream() {
    let done = run_read(10, 0, &[Ok(3), Ok(4), Ok(0)]);
    assert_eq!(done, ReadDone { reply: StreamReply::EndOfStream, size: 7, pos: 7 });
    assert_eq!(done.reply.status(), STREAM_EOF);
}

#[test]
fn empty_source_reports_end_of_stream_at_once() {
    let done = run_read(4, 20, &[Ok(0)]);
    assert_eq!(done, ReadDone { reply: StreamReply::EndOfStream, size: 0, pos: 20 });
}

#[test]
fn filled_read_succeeds() {
    let done = run_read(8, 100, &[Ok(5), Ok(3)]);
    assert_eq!(done, ReadDone { reply: StreamReply::Success, size: 8, pos: 108 });
    assert_eq!(done.reply.status(), SUCCESS);
}

#[test]
fn zero_length_read_succeeds_without_reading() {
    let step = read_start(0, 9);
    assert_eq!(step, ReadStep::Done(ReadDone { reply: StreamReply::Success, size: 0, pos: 9 }));
}

#[test]
fn failed_read_reports_nothing_and_file_io() {
    let done = run_read(10, 0, &[Ok(2), Err(5)]);
    assert_eq!(done, ReadDone { reply: StreamReply::FileIoFailure(5), size: 0, pos: 2 });
    assert_eq!(done.reply.status(), FILE_IO_ERROR);
}

#[test]
fn read_keeps_going_until_filled() {
    let fill = ReadFill { requested: 6, filled: 1, pos: 1 };
    assert_eq!(
        read_next(fill, Ok(2)),
        ReadStep::Continue(ReadFill { requested: 6, filled: 3, pos: 3 })
    );
}

#[test]
fn seek_maps_each_origin() {
    assert_eq!(seek_target(12, 0), SeekTarget::Start(12));
    assert_eq!(seek_target(-5, 1), SeekTarget::Current(-5));
    assert_eq!(seek_target(-3, 2), SeekTarget::End(-3));
    assert_eq!(seek_target(-1, 0), SeekTarget::Start(u64::MAX));
}

#[test]
fn seek_records_position_or_raises() {
    assert_eq!(seek_done(4, Ok(40)), (40, StreamReply::Success));
    assert_eq!(seek_done(4, Err(22)), (4, StreamReply::FileIoFailure(22)));
}

#[test]
fn tell_reports_tracked_position() {
    assert_eq!(tell_position(0), 0);
    assert_eq!(tell_position(1234), 1234);
    assert_eq!(tell_position((1u64 << 32) + 3), 3);
}

#[test]
fn size_measures_and_restores() {
    assert_eq!(size_reply(Ok(300), Ok(12)), SizeReply { size: 300, failure: None });
    assert_eq!(size_reply(Err(5), Ok(12)), SizeReply { size: 0, failure: None });
    assert_eq!(size_reply(Ok(300), Err(9)), SizeReply { size: 0, failure: Some(9) });
    assert_eq!(size_reply(Ok((1u64 << 32) + 8), Ok(0)), SizeReply { size: 8, failure: None });
}

#[test]
fn write_reply_passes_sink_failure() {
    assert_eq!(write_reply(Ok(())), StreamReply::Success);
    assert_eq!(write_reply(Err(7)), StreamReply::FileIoFailure(7));
}

#[test]
fn os_error_detail_defaults_to_zero() {
    assert_eq!(io_error_detail(Some(7)), 7);
    assert_eq!(io_error_detail(None), 0);
}

#[test]
fn failing_sink_surfaces_file_io_with_code_seven() {
    let detail = io_error_detail(Some(7));
    let reply = write_reply(Err(detail));
    assert_eq!(reply.status(), FILE_IO_ERROR);
    assert_eq!(from(reply.status(), detail), Err(Error::FileIo(7)));
}

#[test]
fn replies_surface_as_errors() {
    assert_eq!(reply_result(StreamReply::Success), Ok(()));
    assert_eq!(reply_result(StreamReply::EndOfStream), Err(Error::StreamEof));
    assert_eq!(reply_result(StreamReply::FileIoFailure(7)), Err(Error::FileIo(7)));
}
