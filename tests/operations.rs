use named_pipe::operation::{read_start, write_start};
use named_pipe::os::{ERROR_IO_PENDING, WAIT_TIMEOUT};
use named_pipe::{OpState, PipeError, ReadHandle, WriteHandle};

#[test]
fn read_start_outcomes() {
    assert_eq!(read_start(true, 5, 0), Ok(OpState::Completed(5)));
    assert_eq!(read_start(true, 0, 0), Err(PipeError::Os(0)));
    assert_eq!(read_start(false, 0, ERROR_IO_PENDING), Ok(OpState::Pending));
    assert_eq!(read_start(false, 0, 109), Err(PipeError::Os(109)));
}

#[test]
fn write_start_outcomes() {
    assert_eq!(write_start(true, 10, 10, 0), Ok(OpState::Completed(10)));
    assert_eq!(write_start(false, 0, 10, ERROR_IO_PENDING), Ok(OpState::Pending));
    assert_eq!(write_start(false, 0, 10, 232), Err(PipeError::Os(232)));
}

#[test]
fn short_write_at_issue_is_error() {
    assert_eq!(
        write_start(true, 4, 10, 0),
        Err(PipeError::ShortWrite { written: 4, requested: 10 })
    );
    assert!(WriteHandle::start(true, 9, 10, 0, Some(())).is_err());
}

#[test]
fn short_write_at_completion_is_error() {
    let h: WriteHandle<()> = WriteHandle::start(false, 0, 10, ERROR_IO_PENDING, None).unwrap();
    assert!(h.pending());
    assert_eq!(h.requested(), 10);
    assert_eq!(h.wait(Ok(Some(7))), Err(PipeError::ShortWrite { written: 7, requested: 10 }));
}

#[test]
fn write_completion_hands_back_owned() {
    let h = WriteHandle::start(false, 0, 4, ERROR_IO_PENDING, Some(("server", vec![1u8, 2, 3, 4])))
        .unwrap();
    let (n, owned) = h.wait(Ok(Some(4))).unwrap();
    assert_eq!(n, 4);
    assert_eq!(owned, Some(("server", vec![1u8, 2, 3, 4])));
}

#[test]
fn write_completed_at_issue_ignores_outcome() {
    let h: WriteHandle<()> = WriteHandle::start(true, 10, 10, 0, None).unwrap();
    assert!(!h.pending());
    assert_eq!(h.wait(Err(PipeError::Os(6))), Ok((10, None)));
}

#[test]
fn read_completed_at_issue() {
    let h = ReadHandle::start(true, 5, 0, Some(7u32)).unwrap();
    assert!(!h.pending());
    assert_eq!(h.wait(Ok(None)), Ok((5, Some(7u32))));
}

#[test]
fn read_pending_then_finished() {
    let h: ReadHandle<()> = ReadHandle::start(false, 0, ERROR_IO_PENDING, None).unwrap();
    assert!(h.pending());
    assert_eq!(h.wait(Ok(Some(5))), Ok((5, None)));
}

#[test]
fn read_of_zero_bytes_is_error() {
    let h: ReadHandle<()> = ReadHandle::start(false, 0, ERROR_IO_PENDING, None).unwrap();
    assert_eq!(h.wait(Ok(Some(0))), Err(PipeError::EmptyRead));
}

#[test]
fn pending_request_failures() {
    let h: ReadHandle<()> = ReadHandle::start(false, 0, ERROR_IO_PENDING, None).unwrap();
    assert_eq!(h.wait(Err(PipeError::Os(109))), Err(PipeError::Os(109)));
    let h: ReadHandle<()> = ReadHandle::start(false, 0, ERROR_IO_PENDING, None).unwrap();
    assert_eq!(h.wait(Ok(None)), Err(PipeError::UnexpectedWaitStatus(WAIT_TIMEOUT)));
    let h: WriteHandle<()> = WriteHandle::start(false, 0, 3, ERROR_IO_PENDING, None).unwrap();
    assert_eq!(h.wait(Ok(None)), Err(PipeError::UnexpectedWaitStatus(WAIT_TIMEOUT)));
}

#[test]
fn failed_issue_gives_no_request() {
    assert!(matches!(ReadHandle::start(false, 0, 5, Some(1u8)), Err(PipeError::Os(5))));
    assert!(matches!(WriteHandle::start(false, 0, 1, 5, Some(1u8)), Err(PipeError::Os(5))));
}
