use named_pipe::os::{
    ERROR_ACCESS_DENIED, ERROR_IO_PENDING, ERROR_PIPE_BUSY, ERROR_PIPE_CONNECTED,
    FILE_READ_ATTRIBUTES, FILE_WRITE_ATTRIBUTES, GENERIC_READ, GENERIC_WRITE, WAIT_TIMEOUT,
};
use named_pipe::{
    connect_start, ClientAction, ClientConnect, ClientEvent, ConnectStart, ConnectingServer,
    PipeClient, PipeError, ReadHandle, WriteHandle,
};

#[test]
fn connect_start_outcomes() {
    assert_eq!(connect_start(false, ERROR_IO_PENDING), Ok(ConnectStart::Pending));
    assert_eq!(connect_start(false, ERROR_PIPE_CONNECTED), Ok(ConnectStart::Connected));
    assert_eq!(connect_start(false, 232), Err(PipeError::Os(232)));
    assert_eq!(connect_start(true, 0), Err(PipeError::Os(0)));
}

#[test]
fn connecting_server_timeout_hands_back() {
    let cs = ConnectingServer::new(42u32, ConnectStart::Pending);
    assert!(cs.pending());
    let cs = match cs.wait_ms(Ok(None)) {
        Ok(Err(cs)) => cs,
        _ => panic!("expected the instance back"),
    };
    assert_eq!(*cs.io(), 42);
    assert!(cs.pending());
    let server = match cs.wait_ms(Ok(Some(0))) {
        Ok(Ok(s)) => s,
        _ => panic!("expected a connected server"),
    };
    assert_eq!(*server.io(), 42);
}

#[test]
fn connecting_server_connected_at_issue() {
    let cs = ConnectingServer::new(7u8, ConnectStart::Connected);
    assert!(!cs.pending());
    let server = cs.wait(Err(PipeError::Os(6))).ok().unwrap();
    assert_eq!(*server.io(), 7);
}

#[test]
fn connecting_server_wait_failures() {
    let cs = ConnectingServer::new(1u8, ConnectStart::Pending);
    assert!(matches!(cs.wait(Ok(None)), Err(PipeError::UnexpectedWaitStatus(WAIT_TIMEOUT))));
    let cs = ConnectingServer::new(1u8, ConnectStart::Pending);
    assert!(matches!(cs.wait_ms(Err(PipeError::Os(109))), Err(PipeError::Os(109))));
}

#[test]
fn server_unwrap_relistens() {
    let cs = ConnectingServer::new(3u16, ConnectStart::Connected);
    let mut server = cs.wait(Ok(None)).ok().unwrap();
    *server.io_mut() = 4;
    let cs = server.unwrap(Ok(ConnectStart::Pending)).ok().unwrap();
    assert!(cs.pending());
    assert_eq!(*cs.io(), 4);
    let server = cs.wait(Ok(Some(0))).ok().unwrap();
    assert!(matches!(server.unwrap(Err(PipeError::Os(233))), Err(PipeError::Os(233))));
}

#[test]
fn client_busy_waits_once() {
    let mut c = ClientConnect::new(1000);
    assert_eq!(c.access(), GENERIC_READ | GENERIC_WRITE);
    assert!(!c.waiting());
    assert_eq!(c.step(ClientEvent::OpenFailed(ERROR_PIPE_BUSY)), ClientAction::WaitForInstance(1000));
    assert!(c.waiting());
    assert_eq!(c.step(ClientEvent::WaitFinished(true)), ClientAction::Open);
    assert!(!c.waiting());
    assert_eq!(c.access(), GENERIC_READ | GENERIC_WRITE);
    assert_eq!(
        c.step(ClientEvent::OpenFailed(ERROR_PIPE_BUSY)),
        ClientAction::Fail(PipeError::Os(ERROR_PIPE_BUSY))
    );
}

#[test]
fn client_busy_wait_times_out() {
    let mut c = ClientConnect::new(0xFFFF_FFFF);
    assert_eq!(
        c.step(ClientEvent::OpenFailed(ERROR_PIPE_BUSY)),
        ClientAction::WaitForInstance(0xFFFF_FFFF)
    );
    assert_eq!(
        c.step(ClientEvent::WaitFinished(false)),
        ClientAction::Fail(PipeError::Os(ERROR_PIPE_BUSY))
    );
}

#[test]
fn client_access_denied_escalation() {
    let mut c = ClientConnect::new(0);
    assert_eq!(c.step(ClientEvent::OpenFailed(ERROR_ACCESS_DENIED)), ClientAction::Open);
    assert_eq!(c.access(), GENERIC_READ | FILE_WRITE_ATTRIBUTES);
    assert_eq!(c.step(ClientEvent::OpenFailed(ERROR_ACCESS_DENIED)), ClientAction::Open);
    assert_eq!(c.access(), GENERIC_WRITE | FILE_READ_ATTRIBUTES);
    assert_eq!(
        c.step(ClientEvent::OpenFailed(ERROR_ACCESS_DENIED)),
        ClientAction::Fail(PipeError::Os(ERROR_ACCESS_DENIED))
    );
}

#[test]
fn client_denied_after_wait_escalates_again() {
    let mut c = ClientConnect::new(5);
    assert_eq!(c.step(ClientEvent::OpenFailed(ERROR_ACCESS_DENIED)), ClientAction::Open);
    assert_eq!(c.step(ClientEvent::OpenFailed(ERROR_PIPE_BUSY)), ClientAction::WaitForInstance(5));
    assert_eq!(c.step(ClientEvent::WaitFinished(true)), ClientAction::Open);
    assert_eq!(c.access(), GENERIC_READ | GENERIC_WRITE);
    assert_eq!(c.step(ClientEvent::OpenFailed(ERROR_ACCESS_DENIED)), ClientAction::Open);
    assert_eq!(c.step(ClientEvent::OpenFailed(ERROR_ACCESS_DENIED)), ClientAction::Open);
    assert_eq!(
        c.step(ClientEvent::OpenFailed(ERROR_ACCESS_DENIED)),
        ClientAction::Fail(PipeError::Os(ERROR_ACCESS_DENIED))
    );
}

#[test]
fn client_other_error_fails_at_once() {
    let mut c = ClientConnect::new(0);
    assert_eq!(c.step(ClientEvent::OpenFailed(2)), ClientAction::Fail(PipeError::Os(2)));
}

#[test]
fn client_holds_its_resources() {
    let mut client = PipeClient::new(vec![1u8]);
    client.io_mut().push(2);
    assert_eq!(client.io(), &vec![1u8, 2]);
}

// The server writes ten bytes, the client reads them in two halves, the server is
// cycled back to listening and the same exchange happens again.
#[test]
fn round_trip_decisions() {
    let mut cs = ConnectingServer::new("instance", ConnectStart::Pending);
    for _ in 0..2 {
        let mut server = cs.wait(Ok(Some(0))).ok().unwrap();
        let w: WriteHandle<()> = WriteHandle::start(false, 0, 10, ERROR_IO_PENDING, None).unwrap();
        for _ in 0..2 {
            let r: ReadHandle<()> = ReadHandle::start(true, 5, 0, None).unwrap();
            assert_eq!(r.wait(Ok(None)), Ok((5, None)));
        }
        assert_eq!(w.wait(Ok(Some(10))), Ok((10, None)));
        let _ = server.io_mut();
        cs = server.unwrap(connect_start(false, ERROR_IO_PENDING)).ok().unwrap();
        assert!(cs.pending());
    }
}
