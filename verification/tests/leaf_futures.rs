use learning_async::example::{example_event_step, ExampleStep};
use learning_async::event::{FdType, MyEventData};
use learning_async::io::{FdRead, SysError};
use learning_async::sleep::{SleepState, SleepStep, MAX_NANOS};
use learning_async::tcp::{AddressFamily, ConnectAction, ConnectEvent, Read, ReadStep, TcpStreamConnect};

#[test]
fn sleep_starts_then_waits_then_ends() {
    let mut s = SleepState::new(20_000_000);
    assert!(!s.expired(u128::from(u64::MAX)));
    assert_eq!(s.poll(1_000), SleepStep::Start);
    assert_eq!(s.poll(1_000), SleepStep::Pending);
    assert_eq!(s.poll(20_000_999), SleepStep::Pending);
    assert_eq!(s.poll(20_001_000), SleepStep::Ready);
    assert_eq!(s.poll(30_000_000), SleepStep::Ready);
    assert_eq!(s.duration_nanos(), 20_000_000);
}

#[test]
fn zero_sleep_still_pends_once() {
    let mut s = SleepState::new(0);
    assert_eq!(s.poll(7), SleepStep::Start);
    assert_eq!(s.poll(7), SleepStep::Ready);
}

#[test]
fn max_duration_constant_matches_std() {
    assert_eq!(MAX_NANOS, std::time::Duration::MAX.as_nanos());
    let mut s = SleepState::new(MAX_NANOS);
    assert_eq!(s.poll(MAX_NANOS), SleepStep::Start);
    assert_eq!(s.poll(MAX_NANOS), SleepStep::Pending);
}

#[test]
fn connect_creates_socket_then_connects() {
    let mut c = TcpStreamConnect::new(AddressFamily::Inet6);
    assert_eq!(c.step(ConnectEvent::Polled), ConnectAction::CreateSocket(AddressFamily::Inet6));
    assert_eq!(c.step(ConnectEvent::SocketCreated(Ok(9))), ConnectAction::Connect(9));
    assert_eq!(c.current_socket(), Some(9));
    assert_eq!(
        c.step(ConnectEvent::ConnectDone(Err(SysError::InProgress))),
        ConnectAction::Wait(9)
    );
    assert_eq!(c.step(ConnectEvent::Polled), ConnectAction::Connect(9));
    assert_eq!(c.step(ConnectEvent::ConnectDone(Ok(()))), ConnectAction::Ready(Ok(9)));
}

#[test]
fn connect_errors_finish() {
    let mut c = TcpStreamConnect::new(AddressFamily::Inet);
    assert_eq!(c.step(ConnectEvent::Polled), ConnectAction::CreateSocket(AddressFamily::Inet));
    assert_eq!(
        c.step(ConnectEvent::SocketCreated(Err(SysError::Other(24)))),
        ConnectAction::Ready(Err(SysError::Other(24)))
    );
    assert_eq!(c.current_socket(), None);
    c.step(ConnectEvent::SocketCreated(Ok(4)));
    assert_eq!(
        c.step(ConnectEvent::ConnectDone(Err(SysError::Other(111)))),
        ConnectAction::Ready(Err(SysError::Other(111)))
    );
}

#[test]
fn read_fills_buffer_or_stops_at_end() {
    let mut r = Read::new(10);
    assert_eq!(r.on_recv(Ok(4)), ReadStep::Recv(4));
    assert_eq!(r.on_recv(Err(SysError::WouldBlock)), ReadStep::Wait);
    assert_eq!(r.bytes_read(), 4);
    assert_eq!(r.on_recv(Ok(6)), ReadStep::Ready(Ok(10)));

    let mut r = Read::new(10);
    assert_eq!(r.on_recv(Ok(3)), ReadStep::Recv(3));
    assert_eq!(r.on_recv(Ok(0)), ReadStep::Ready(Ok(3)));

    let mut r = Read::new(10);
    assert_eq!(
        r.on_recv(Err(SysError::Other(104))),
        ReadStep::Ready(Err(SysError::Other(104)))
    );

    let mut r = Read::new(0);
    assert_eq!(r.on_recv(Ok(0)), ReadStep::Ready(Ok(0)));
}

#[test]
fn example_loop_steps() {
    let stdin = MyEventData { fd: 0, kind: FdType::Terminal };
    assert_eq!(example_event_step(stdin, &FdRead::Closed), ExampleStep::RemoveFd);
    assert_eq!(example_event_step(stdin, &FdRead::Failed(SysError::WouldBlock)), ExampleStep::Skip);
    assert_eq!(example_event_step(stdin, &FdRead::Read(b"stop\n".to_vec())), ExampleStep::Stop);
    assert_eq!(example_event_step(stdin, &FdRead::Read(b"hi\n".to_vec())), ExampleStep::ShowMessage);
    let sock = MyEventData { fd: 0, kind: FdType::Socket };
    assert_eq!(example_event_step(sock, &FdRead::Read(b"stop".to_vec())), ExampleStep::Stop);
    let sock = MyEventData { fd: 6, kind: FdType::Socket };
    assert_eq!(example_event_step(sock, &FdRead::Read(b"stop".to_vec())), ExampleStep::ShowMessage);
    let efd = MyEventData { fd: 6, kind: FdType::EventFd };
    assert_eq!(
        example_event_step(efd, &FdRead::Read(634u64.to_ne_bytes().to_vec())),
        ExampleStep::ShowSignal(634)
    );
    let tfd = MyEventData { fd: 6, kind: FdType::Timer };
    assert_eq!(example_event_step(tfd, &FdRead::Read(vec![1; 8])), ExampleStep::ShowTimer);
}
