use std::ops::ControlFlow;

use learning_async::event::{FdType, MyEventData};
use learning_async::event_loop::{
    read_size, EventAction, EventFdAction, Registration, RuntimeEventLoopData, RuntimeMsg,
    TerminalAction, FIRST_FUTURE_ID, INITIAL_MAIN_FUTURE_ID,
};
use learning_async::io::{eventfd_value, FdRead, SysError};

type Loop = RuntimeEventLoopData<&'static str, &'static str>;

#[test]
fn new_loop_starts_with_fixed_ids() {
    let rt = Loop::new(3);
    assert_eq!(rt.waker_signal_fd(), 3);
    assert_eq!(rt.next_future_id(), 143);
    assert_eq!(rt.main_future_id(), 142);
    assert_eq!(FIRST_FUTURE_ID, 143);
    assert_eq!(INITIAL_MAIN_FUTURE_ID, 142);
    assert!(rt.main_future_done());
}

#[test]
fn spawn_hands_out_consecutive_ids() {
    let mut rt = Loop::new(3);
    assert_eq!(rt.spawn("a"), 143);
    assert_eq!(rt.spawn("b"), 144);
    assert_eq!(rt.next_future_id(), 145);
    assert!(rt.is_live(143));
    assert!(rt.is_live(144));
    assert!(!rt.is_live(145));
}

#[test]
fn pending_poll_keeps_future_and_ready_poll_drops_it() {
    let mut rt = Loop::new(3);
    let id = rt.spawn("a");
    let fut = rt.take_future(id).unwrap();
    assert!(!rt.is_live(id));
    assert_eq!(rt.finish_poll(id, fut, false), ControlFlow::Continue(()));
    assert!(rt.is_live(id));
    let fut = rt.take_future(id).unwrap();
    assert_eq!(fut, "a");
    assert_eq!(rt.finish_poll(id, fut, true), ControlFlow::Continue(()));
    assert!(!rt.is_live(id));
    assert_eq!(rt.take_future(id), None);
}

#[test]
fn finishing_main_future_breaks_loop() {
    let mut rt = Loop::new(3);
    rt.spawn("side");
    rt.mark_next_as_main();
    assert_eq!(rt.main_future_id(), 144);
    let id = rt.spawn("main");
    assert_eq!(id, 144);
    assert!(!rt.main_future_done());
    let fut = rt.take_future(id).unwrap();
    assert_eq!(rt.finish_poll(id, fut, true), ControlFlow::Break(()));
    assert!(rt.main_future_done());
}

#[test]
fn unknown_future_is_not_polled() {
    let mut rt = Loop::new(3);
    assert_eq!(rt.take_future(999), None);
}

#[test]
fn messages_register_wakers_and_collect_wakes() {
    let mut rt = Loop::new(3);
    let batch = rt.process_messages(vec![
        RuntimeMsg::Wake { future_id: 150 },
        RuntimeMsg::RegisterTimer { waker: "t1", timer_fd: 10 },
        RuntimeMsg::RegisterTcpStream { waker: "s1", socket: 11 },
        RuntimeMsg::Wake { future_id: 143 },
        RuntimeMsg::RegisterTimer { waker: "t2", timer_fd: 10 },
    ]);
    assert_eq!(batch.to_poll, vec![150, 143]);
    assert_eq!(
        batch.registrations,
        vec![
            Registration { fd: 10, kind: FdType::Timer, exists_ok: false },
            Registration { fd: 11, kind: FdType::Socket, exists_ok: true },
            Registration { fd: 10, kind: FdType::Timer, exists_ok: false },
        ]
    );
    assert_eq!(rt.handle_event_on_socket(11), &"s1");
    assert_eq!(rt.handle_event_on_socket(11), &"s1");
    assert_eq!(rt.handle_event_on_timer(10), Some("t2"));
    assert_eq!(rt.handle_event_on_timer(10), None);
}

#[test]
fn eventfd_reads() {
    let rt = Loop::new(3);
    assert_eq!(rt.handle_event_on_eventfd(3, &FdRead::Closed), EventFdAction::RemoveFd);
    assert_eq!(
        rt.handle_event_on_eventfd(3, &FdRead::Failed(SysError::WouldBlock)),
        EventFdAction::Ignore
    );
    let bytes = 143u64.to_ne_bytes().to_vec();
    assert_eq!(rt.handle_event_on_eventfd(3, &FdRead::Read(bytes.clone())), EventFdAction::Poll(143));
    assert_eq!(rt.handle_event_on_eventfd(4, &FdRead::Read(bytes)), EventFdAction::Foreign(143));
}

#[test]
fn terminal_reads() {
    let rt = Loop::new(3);
    assert_eq!(rt.handle_event_on_terminal(0, &FdRead::Closed), TerminalAction::RemoveFd);
    assert_eq!(
        rt.handle_event_on_terminal(0, &FdRead::Failed(SysError::Other(5))),
        TerminalAction::Continue
    );
    assert_eq!(
        rt.handle_event_on_terminal(0, &FdRead::Read(b"stop\n".to_vec())),
        TerminalAction::Stop
    );
    assert_eq!(
        rt.handle_event_on_terminal(0, &FdRead::Read(b"hello\n".to_vec())),
        TerminalAction::Continue
    );
    assert_eq!(
        rt.handle_event_on_terminal(4, &FdRead::Read(b"stop\n".to_vec())),
        TerminalAction::Continue
    );
}

#[test]
fn eventfd_value_reads_native_counter() {
    assert_eq!(eventfd_value(&0x0102_0304_0506_0708u64.to_ne_bytes()), Some(0x0102_0304_0506_0708));
    assert_eq!(eventfd_value(&[1, 2, 3]), None);
    assert_eq!(eventfd_value(&[]), None);
    let mut longer = 7u64.to_ne_bytes().to_vec();
    longer.push(9);
    assert_eq!(eventfd_value(&longer), Some(7));
}

#[test]
fn read_sizes_by_kind() {
    assert_eq!(read_size(FdType::EventFd), Some(8));
    assert_eq!(read_size(FdType::Terminal), Some(1024));
    assert_eq!(read_size(FdType::Timer), None);
    assert_eq!(read_size(FdType::Socket), None);
}

#[test]
fn handle_event_dispatches_by_kind() {
    let mut rt = Loop::new(3);
    rt.process_messages(vec![
        RuntimeMsg::RegisterTimer { waker: "t", timer_fd: 10 },
        RuntimeMsg::RegisterTcpStream { waker: "s", socket: 11 },
    ]);
    let efd = MyEventData { fd: 3, kind: FdType::EventFd };
    match rt.handle_event(efd, Some(FdRead::Read(150u64.to_ne_bytes().to_vec()))) {
        EventAction::Poll(id) => assert_eq!(id, 150),
        _ => panic!("expected a poll"),
    }
    let other = MyEventData { fd: 4, kind: FdType::EventFd };
    match rt.handle_event(other, Some(FdRead::Read(5u64.to_ne_bytes().to_vec()))) {
        EventAction::Foreign { fd, value } => assert_eq!((fd, value), (4, 5)),
        _ => panic!("expected a foreign value"),
    }
    assert!(matches!(rt.handle_event(efd, Some(FdRead::Closed)), EventAction::RemoveFd(3)));
    let sock = MyEventData { fd: 11, kind: FdType::Socket };
    assert!(matches!(rt.handle_event(sock, None), EventAction::WakeSocket(11)));
    assert!(rt.has_socket_waker(11));
    let timer = MyEventData { fd: 10, kind: FdType::Timer };
    match rt.handle_event(timer, None) {
        EventAction::FireTimer { fd, waker } => assert_eq!((fd, waker), (10, "t")),
        _ => panic!("expected the timer to fire"),
    }
    assert!(matches!(rt.handle_event(timer, None), EventAction::UnknownTimer(10)));
    let stdin = MyEventData { fd: 0, kind: FdType::Terminal };
    assert!(matches!(rt.handle_event(stdin, Some(FdRead::Read(b"stop\n".to_vec()))), EventAction::Stop));
    assert!(matches!(rt.handle_event(stdin, Some(FdRead::Read(b"go\n".to_vec()))), EventAction::Continue));
    assert!(matches!(rt.handle_event(stdin, Some(FdRead::Failed(SysError::Other(5)))), EventAction::Continue));
    assert!(matches!(rt.handle_event(stdin, Some(FdRead::Closed)), EventAction::RemoveFd(0)));
}
