use learning_async::event::{EventData, FdType, MyEventData};

#[test]
fn event_data_is_8bytes() {
    assert_eq!(std::mem::size_of::<EventData>(), 8);
}

#[test]
fn my_event_data_is_8bytes() {
    assert_eq!(std::mem::size_of::<MyEventData>(), 8);
}

#[test]
fn event_data_round_trips_every_kind() {
    for kind in [FdType::Terminal, FdType::EventFd, FdType::Timer, FdType::Socket] {
        for fd in [0, 1, 7, 1023, i32::MAX, -1, i32::MIN] {
            let data = MyEventData { fd, kind };
            assert_eq!(EventData::from_data(data).data(), Some(data));
        }
    }
}

#[test]
fn event_data_layout() {
    let packed = EventData::from_data(MyEventData { fd: 5, kind: FdType::Timer });
    assert_eq!(packed.raw, (2u64 << 32) | 5);
    let packed = EventData::from_data(MyEventData { fd: -1, kind: FdType::Terminal });
    assert_eq!(packed.raw, 0xffff_ffff);
    assert_eq!(EventData::from_fd(9).raw, 9);
}

#[test]
fn event_data_with_unknown_kind_decodes_to_none() {
    assert_eq!(EventData { raw: 4u64 << 32 }.data(), None);
    assert_eq!(EventData { raw: u64::MAX }.data(), None);
}
