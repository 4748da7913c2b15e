//! The user data that the runtime attaches to each file descriptor it
//! registers with epoll: the descriptor itself and what kind of source it is.

use vstd::prelude::*;

verus! {

/// What a registered file descriptor stands for.
#[derive(Clone, Copy, Debug, PartialEq, Eq, Structural)]
pub enum FdType {
    Terminal,
    EventFd,
    Timer,
    Socket,
}

/// The descriptor and its kind, as delivered back with each epoll event.
#[derive(Clone, Copy, Debug, PartialEq, Eq, Structural)]
pub struct MyEventData {
    pub fd: i32,
    pub kind: FdType,
}

/// The 64 bits of user data that epoll stores with a registration and hands
/// back with every event on it.
#[derive(Clone, Copy, Debug, PartialEq, Eq, Structural)]
pub struct EventData {
    pub raw: u64,
}

/// The number that stands for a kind in the upper half of the user data.
pub open spec fn kind_code(kind: FdType) -> u64 {
    match kind {
        FdType::Terminal => 0,
        FdType::EventFd => 1,
        FdType::Timer => 2,
        FdType::Socket => 3,
    }
}

/// The kind that a code stands for, if any.
pub open spec fn kind_of_code(code: u64) -> Option<FdType> {
    if code == 0 {
        Some(FdType::Terminal)
    } else if code == 1 {
        Some(FdType::EventFd)
    } else if code == 2 {
        Some(FdType::Timer)
    } else if code == 3 {
        Some(FdType::Socket)
    } else {
        None
    }
}

/// One unit of the upper half of the user data.
pub open spec fn upper_unit() -> int {
    0x1_0000_0000
}

/// The lower half holds the descriptor's 32 bits, the upper half the kind.
pub open spec fn encode(data: MyEventData) -> u64 {
    ((data.fd as u32) as int + kind_code(data.kind) * upper_unit()) as u64
}

/// Reads the descriptor from the lower half and the kind from the upper half;
/// `None` where the upper half names no kind.
pub open spec fn decode(raw: u64) -> Option<MyEventData> {
    match kind_of_code((raw as int / upper_unit()) as u64) {
        Some(kind) => Some(MyEventData { fd: ((raw as int % upper_unit()) as u32) as i32, kind }),
        None => None,
    }
}

fn kind_to_code(kind: FdType) -> (code: u64)
    ensures
        code == kind_code(kind),
{
    match kind {
        FdType::Terminal => 0,
        FdType::EventFd => 1,
        FdType::Timer => 2,
        FdType::Socket => 3,
    }
}

fn code_to_kind(code: u64) -> (kind: Option<FdType>)
    ensures
        kind == kind_of_code(code),
{
    if code == 0 {
        Some(FdType::Terminal)
    } else if code == 1 {
        Some(FdType::EventFd)
    } else if code == 2 {
        Some(FdType::Timer)
    } else if code == 3 {
        Some(FdType::Socket)
    } else {
        None
    }
}

proof fn lemma_fd_bits(fd: i32)
    ensures
        (fd as u32) as i32 == fd,
        0 <= (fd as u32) < 0x1_0000_0000,
{
    assert((fd as u32) as i32 == fd) by (bit_vector);
}

impl EventData {
    /// Packs a descriptor and its kind into epoll user data.
    pub fn from_data(data: MyEventData) -> (r: EventData)
        ensures
            r.raw == encode(data),
    {
        proof {
            lemma_fd_bits(data.fd);
        }
        let low: u64 = (data.fd as u32) as u64;
        let high: u64 = kind_to_code(data.kind);
        EventData { raw: low + high * 0x1_0000_0000 }
    }

    /// User data that names only a descriptor, as handed to epoll when the
    /// descriptor is removed (epoll ignores it there).
    pub fn from_fd(fd: i32) -> (r: EventData)
        ensures
            r.raw == (fd as u32) as u64,
    {
        EventData { raw: (fd as u32) as u64 }
    }

    /// Unpacks the descriptor and its kind; `None` where the data was not
    /// made by `from_data`.
    pub fn data(&self) -> (r: Option<MyEventData>)
        ensures
            r == decode(self.raw),
    {
        let high: u64 = self.raw / 0x1_0000_0000;
        let low: u64 = self.raw % 0x1_0000_0000;
        match code_to_kind(high) {
            Some(kind) => Some(MyEventData { fd: (low as u32) as i32, kind }),
            None => None,
        }
    }
}

/// What a registration packs is what its events deliver: unpacking the
/// packed data of a descriptor and kind gives back that descriptor and kind.
pub proof fn lemma_event_data_round_trip(data: MyEventData)
    ensures
        decode(encode(data)) == Some(data),
{
    lemma_fd_bits(data.fd);
    let low = (data.fd as u32) as int;
    let k = kind_code(data.kind) as int;
    let raw = low + k * upper_unit();
    assert(raw / upper_unit() == k);
    assert(raw % upper_unit() == low);
}

/// Distinct registrations pack to distinct user data.
pub proof fn lemma_event_data_injective(a: MyEventData, b: MyEventData)
    requires
        encode(a) == encode(b),
    ensures
        a == b,
{
    lemma_event_data_round_trip(a);
    lemma_event_data_round_trip(b);
}

} // verus!
