//! The state of the runtime's event loop and its reactions to messages from
//! futures and to epoll events. The loop itself (polling futures, waiting on
//! epoll, reading descriptors, waking wakers) is driven by the caller, which
//! performs the action each function returns.
//!
//! `F` is what the caller stores for a spawned future (the future and its
//! waker), `W` is a waker handed in by a future that waits on a descriptor.

use std::collections::HashMap;
use std::ops::ControlFlow;

use vstd::prelude::*;

use crate::event::{FdType, MyEventData};
use crate::io::{eventfd_value, native_value, FdRead};
use crate::text::{is_stop, is_stop_command};

verus! {

broadcast use vstd::std_specs::hash::group_hash_axioms;

/// Whether the event loop goes on or returns.
pub type LoopFlow = ControlFlow<()>;

/// The id given to the first future the loop spawns.
pub const FIRST_FUTURE_ID: u64 = 143;

/// The main future id before any `block_on`.
pub const INITIAL_MAIN_FUTURE_ID: u64 = 142;

/// A message that a future sends to the runtime while it is polled.
pub enum RuntimeMsg<W> {
    /// Wake `waker` when the timer descriptor `timer_fd` becomes readable.
    RegisterTimer { waker: W, timer_fd: i32 },
    /// Wake `waker` whenever the socket `socket` becomes readable.
    RegisterTcpStream { waker: W, socket: i32 },
    /// Poll the future `future_id` again.
    Wake { future_id: u64 },
}

/// A descriptor to register with epoll for readability, with its kind.
/// `exists_ok` says that a registration refused because the descriptor is
/// already registered is no failure.
#[derive(Clone, Copy, Debug, PartialEq, Eq, Structural)]
pub struct Registration {
    pub fd: i32,
    pub kind: FdType,
    pub exists_ok: bool,
}

/// What a batch of messages asks of the caller: the futures to poll, in the
/// order their wake messages came, and the descriptors to register with
/// epoll, in the order their messages came.
pub struct MsgBatch {
    pub to_poll: Vec<u64>,
    pub registrations: Vec<Registration>,
}

/// What to do after reading the runtime's wake-up eventfd (or another
/// eventfd) that epoll reported readable.
#[derive(Clone, Copy, Debug, PartialEq, Eq, Structural)]
pub enum EventFdAction {
    /// End of input: remove the descriptor from epoll and go on.
    RemoveFd,
    /// The read failed: go on.
    Ignore,
    /// A value arrived on an eventfd that is not the runtime's: go on.
    Foreign(u64),
    /// The runtime's eventfd carried this future id: poll that future.
    Poll(u64),
}

/// What to do after reading a terminal descriptor that epoll reported
/// readable.
#[derive(Clone, Copy, Debug, PartialEq, Eq, Structural)]
pub enum TerminalAction {
    /// End of input: remove the descriptor from epoll and go on.
    RemoveFd,
    /// Go on.
    Continue,
    /// The stop command arrived on standard input: leave the loop.
    Stop,
}

/// The timers registered after applying `msgs` in order to `timers`: each
/// timer registration maps its descriptor to its waker, the last one wins.
pub open spec fn timers_after<W>(timers: Map<i32, W>, msgs: Seq<RuntimeMsg<W>>) -> Map<i32, W>
    decreases msgs.len(),
{
    if msgs.len() == 0 {
        timers
    } else {
        let before = timers_after(timers, msgs.drop_last());
        match msgs.last() {
            RuntimeMsg::RegisterTimer { waker, timer_fd } => before.insert(timer_fd, waker),
            _ => before,
        }
    }
}

/// The sockets registered after applying `msgs` in order to `sockets`.
pub open spec fn sockets_after<W>(sockets: Map<i32, W>, msgs: Seq<RuntimeMsg<W>>) -> Map<i32, W>
    decreases msgs.len(),
{
    if msgs.len() == 0 {
        sockets
    } else {
        let before = sockets_after(sockets, msgs.drop_last());
        match msgs.last() {
            RuntimeMsg::RegisterTcpStream { waker, socket } => before.insert(socket, waker),
            _ => before,
        }
    }
}

/// The future ids of the wake messages among `msgs`, in order.
pub open spec fn woken_ids<W>(msgs: Seq<RuntimeMsg<W>>) -> Seq<u64>
    decreases msgs.len(),
{
    if msgs.len() == 0 {
        Seq::empty()
    } else {
        let before = woken_ids(msgs.drop_last());
        match msgs.last() {
            RuntimeMsg::Wake { future_id } => before.push(future_id),
            _ => before,
        }
    }
}

/// The epoll registration that a message asks for, if any.
pub open spec fn registration_of<W>(msg: RuntimeMsg<W>) -> Option<Registration> {
    match msg {
        RuntimeMsg::RegisterTimer { timer_fd, .. } => Some(
            Registration { fd: timer_fd, kind: FdType::Timer, exists_ok: false },
        ),
        RuntimeMsg::RegisterTcpStream { socket, .. } => Some(
            Registration { fd: socket, kind: FdType::Socket, exists_ok: true },
        ),
        RuntimeMsg::Wake { .. } => None,
    }
}

/// The epoll registrations that `msgs` ask for, in order.
pub open spec fn registrations_of<W>(msgs: Seq<RuntimeMsg<W>>) -> Seq<Registration>
    decreases msgs.len(),
{
    if msgs.len() == 0 {
        Seq::empty()
    } else {
        let before = registrations_of(msgs.drop_last());
        match registration_of(msgs.last()) {
            Some(r) => before.push(r),
            None => before,
        }
    }
}

/// The live futures after a future taken out for polling comes back: a
/// finished one is gone, a pending one is live again.
pub open spec fn futures_after_poll<F>(futures: Map<u64, F>, id: u64, fut: F, ready: bool) -> Map<
    u64,
    F,
> {
    if ready {
        futures
    } else {
        futures.insert(id, fut)
    }
}

/// Whether the loop goes on after the future `id` was polled: it stops when
/// that poll finished the main future.
pub open spec fn poll_flow(id: u64, ready: bool, main_id: u64) -> LoopFlow {
    if ready && id == main_id {
        LoopFlow::Break(())
    } else {
        LoopFlow::Continue(())
    }
}

/// The reaction to a read of the eventfd `fd` when the runtime's own eventfd
/// is `signal_fd`.
pub open spec fn eventfd_action(signal_fd: i32, fd: i32, read: FdRead<Vec<u8>>) -> EventFdAction {
    match read {
        FdRead::Closed => EventFdAction::RemoveFd,
        FdRead::Failed(_) => EventFdAction::Ignore,
        FdRead::Read(bytes) => {
            let val = native_value(bytes@.take(8)) as u64;
            if fd == signal_fd {
                EventFdAction::Poll(val)
            } else {
                EventFdAction::Foreign(val)
            }
        },
    }
}

/// The reaction to a read of the terminal `fd`.
pub open spec fn terminal_action(fd: i32, read: FdRead<Vec<u8>>) -> TerminalAction {
    match read {
        FdRead::Closed => TerminalAction::RemoveFd,
        FdRead::Failed(_) => TerminalAction::Continue,
        FdRead::Read(bytes) => if is_stop(fd, bytes@) {
            TerminalAction::Stop
        } else {
            TerminalAction::Continue
        },
    }
}

/// What the loop does for one epoll event.
pub enum EventAction<W> {
    /// End of input on the descriptor: remove it from epoll and go on.
    RemoveFd(i32),
    /// Nothing more to do: go on.
    Continue,
    /// A value arrived on an eventfd that is not the runtime's: go on.
    Foreign { fd: i32, value: u64 },
    /// Poll the future with this id.
    Poll(u64),
    /// Wake the waker registered for this socket (it stays registered).
    WakeSocket(i32),
    /// The timer fired: remove it from epoll and wake its waker.
    FireTimer { fd: i32, waker: W },
    /// No waker waits on this timer: go on.
    UnknownTimer(i32),
    /// The stop command arrived on standard input: leave the loop.
    Stop,
}

/// How many bytes the loop reads from a descriptor of this kind before it
/// reacts; `None` for kinds it does not read.
pub open spec fn read_len(kind: FdType) -> Option<usize> {
    match kind {
        FdType::EventFd => Some(8),
        FdType::Terminal => Some(1024),
        FdType::Timer | FdType::Socket => None,
    }
}

/// How many bytes the loop reads from a descriptor of this kind before it
/// reacts; `None` for kinds it does not read.
pub fn read_size(kind: FdType) -> (r: Option<usize>)
    ensures
        r == read_len(kind),
{
    match kind {
        FdType::EventFd => Some(8),
        FdType::Terminal => Some(1024),
        FdType::Timer | FdType::Socket => None,
    }
}

/// The loop's reaction to an event on the descriptor `source`, given what
/// was read from it, the registered timers and the runtime's eventfd.
pub open spec fn event_action<W>(
    timers: Map<i32, W>,
    signal_fd: i32,
    source: MyEventData,
    read: Option<FdRead<Vec<u8>>>,
) -> EventAction<W> {
    let fd = source.fd;
    match source.kind {
        FdType::EventFd => match read {
            Some(read) => match eventfd_action(signal_fd, fd, read) {
                EventFdAction::RemoveFd => EventAction::RemoveFd(fd),
                EventFdAction::Ignore => EventAction::Continue,
                EventFdAction::Foreign(value) => EventAction::Foreign { fd, value },
                EventFdAction::Poll(id) => EventAction::Poll(id),
            },
            None => EventAction::Continue,
        },
        FdType::Socket => EventAction::WakeSocket(fd),
        FdType::Terminal => match read {
            Some(read) => match terminal_action(fd, read) {
                TerminalAction::RemoveFd => EventAction::RemoveFd(fd),
                TerminalAction::Continue => EventAction::Continue,
                TerminalAction::Stop => EventAction::Stop,
            },
            None => EventAction::Continue,
        },
        FdType::Timer => if timers.contains_key(fd) {
            EventAction::FireTimer { fd, waker: timers[fd] }
        } else {
            EventAction::UnknownTimer(fd)
        },
    }
}

/// The event loop's bookkeeping: the runtime's wake-up eventfd, the id
/// counter, the main future, the live futures by id, and the wakers waiting
/// on timers and on sockets by descriptor.
pub struct RuntimeEventLoopData<F, W> {
    waker_signal_fd: i32,
    next_future_id: u64,
    main_future_id: u64,
    futures: HashMap<u64, F>,
    timers: HashMap<i32, W>,
    network_sockets: HashMap<i32, W>,
}

impl<F, W> RuntimeEventLoopData<F, W> {
    pub closed spec fn signal_fd(&self) -> i32 {
        self.waker_signal_fd
    }

    pub closed spec fn next_id(&self) -> u64 {
        self.next_future_id
    }

    pub closed spec fn main_id(&self) -> u64 {
        self.main_future_id
    }

    pub closed spec fn futures_map(&self) -> Map<u64, F> {
        self.futures@
    }

    pub closed spec fn timers_map(&self) -> Map<i32, W> {
        self.timers@
    }

    pub closed spec fn sockets_map(&self) -> Map<i32, W> {
        self.network_sockets@
    }

    /// Every live future has an id below the counter, so a new id is never
    /// one in use; the main id is at most the counter.
    pub closed spec fn wf(&self) -> bool {
        &&& forall|id: u64| #[trigger] self.futures@.contains_key(id) ==> id < self.next_future_id
        &&& self.main_future_id <= self.next_future_id
    }

    /// A loop with no futures and no registrations, waking through the
    /// eventfd `waker_signal_fd`.
    pub fn new(waker_signal_fd: i32) -> (r: Self)
        ensures
            r.wf(),
            r.signal_fd() == waker_signal_fd,
            r.next_id() == FIRST_FUTURE_ID,
            r.main_id() == INITIAL_MAIN_FUTURE_ID,
            r.futures_map() == Map::<u64, F>::empty(),
            r.timers_map() == Map::<i32, W>::empty(),
            r.sockets_map() == Map::<i32, W>::empty(),
    {
        RuntimeEventLoopData {
            waker_signal_fd,
            next_future_id: FIRST_FUTURE_ID,
            main_future_id: INITIAL_MAIN_FUTURE_ID,
            futures: HashMap::new(),
            timers: HashMap::new(),
            network_sockets: HashMap::new(),
        }
    }

    /// The runtime's wake-up eventfd.
    pub fn waker_signal_fd(&self) -> (r: i32)
        ensures
            r == self.signal_fd(),
    {
        self.waker_signal_fd
    }

    /// The id the next spawned future gets.
    pub fn next_future_id(&self) -> (r: u64)
        ensures
            r == self.next_id(),
    {
        self.next_future_id
    }

    /// The id of the future that `block_on` waits for.
    pub fn main_future_id(&self) -> (r: u64)
        ensures
            r == self.main_id(),
    {
        self.main_future_id
    }

    /// Makes the next spawned future the main one.
    pub fn mark_next_as_main(&mut self)
        requires
            old(self).wf(),
        ensures
            final(self).wf(),
            final(self).main_id() == old(self).next_id(),
            final(self).next_id() == old(self).next_id(),
            final(self).signal_fd() == old(self).signal_fd(),
            final(self).futures_map() == old(self).futures_map(),
            final(self).timers_map() == old(self).timers_map(),
            final(self).sockets_map() == old(self).sockets_map(),
    {
        self.main_future_id = self.next_future_id;
    }

    /// Stores a new future under a fresh id and returns the id; the caller
    /// then polls it once.
    pub fn spawn(&mut self, fut: F) -> (id: u64)
        requires
            old(self).wf(),
            old(self).next_id() < u64::MAX,
        ensures
            final(self).wf(),
            id == old(self).next_id(),
            !old(self).futures_map().contains_key(id),
            final(self).next_id() == old(self).next_id() + 1,
            final(self).futures_map() == old(self).futures_map().insert(id, fut),
            final(self).main_id() == old(self).main_id(),
            final(self).signal_fd() == old(self).signal_fd(),
            final(self).timers_map() == old(self).timers_map(),
            final(self).sockets_map() == old(self).sockets_map(),
    {
        let future_id = self.next_future_id;
        self.next_future_id = self.next_future_id + 1;
        self.futures.insert(future_id, fut);
        future_id
    }

    /// Whether the future `id` is live.
    pub fn is_live(&self, id: u64) -> (r: bool)
        ensures
            r == self.futures_map().contains_key(id),
    {
        self.futures.contains_key(&id)
    }

    /// Whether the main future has finished (is no longer live).
    pub fn main_future_done(&self) -> (r: bool)
        ensures
            r == !self.futures_map().contains_key(self.main_id()),
    {
        !self.futures.contains_key(&self.main_future_id)
    }

    /// Takes the future `id` out to poll it; `None` where no such future is
    /// live (the wake-up is then for an unknown future and is ignored).
    pub fn take_future(&mut self, id: u64) -> (r: Option<F>)
        requires
            old(self).wf(),
        ensures
            final(self).wf(),
            match r {
                Some(f) => old(self).futures_map().contains_key(id) && f == old(
                    self,
                ).futures_map()[id],
                None => !old(self).futures_map().contains_key(id),
            },
            r is Some ==> id < final(self).next_id(),
            final(self).futures_map() == old(self).futures_map().remove(id),
            final(self).next_id() == old(self).next_id(),
            final(self).main_id() == old(self).main_id(),
            final(self).signal_fd() == old(self).signal_fd(),
            final(self).timers_map() == old(self).timers_map(),
            final(self).sockets_map() == old(self).sockets_map(),
    {
        let r = self.futures.remove(&id);
        proof {
            assert(self.futures@ == old(self).futures@.remove(id));
        }
        r
    }

    /// Hands back a future taken out for polling, with whether that poll
    /// finished it. A pending future becomes live again; a finished one is
    /// dropped, and if it was the main future the loop stops.
    pub fn finish_poll(&mut self, id: u64, fut: F, ready: bool) -> (r: LoopFlow)
        requires
            old(self).wf(),
            id < old(self).next_id(),
            !old(self).futures_map().contains_key(id),
        ensures
            final(self).wf(),
            final(self).futures_map() == futures_after_poll(old(self).futures_map(), id, fut, ready),
            ready ==> final(self).futures_map() == old(self).futures_map(),
            !ready ==> final(self).futures_map() == old(self).futures_map().insert(id, fut),
            r == poll_flow(id, ready, old(self).main_id()),
            final(self).next_id() == old(self).next_id(),
            final(self).main_id() == old(self).main_id(),
            final(self).signal_fd() == old(self).signal_fd(),
            final(self).timers_map() == old(self).timers_map(),
            final(self).sockets_map() == old(self).sockets_map(),
    {
        if ready {
            if id == self.main_future_id {
                return ControlFlow::Break(());
            }
        } else {
            self.futures.insert(id, fut);
        }
        ControlFlow::Continue(())
    }

    /// Applies the messages futures sent, in order: timer and socket
    /// registrations record their wakers (the last one for a descriptor
    /// wins), and the caller is told which epoll registrations to make and
    /// which futures the wake messages ask to poll.
    pub fn process_messages(&mut self, msgs: Vec<RuntimeMsg<W>>) -> (r: MsgBatch)
        requires
            old(self).wf(),
        ensures
            final(self).wf(),
            final(self).timers_map() == timers_after(old(self).timers_map(), msgs@),
            final(self).sockets_map() == sockets_after(old(self).sockets_map(), msgs@),
            r.to_poll@ == woken_ids(msgs@),
            r.registrations@ == registrations_of(msgs@),
            final(self).futures_map() == old(self).futures_map(),
            final(self).next_id() == old(self).next_id(),
            final(self).main_id() == old(self).main_id(),
            final(self).signal_fd() == old(self).signal_fd(),
    {
        let ghost all = msgs@;
        let total: usize = msgs.len();
        let mut rest = msgs;
        let mut to_poll: Vec<u64> = Vec::new();
        let mut registrations: Vec<Registration> = Vec::new();
        let mut i: usize = 0;
        while rest.len() > 0
            invariant
                self.wf(),
                i <= all.len(),
                all.len() == total,
                rest@ == all.skip(i as int),
                self.timers@ == timers_after(old(self).timers@, all.take(i as int)),
                self.network_sockets@ == sockets_after(old(self).network_sockets@, all.take(i as int)),
                to_poll@ == woken_ids(all.take(i as int)),
                registrations@ == registrations_of(all.take(i as int)),
                self.futures@ == old(self).futures@,
                self.next_future_id == old(self).next_future_id,
                self.main_future_id == old(self).main_future_id,
                self.waker_signal_fd == old(self).waker_signal_fd,
            decreases rest.len(),
        {
            let msg = rest.remove(0);
            proof {
                assert(all.take(i + 1).drop_last() =~= all.take(i as int));
                assert(all.take(i + 1).last() == all[i as int]);
                assert(rest@ =~= all.skip(i + 1));
            }
            match msg {
                RuntimeMsg::Wake { future_id } => {
                    to_poll.push(future_id);
                },
                RuntimeMsg::RegisterTimer { waker, timer_fd } => {
                    registrations.push(
                        Registration { fd: timer_fd, kind: FdType::Timer, exists_ok: false },
                    );
                    self.timers.insert(timer_fd, waker);
                },
                RuntimeMsg::RegisterTcpStream { waker, socket } => {
                    registrations.push(
                        Registration { fd: socket, kind: FdType::Socket, exists_ok: true },
                    );
                    self.network_sockets.insert(socket, waker);
                },
            }
            i = i + 1;
        }
        proof {
            assert(all.take(i as int) =~= all);
        }
        MsgBatch { to_poll, registrations }
    }

    /// Reacts to a read of an eventfd that epoll reported readable: at end
    /// of input the descriptor is removed, a failed read is ignored, and the
    /// counter value read from the runtime's own eventfd names the future to
    /// poll. A successful read holds the eight bytes of the counter.
    pub fn handle_event_on_eventfd(&self, fd: i32, read: &FdRead<Vec<u8>>) -> (r: EventFdAction)
        requires
            read matches FdRead::Read(bytes) ==> bytes@.len() >= 8,
        ensures
            r == eventfd_action(self.signal_fd(), fd, *read),
    {
        match read {
            FdRead::Closed => EventFdAction::RemoveFd,
            FdRead::Failed(_) => EventFdAction::Ignore,
            FdRead::Read(bytes) => {
                let val = match eventfd_value(bytes.as_slice()) {
                    Some(v) => v,
                    None => vstd::pervasive::unreached(),
                };
                if fd != self.waker_signal_fd {
                    EventFdAction::Foreign(val)
                } else {
                    EventFdAction::Poll(val)
                }
            },
        }
    }

    /// Whether a waker waits on the socket `fd`.
    pub fn has_socket_waker(&self, fd: i32) -> (r: bool)
        ensures
            r == self.sockets_map().contains_key(fd),
    {
        self.network_sockets.contains_key(&fd)
    }

    /// The waker registered for the socket `fd`, which epoll reported
    /// readable; the registration stays.
    pub fn handle_event_on_socket(&self, fd: i32) -> (r: &W)
        requires
            self.sockets_map().contains_key(fd),
        ensures
            *r == self.sockets_map()[fd],
    {
        match self.network_sockets.get(&fd) {
            Some(waker) => waker,
            None => vstd::pervasive::unreached(),
        }
    }

    /// Reacts to a read of a terminal descriptor that epoll reported
    /// readable: at end of input the descriptor is removed, and the stop
    /// command on standard input ends the loop.
    pub fn handle_event_on_terminal(&self, fd: i32, read: &FdRead<Vec<u8>>) -> (r: TerminalAction)
        ensures
            r == terminal_action(fd, *read),
    {
        match read {
            FdRead::Closed => TerminalAction::RemoveFd,
            FdRead::Failed(_) => TerminalAction::Continue,
            FdRead::Read(bytes) => {
                if is_stop_command(fd, bytes.as_slice()) {
                    TerminalAction::Stop
                } else {
                    TerminalAction::Continue
                }
            },
        }
    }

    /// Takes out the waker registered for the timer `fd`, which fired; a
    /// timer fires once, so its registration goes. `None` where no waker
    /// waits on `fd`.
    pub fn handle_event_on_timer(&mut self, fd: i32) -> (r: Option<W>)
        requires
            old(self).wf(),
        ensures
            final(self).wf(),
            match r {
                Some(w) => old(self).timers_map().contains_key(fd) && w == old(
                    self,
                ).timers_map()[fd],
                None => !old(self).timers_map().contains_key(fd),
            },
            final(self).timers_map() == old(self).timers_map().remove(fd),
            final(self).futures_map() == old(self).futures_map(),
            final(self).sockets_map() == old(self).sockets_map(),
            final(self).next_id() == old(self).next_id(),
            final(self).main_id() == old(self).main_id(),
            final(self).signal_fd() == old(self).signal_fd(),
    {
        let r = self.timers.remove(&fd);
        proof {
            assert(self.timers@ == old(self).timers@.remove(fd));
        }
        r
    }

    /// Reacts to one epoll event on the descriptor `source`, given what was
    /// read from it (only eventfds and terminals are read, an eventfd read
    /// holds the eight bytes of its counter, and a socket that signals has a
    /// waker registered). A fired timer's registration goes; nothing else
    /// changes.
    pub fn handle_event(&mut self, source: MyEventData, read: Option<FdRead<Vec<u8>>>) -> (r:
        EventAction<W>)
        requires
            old(self).wf(),
            read is Some <==> read_len(source.kind) is Some,
            source.kind == FdType::EventFd ==> (read matches Some(FdRead::Read(bytes))
                ==> bytes@.len() >= 8),
            source.kind == FdType::Socket ==> old(self).sockets_map().contains_key(source.fd),
        ensures
            final(self).wf(),
            r == event_action(old(self).timers_map(), old(self).signal_fd(), source, read),
            final(self).timers_map() == (if source.kind == FdType::Timer {
                old(self).timers_map().remove(source.fd)
            } else {
                old(self).timers_map()
            }),
            final(self).futures_map() == old(self).futures_map(),
            final(self).sockets_map() == old(self).sockets_map(),
            final(self).next_id() == old(self).next_id(),
            final(self).main_id() == old(self).main_id(),
            final(self).signal_fd() == old(self).signal_fd(),
    {
        let fd = source.fd;
        match source.kind {
            FdType::EventFd => {
                let read = match read {
                    Some(r) => r,
                    None => vstd::pervasive::unreached(),
                };
                match self.handle_event_on_eventfd(fd, &read) {
                    EventFdAction::RemoveFd => EventAction::RemoveFd(fd),
                    EventFdAction::Ignore => EventAction::Continue,
                    EventFdAction::Foreign(value) => EventAction::Foreign { fd, value },
                    EventFdAction::Poll(id) => EventAction::Poll(id),
                }
            },
            FdType::Socket => EventAction::WakeSocket(fd),
            FdType::Terminal => {
                let read = match read {
                    Some(r) => r,
                    None => vstd::pervasive::unreached(),
                };
                match self.handle_event_on_terminal(fd, &read) {
                    TerminalAction::RemoveFd => EventAction::RemoveFd(fd),
                    TerminalAction::Continue => EventAction::Continue,
                    TerminalAction::Stop => EventAction::Stop,
                }
            },
            FdType::Timer => match self.handle_event_on_timer(fd) {
                Some(waker) => EventAction::FireTimer { fd, waker },
                None => EventAction::UnknownTimer(fd),
            },
        }
    }

    /// Every live future's id is below the counter.
    pub proof fn lemma_live_ids_below_counter(&self, id: u64)
        requires
            self.wf(),
            self.futures_map().contains_key(id),
        ensures
            id < self.next_id(),
    {
    }
}

} // verus!

verus! {

/// The loop leaves only when the main future finishes or the stop command
/// arrives on standard input: no event but a read of "stop" from descriptor
/// 0 stops it, and no poll but one that finishes the main future does.
pub proof fn lemma_loop_leaves_only_on_main_or_stop<W>(
    timers: Map<i32, W>,
    signal_fd: i32,
    source: MyEventData,
    read: Option<FdRead<Vec<u8>>>,
    id: u64,
    ready: bool,
    main_id: u64,
)
    ensures
        event_action(timers, signal_fd, source, read) is Stop ==> {
            &&& source.kind == FdType::Terminal
            &&& source.fd == 0
            &&& read matches Some(FdRead::Read(bytes)) && is_stop(0, bytes@)
        },
        poll_flow(id, ready, main_id) is Break <==> ready && id == main_id,
{
}

/// Polling a future that stays pending changes nothing: taking it out and
/// handing it back leaves the same live futures.
pub proof fn lemma_pending_poll_restores<F>(futures: Map<u64, F>, id: u64)
    requires
        futures.contains_key(id),
    ensures
        futures_after_poll(futures.remove(id), id, futures[id], false) == futures,
{
    assert(futures.remove(id).insert(id, futures[id]) =~= futures);
}

/// A future that finished is never polled again: it is no longer live.
pub proof fn lemma_finished_future_is_gone<F>(futures: Map<u64, F>, id: u64, fut: F)
    ensures
        !futures_after_poll(futures.remove(id), id, fut, true).contains_key(id),
{
}

/// The waker of the last timer registration for a descriptor is the one
/// that the timer's event wakes.
pub proof fn lemma_last_timer_registration_wins<W>(
    timers: Map<i32, W>,
    msgs: Seq<RuntimeMsg<W>>,
    waker: W,
    timer_fd: i32,
    later: Seq<RuntimeMsg<W>>,
)
    requires
        forall|i: int|
            0 <= i < later.len() ==> !(#[trigger] later[i] matches RuntimeMsg::RegisterTimer {
                timer_fd: fd,
                ..
            } && fd == timer_fd),
    ensures
        timers_after(timers, msgs.push(RuntimeMsg::RegisterTimer { waker, timer_fd }) + later)
            .contains_key(timer_fd),
        timers_after(timers, msgs.push(RuntimeMsg::RegisterTimer { waker, timer_fd }) + later)[timer_fd]
            == waker,
    decreases later.len(),
{
    let first = msgs.push(RuntimeMsg::RegisterTimer { waker, timer_fd });
    if later.len() == 0 {
        assert(first + later =~= first);
        assert(first.drop_last() =~= msgs);
    } else {
        let shorter = later.drop_last();
        assert forall|i: int| 0 <= i < shorter.len() implies !(#[trigger] shorter[i] matches RuntimeMsg::RegisterTimer {
            timer_fd: fd,
            ..
        } && fd == timer_fd) by {
            assert(shorter[i] == later[i]);
        }
        lemma_last_timer_registration_wins(timers, msgs, waker, timer_fd, shorter);
        assert((first + later).drop_last() =~= first + shorter);
        assert((first + later).last() == later[later.len() - 1]);
    }
}

/// Every descriptor that a batch of messages asks epoll to watch has a
/// waker waiting on it afterwards: timers in the timer table, sockets in
/// the socket table.
pub proof fn lemma_registered_fds_have_wakers<W>(
    timers: Map<i32, W>,
    sockets: Map<i32, W>,
    msgs: Seq<RuntimeMsg<W>>,
)
    ensures
        forall|i: int|
            0 <= i < registrations_of(msgs).len() ==> {
                let reg = #[trigger] registrations_of(msgs)[i];
                &&& reg.kind == FdType::Timer ==> timers_after(timers, msgs).contains_key(reg.fd)
                &&& reg.kind == FdType::Socket ==> sockets_after(sockets, msgs).contains_key(reg.fd)
                &&& (reg.kind == FdType::Timer || reg.kind == FdType::Socket)
            },
    decreases msgs.len(),
{
    if msgs.len() > 0 {
        lemma_registered_fds_have_wakers(timers, sockets, msgs.drop_last());
        lemma_timers_only_grow(timers, msgs);
        lemma_sockets_only_grow(sockets, msgs);
    }
}

/// A batch of messages never forgets a timer registration.
pub proof fn lemma_timers_only_grow<W>(timers: Map<i32, W>, msgs: Seq<RuntimeMsg<W>>)
    requires
        msgs.len() > 0,
    ensures
        timers_after(timers, msgs.drop_last()).dom().subset_of(timers_after(timers, msgs).dom()),
{
}

/// A batch of messages never forgets a socket registration.
pub proof fn lemma_sockets_only_grow<W>(sockets: Map<i32, W>, msgs: Seq<RuntimeMsg<W>>)
    requires
        msgs.len() > 0,
    ensures
        sockets_after(sockets, msgs.drop_last()).dom().subset_of(sockets_after(sockets, msgs).dom()),
{
}

/// Wake messages leave both registration tables as they were.
pub proof fn lemma_wakes_keep_registrations<W>(
    timers: Map<i32, W>,
    sockets: Map<i32, W>,
    msgs: Seq<RuntimeMsg<W>>,
)
    requires
        forall|i: int| 0 <= i < msgs.len() ==> #[trigger] msgs[i] is Wake,
    ensures
        timers_after(timers, msgs) == timers,
        sockets_after(sockets, msgs) == sockets,
        registrations_of(msgs).len() == 0,
        woken_ids(msgs).len() == msgs.len(),
    decreases msgs.len(),
{
    if msgs.len() > 0 {
        let shorter = msgs.drop_last();
        assert forall|i: int| 0 <= i < shorter.len() implies #[trigger] shorter[i] is Wake by {
            assert(shorter[i] == msgs[i]);
        }
        lemma_wakes_keep_registrations(timers, sockets, shorter);
        assert(msgs.last() == msgs[msgs.len() - 1]);
    }
}

} // verus!

verus! {

/// Handing back a polled future touches no other future: a finished one is
/// simply not put back, a pending one is put back under its id, and every
/// other live future stays live with the same value.
pub proof fn lemma_finish_poll_keeps_other_futures<F>(futures: Map<u64, F>, id: u64, fut: F, other: u64)
    requires
        other != id,
    ensures
        futures_after_poll(futures, id, fut, true) == futures,
        futures_after_poll(futures, id, fut, false) == futures.insert(id, fut),
        futures_after_poll(futures, id, fut, false).contains_key(id),
        futures_after_poll(futures, id, fut, false)[id] == fut,
        futures_after_poll(futures, id, fut, true).contains_key(other) == futures.contains_key(other),
        futures_after_poll(futures, id, fut, false).contains_key(other) == futures.contains_key(other),
        futures.contains_key(other) ==> futures_after_poll(futures, id, fut, true)[other] == futures[other]
            && futures_after_poll(futures, id, fut, false)[other] == futures[other],
{
}

/// Timer registrations compose: applying two batches in turn is applying
/// their concatenation.
pub proof fn lemma_timers_after_concat<W>(timers: Map<i32, W>, a: Seq<RuntimeMsg<W>>, b: Seq<RuntimeMsg<W>>)
    ensures
        timers_after(timers, a + b) == timers_after(timers_after(timers, a), b),
    decreases b.len(),
{
    if b.len() == 0 {
        assert(a + b =~= a);
    } else {
        lemma_timers_after_concat(timers, a, b.drop_last());
        assert((a + b).drop_last() =~= a + b.drop_last());
        assert((a + b).last() == b.last());
    }
}

/// Socket registrations compose: applying two batches in turn is applying
/// their concatenation.
pub proof fn lemma_sockets_after_concat<W>(sockets: Map<i32, W>, a: Seq<RuntimeMsg<W>>, b: Seq<RuntimeMsg<W>>)
    ensures
        sockets_after(sockets, a + b) == sockets_after(sockets_after(sockets, a), b),
    decreases b.len(),
{
    if b.len() == 0 {
        assert(a + b =~= a);
    } else {
        lemma_sockets_after_concat(sockets, a, b.drop_last());
        assert((a + b).drop_last() =~= a + b.drop_last());
        assert((a + b).last() == b.last());
    }
}

/// The woken futures of two batches are those of the first, then those of
/// the second.
pub proof fn lemma_woken_ids_concat<W>(a: Seq<RuntimeMsg<W>>, b: Seq<RuntimeMsg<W>>)
    ensures
        woken_ids(a + b) == woken_ids(a) + woken_ids(b),
    decreases b.len(),
{
    if b.len() == 0 {
        assert(a + b =~= a);
        assert(woken_ids(a) + woken_ids(b) =~= woken_ids(a));
    } else {
        lemma_woken_ids_concat(a, b.drop_last());
        assert((a + b).drop_last() =~= a + b.drop_last());
        assert((a + b).last() == b.last());
        assert(woken_ids(a) + woken_ids(b.drop_last()).push(b.last()->future_id) =~= (woken_ids(a)
            + woken_ids(b.drop_last())).push(b.last()->future_id));
    }
}

/// The registrations of two batches are those of the first, then those of
/// the second.
pub proof fn lemma_registrations_concat<W>(a: Seq<RuntimeMsg<W>>, b: Seq<RuntimeMsg<W>>)
    ensures
        registrations_of(a + b) == registrations_of(a) + registrations_of(b),
    decreases b.len(),
{
    if b.len() == 0 {
        assert(a + b =~= a);
        assert(registrations_of(a) + registrations_of(b) =~= registrations_of(a));
    } else {
        lemma_registrations_concat(a, b.drop_last());
        assert((a + b).drop_last() =~= a + b.drop_last());
        assert((a + b).last() == b.last());
        match registration_of(b.last()) {
            Some(r) => {
                assert(registrations_of(a) + registrations_of(b.drop_last()).push(r) =~= (
                registrations_of(a) + registrations_of(b.drop_last())).push(r));
            },
            None => {},
        }
    }
}

/// What a single message does: a timer registration maps its descriptor to
/// its waker in the timer table, a socket registration does so in the socket
/// table, each asks for one epoll registration of its descriptor (a socket
/// tolerating an existing one), and a wake message asks to poll its future
/// and changes no table.
pub proof fn lemma_single_message<W>(timers: Map<i32, W>, sockets: Map<i32, W>, msg: RuntimeMsg<W>)
    ensures
        match msg {
            RuntimeMsg::RegisterTimer { waker, timer_fd } => {
                &&& timers_after(timers, seq![msg]) == timers.insert(timer_fd, waker)
                &&& sockets_after(sockets, seq![msg]) == sockets
                &&& registrations_of(seq![msg]) == seq![
                    Registration { fd: timer_fd, kind: FdType::Timer, exists_ok: false },
                ]
                &&& woken_ids(seq![msg]) == Seq::<u64>::empty()
            },
            RuntimeMsg::RegisterTcpStream { waker, socket } => {
                &&& timers_after(timers, seq![msg]) == timers
                &&& sockets_after(sockets, seq![msg]) == sockets.insert(socket, waker)
                &&& registrations_of(seq![msg]) == seq![
                    Registration { fd: socket, kind: FdType::Socket, exists_ok: true },
                ]
                &&& woken_ids(seq![msg]) == Seq::<u64>::empty()
            },
            RuntimeMsg::Wake { future_id } => {
                &&& timers_after(timers, seq![msg]) == timers
                &&& sockets_after(sockets, seq![msg]) == sockets
                &&& registrations_of(seq![msg]) == Seq::<Registration>::empty()
                &&& woken_ids(seq![msg]) == seq![future_id]
            },
        },
{
    let one = seq![msg];
    assert(one.drop_last() =~= Seq::<RuntimeMsg<W>>::empty());
    assert(one.last() == msg);
    assert(timers_after(timers, one.drop_last()) == timers);
    assert(sockets_after(sockets, one.drop_last()) == sockets);
    assert(woken_ids(one.drop_last()) == Seq::<u64>::empty());
    assert(registrations_of(one.drop_last()) == Seq::<Registration>::empty());
    match msg {
        RuntimeMsg::Wake { future_id } => {
            assert(Seq::<u64>::empty().push(future_id) =~= seq![future_id]);
        },
        RuntimeMsg::RegisterTimer { timer_fd, .. } => {
            let r = Registration { fd: timer_fd, kind: FdType::Timer, exists_ok: false };
            assert(Seq::<Registration>::empty().push(r) =~= seq![r]);
        },
        RuntimeMsg::RegisterTcpStream { socket, .. } => {
            let r = Registration { fd: socket, kind: FdType::Socket, exists_ok: true };
            assert(Seq::<Registration>::empty().push(r) =~= seq![r]);
        },
    }
}

/// The waker of the last socket registration for a descriptor is the one
/// that the socket's events wake.
pub proof fn lemma_last_socket_registration_wins<W>(
    sockets: Map<i32, W>,
    msgs: Seq<RuntimeMsg<W>>,
    waker: W,
    socket: i32,
    later: Seq<RuntimeMsg<W>>,
)
    requires
        forall|i: int|
            0 <= i < later.len() ==> !(#[trigger] later[i] matches RuntimeMsg::RegisterTcpStream {
                socket: s,
                ..
            } && s == socket),
    ensures
        sockets_after(sockets, msgs.push(RuntimeMsg::RegisterTcpStream { waker, socket }) + later)
            .contains_key(socket),
        sockets_after(sockets, msgs.push(RuntimeMsg::RegisterTcpStream { waker, socket }) + later)[socket]
            == waker,
    decreases later.len(),
{
    let first = msgs.push(RuntimeMsg::RegisterTcpStream { waker, socket });
    if later.len() == 0 {
        assert(first + later =~= first);
        assert(first.drop_last() =~= msgs);
    } else {
        let shorter = later.drop_last();
        assert forall|i: int| 0 <= i < shorter.len() implies !(#[trigger] shorter[i] matches RuntimeMsg::RegisterTcpStream {
            socket: s,
            ..
        } && s == socket) by {
            assert(shorter[i] == later[i]);
        }
        lemma_last_socket_registration_wins(sockets, msgs, waker, socket, shorter);
        assert((first + later).drop_last() =~= first + shorter);
        assert((first + later).last() == later[later.len() - 1]);
    }
}

/// A batch leaves the timer of a descriptor it does not register as it was.
pub proof fn lemma_unregistered_timer_unchanged<W>(timers: Map<i32, W>, msgs: Seq<RuntimeMsg<W>>, fd: i32)
    requires
        forall|i: int|
            0 <= i < msgs.len() ==> !(#[trigger] msgs[i] matches RuntimeMsg::RegisterTimer {
                timer_fd: f,
                ..
            } && f == fd),
    ensures
        timers_after(timers, msgs).contains_key(fd) == timers.contains_key(fd),
        timers.contains_key(fd) ==> timers_after(timers, msgs)[fd] == timers[fd],
    decreases msgs.len(),
{
    if msgs.len() > 0 {
        let shorter = msgs.drop_last();
        assert forall|i: int| 0 <= i < shorter.len() implies !(#[trigger] shorter[i] matches RuntimeMsg::RegisterTimer {
            timer_fd: f,
            ..
        } && f == fd) by {
            assert(shorter[i] == msgs[i]);
        }
        lemma_unregistered_timer_unchanged(timers, shorter, fd);
        assert(msgs.last() == msgs[msgs.len() - 1]);
    }
}

/// A batch leaves the waker of a socket it does not register as it was.
pub proof fn lemma_unregistered_socket_unchanged<W>(sockets: Map<i32, W>, msgs: Seq<RuntimeMsg<W>>, fd: i32)
    requires
        forall|i: int|
            0 <= i < msgs.len() ==> !(#[trigger] msgs[i] matches RuntimeMsg::RegisterTcpStream {
                socket: s,
                ..
            } && s == fd),
    ensures
        sockets_after(sockets, msgs).contains_key(fd) == sockets.contains_key(fd),
        sockets.contains_key(fd) ==> sockets_after(sockets, msgs)[fd] == sockets[fd],
    decreases msgs.len(),
{
    if msgs.len() > 0 {
        let shorter = msgs.drop_last();
        assert forall|i: int| 0 <= i < shorter.len() implies !(#[trigger] shorter[i] matches RuntimeMsg::RegisterTcpStream {
            socket: s,
            ..
        } && s == fd) by {
            assert(shorter[i] == msgs[i]);
        }
        lemma_unregistered_socket_unchanged(sockets, shorter, fd);
        assert(msgs.last() == msgs[msgs.len() - 1]);
    }
}

/// How the loop reacts to each kind of event: end of input on a read
/// descriptor removes it; a failed read goes on; the runtime's eventfd polls
/// the future whose id its counter holds, another eventfd reports its value;
/// a socket wakes its waker; a timer fires its waker if one waits; and a
/// terminal stops the loop exactly on the stop command.
pub proof fn lemma_event_action_cases<W>(
    timers: Map<i32, W>,
    signal_fd: i32,
    source: MyEventData,
    read: FdRead<Vec<u8>>,
)
    ensures
        source.kind == FdType::EventFd || source.kind == FdType::Terminal ==> {
            &&& read is Closed ==> event_action(timers, signal_fd, source, Some(read))
                == EventAction::<W>::RemoveFd(source.fd)
            &&& read is Failed ==> event_action(timers, signal_fd, source, Some(read))
                is Continue
        },
        source.kind == FdType::EventFd ==> (read matches FdRead::Read(bytes) ==> {
            let v = native_value(bytes@.take(8)) as u64;
            &&& source.fd == signal_fd ==> event_action(timers, signal_fd, source, Some(read))
                == EventAction::<W>::Poll(v)
            &&& source.fd != signal_fd ==> event_action(timers, signal_fd, source, Some(read))
                == EventAction::<W>::Foreign { fd: source.fd, value: v }
        }),
        source.kind == FdType::Terminal ==> (read matches FdRead::Read(bytes) ==> {
            &&& is_stop(source.fd, bytes@) ==> event_action(timers, signal_fd, source, Some(read))
                is Stop
            &&& !is_stop(source.fd, bytes@) ==> event_action(timers, signal_fd, source, Some(read))
                is Continue
        }),
        source.kind == FdType::Socket ==> event_action(timers, signal_fd, source, None)
            == EventAction::<W>::WakeSocket(source.fd),
        source.kind == FdType::Timer ==> {
            &&& timers.contains_key(source.fd) ==> event_action(timers, signal_fd, source, None)
                == EventAction::FireTimer { fd: source.fd, waker: timers[source.fd] }
            &&& !timers.contains_key(source.fd) ==> event_action(timers, signal_fd, source, None)
                == EventAction::<W>::UnknownTimer(source.fd)
        },
{
}

} // verus!
