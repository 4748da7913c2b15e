//! The progress of the runtime's TCP futures: connecting a non-blocking
//! socket and reading into a buffer until it is full or the peer closes.

use vstd::prelude::*;

use crate::io::SysError;

verus! {

/// The address family of the address to connect to.
#[derive(Clone, Copy, Debug, PartialEq, Eq, Structural)]
pub enum AddressFamily {
    Inet,
    Inet6,
}

/// What the connecting future learns from the system.
#[derive(Clone, Copy, Debug, PartialEq, Eq)]
pub enum ConnectEvent {
    /// The future was polled.
    Polled,
    /// The answer to creating the socket.
    SocketCreated(Result<i32, SysError>),
    /// The answer to connecting the socket.
    ConnectDone(Result<(), SysError>),
}

/// What the connecting future does next.
#[derive(Clone, Copy, Debug, PartialEq, Eq)]
pub enum ConnectAction {
    /// Create a non-blocking stream socket of this family.
    CreateSocket(AddressFamily),
    /// Connect this socket to the address.
    Connect(i32),
    /// Register this socket with the runtime and stay pending.
    Wait(i32),
    /// Finish with a connected socket or an error.
    Ready(Result<i32, SysError>),
}

/// The socket a connection attempt holds after an event.
pub open spec fn connect_socket_after(socket: Option<i32>, ev: ConnectEvent) -> Option<i32> {
    match ev {
        ConnectEvent::SocketCreated(Ok(s)) => Some(s),
        _ => socket,
    }
}

/// What a connection attempt does after an event: a poll creates the
/// socket if there is none yet and connects otherwise; a new socket is
/// connected; a connection in progress waits; anything else finishes.
pub open spec fn connect_action(socket: Option<i32>, family: AddressFamily, ev: ConnectEvent) -> ConnectAction {
    match ev {
        ConnectEvent::Polled => match socket {
            Some(s) => ConnectAction::Connect(s),
            None => ConnectAction::CreateSocket(family),
        },
        ConnectEvent::SocketCreated(Ok(s)) => ConnectAction::Connect(s),
        ConnectEvent::SocketCreated(Err(e)) => ConnectAction::Ready(Err(e)),
        ConnectEvent::ConnectDone(Ok(())) => ConnectAction::Ready(Ok(socket.unwrap())),
        ConnectEvent::ConnectDone(Err(SysError::InProgress)) => ConnectAction::Wait(socket.unwrap()),
        ConnectEvent::ConnectDone(Err(e)) => ConnectAction::Ready(Err(e)),
    }
}

/// A connection attempt to an address of a given family.
pub struct TcpStreamConnect {
    family: AddressFamily,
    socket: Option<i32>,
}

impl TcpStreamConnect {
    pub closed spec fn family(&self) -> AddressFamily {
        self.family
    }

    pub closed spec fn socket(&self) -> Option<i32> {
        self.socket
    }

    /// An attempt that has not created its socket yet.
    pub fn new(family: AddressFamily) -> (r: Self)
        ensures
            r.family() == family,
            r.socket() == None::<i32>,
    {
        TcpStreamConnect { family, socket: None }
    }

    /// The socket created so far, if any.
    pub fn current_socket(&self) -> (r: Option<i32>)
        ensures
            r == self.socket(),
    {
        self.socket
    }

    /// Takes the next event and says what to do. A socket is created only
    /// when asked for, that is while there is none, and a connect result
    /// only comes for a socket that exists.
    pub fn step(&mut self, ev: ConnectEvent) -> (r: ConnectAction)
        requires
            ev is SocketCreated ==> old(self).socket() is None,
            ev is ConnectDone ==> old(self).socket() is Some,
        ensures
            final(self).family() == old(self).family(),
            final(self).socket() == connect_socket_after(old(self).socket(), ev),
            r == connect_action(old(self).socket(), old(self).family(), ev),
    {
        match ev {
            ConnectEvent::Polled => match self.socket {
                Some(s) => ConnectAction::Connect(s),
                None => ConnectAction::CreateSocket(self.family),
            },
            ConnectEvent::SocketCreated(Ok(s)) => {
                self.socket = Some(s);
                ConnectAction::Connect(s)
            },
            ConnectEvent::SocketCreated(Err(e)) => ConnectAction::Ready(Err(e)),
            ConnectEvent::ConnectDone(r) => {
                let s = match self.socket {
                    Some(s) => s,
                    None => vstd::pervasive::unreached(),
                };
                match r {
                    Ok(()) => ConnectAction::Ready(Ok(s)),
                    Err(SysError::InProgress) => ConnectAction::Wait(s),
                    Err(e) => ConnectAction::Ready(Err(e)),
                }
            },
        }
    }
}

/// A connection attempt obtains at most one socket: once it holds one, it
/// keeps it whatever comes next, and a poll then connects that socket
/// instead of creating another.
pub proof fn lemma_one_socket_per_connect(socket: i32, family: AddressFamily, ev: ConnectEvent)
    requires
        !(ev is SocketCreated),
    ensures
        connect_socket_after(Some(socket), ev) == Some(socket),
        connect_action(Some(socket), family, ConnectEvent::Polled) == ConnectAction::Connect(socket),
        !(connect_action(Some(socket), family, ev) is CreateSocket),
{
}

/// What a read future does after an answer from `recv`.
#[derive(Clone, Copy, Debug, PartialEq, Eq)]
pub enum ReadStep {
    /// Receive again into the buffer from this offset on.
    Recv(usize),
    /// Register the socket with the runtime and stay pending.
    Wait,
    /// Finish with the number of bytes read or an error.
    Ready(Result<usize, SysError>),
}

/// How many bytes have been read into a buffer of a given length.
pub struct Read {
    buf_len: usize,
    bytes_read: usize,
}

/// What a read does after `recv` answered `res` when `bytes_read` of
/// `buf_len` bytes were read: end of input or a full buffer finishes with
/// the count, a would-block waits, other errors finish with the error, and
/// otherwise it receives again after the new bytes.
pub open spec fn read_step(buf_len: usize, bytes_read: usize, res: Result<usize, SysError>) -> ReadStep {
    match res {
        Ok(n) => if n == 0 {
            ReadStep::Ready(Ok(bytes_read))
        } else if bytes_read + n >= buf_len {
            ReadStep::Ready(Ok((bytes_read + n) as usize))
        } else {
            ReadStep::Recv((bytes_read + n) as usize)
        },
        Err(SysError::WouldBlock) => ReadStep::Wait,
        Err(e) => ReadStep::Ready(Err(e)),
    }
}

impl Read {
    pub closed spec fn buf_len(&self) -> usize {
        self.buf_len
    }

    pub closed spec fn count(&self) -> usize {
        self.bytes_read
    }

    pub closed spec fn wf(&self) -> bool {
        self.bytes_read <= self.buf_len
    }

    /// A read into a buffer of `buf_len` bytes, nothing read yet.
    pub fn new(buf_len: usize) -> (r: Self)
        ensures
            r.wf(),
            r.buf_len() == buf_len,
            r.count() == 0,
    {
        Read { buf_len, bytes_read: 0 }
    }

    /// How many bytes have been read; the next `recv` fills the buffer from
    /// there on.
    pub fn bytes_read(&self) -> (r: usize)
        ensures
            r == self.count(),
    {
        self.bytes_read
    }

    /// Takes the answer of a `recv` into the rest of the buffer, which
    /// receives at most what is left of it.
    pub fn on_recv(&mut self, res: Result<usize, SysError>) -> (r: ReadStep)
        requires
            old(self).wf(),
            res matches Ok(n) ==> n <= old(self).buf_len() - old(self).count(),
        ensures
            final(self).wf(),
            final(self).buf_len() == old(self).buf_len(),
            final(self).count() == (match res {
                Ok(n) => old(self).count() + n,
                Err(_) => old(self).count() as int,
            }),
            r == read_step(old(self).buf_len(), old(self).count(), res),
    {
        match res {
            Ok(n) => {
                if n == 0 {
                    ReadStep::Ready(Ok(self.bytes_read))
                } else {
                    self.bytes_read = self.bytes_read + n;
                    if self.bytes_read >= self.buf_len {
                        ReadStep::Ready(Ok(self.bytes_read))
                    } else {
                        ReadStep::Recv(self.bytes_read)
                    }
                }
            },
            Err(SysError::WouldBlock) => ReadStep::Wait,
            Err(e) => ReadStep::Ready(Err(e)),
        }
    }
}

/// A read never reports more bytes than its buffer holds; what it reports
/// on success is everything read so far, and it finishes only with a full
/// buffer or after a receive of zero bytes (the peer closed); the next
/// receive starts right after the bytes already read.
pub proof fn lemma_read_count_within_buffer(buf_len: usize, bytes_read: usize, n: usize)
    requires
        bytes_read <= buf_len,
        n <= buf_len - bytes_read,
    ensures
        read_step(buf_len, bytes_read, Ok(n)) matches ReadStep::Ready(Ok(c)) ==> c == bytes_read + n
            && c <= buf_len && (c == buf_len || n == 0),
        read_step(buf_len, bytes_read, Ok(n)) matches ReadStep::Recv(off) ==> off == bytes_read + n
            && off < buf_len,
{
}

} // verus!

verus! {

/// What a read does with each answer of `recv`: a receive of zero bytes
/// (the peer closed) finishes with the count read so far; a would-block
/// waits without finishing; any other error `e` finishes with that error;
/// and `n` new bytes finish the read exactly when they fill the buffer,
/// reporting the new total, and otherwise receive again right after them.
pub proof fn lemma_read_step_cases(buf_len: usize, bytes_read: usize, n: usize, e: SysError)
    requires
        bytes_read <= buf_len,
        n <= buf_len - bytes_read,
    ensures
        read_step(buf_len, bytes_read, Ok(0)) == ReadStep::Ready(Ok::<usize, SysError>(bytes_read)),
        read_step(buf_len, bytes_read, Err(SysError::WouldBlock)) == ReadStep::Wait,
        e != SysError::WouldBlock ==> read_step(buf_len, bytes_read, Err(e)) == ReadStep::Ready(
            Err(e),
        ),
        n > 0 && bytes_read + n == buf_len ==> read_step(buf_len, bytes_read, Ok(n))
            == ReadStep::Ready(Ok::<usize, SysError>(buf_len)),
        n > 0 && bytes_read + n < buf_len ==> read_step(buf_len, bytes_read, Ok(n)) == ReadStep::Recv(
            (bytes_read + n) as usize,
        ),
{
}

/// What a connection attempt does at each step: a poll without a socket
/// creates one of the address's family, a poll with socket `s` connects it;
/// a new socket is kept and connected; a failed creation finishes with its
/// error `e`; a finished connect yields the socket, one in progress waits on
/// it, and any other connect error finishes with that error.
pub proof fn lemma_connect_cases(family: AddressFamily, s: i32, other: Option<i32>, e: SysError)
    ensures
        connect_action(None, family, ConnectEvent::Polled) == ConnectAction::CreateSocket(family),
        connect_action(Some(s), family, ConnectEvent::Polled) == ConnectAction::Connect(s),
        connect_action(other, family, ConnectEvent::SocketCreated(Ok(s))) == ConnectAction::Connect(s),
        connect_socket_after(other, ConnectEvent::SocketCreated(Ok(s))) == Some(s),
        connect_action(other, family, ConnectEvent::SocketCreated(Err(e))) == ConnectAction::Ready(
            Err(e),
        ),
        connect_socket_after(other, ConnectEvent::SocketCreated(Err(e))) == other,
        connect_action(Some(s), family, ConnectEvent::ConnectDone(Ok(()))) == ConnectAction::Ready(
            Ok(s),
        ),
        connect_action(Some(s), family, ConnectEvent::ConnectDone(Err(SysError::InProgress)))
            == ConnectAction::Wait(s),
        e != SysError::InProgress ==> connect_action(
            other,
            family,
            ConnectEvent::ConnectDone(Err(e)),
        ) == ConnectAction::Ready(Err(e)),
        connect_socket_after(other, ConnectEvent::ConnectDone(Ok(()))) == other,
        connect_socket_after(other, ConnectEvent::ConnectDone(Err(e))) == other,
{
}

} // verus!
