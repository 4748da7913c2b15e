//! The decision-making core of a small single-threaded async runtime built
//! around epoll: how the user data of an epoll event is packed, how the event
//! loop reacts to messages and events, and the progress of the runtime's
//! leaf futures (sleep, TCP connect, TCP read).

pub mod event;
pub mod event_loop;
pub mod io;
pub mod text;
pub mod sleep;
pub mod tcp;
pub mod example;
