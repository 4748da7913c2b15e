//! The decisions of the example event loop that reads every descriptor
//! epoll reports readable and logs what arrives.

use vstd::prelude::*;

use crate::event::{FdType, MyEventData};
use crate::io::{eventfd_value, native_value, FdRead};
use crate::text::{is_stop, is_stop_command};

verus! {

/// What the example loop does with a read from a readable descriptor.
#[derive(Clone, Copy, Debug, PartialEq, Eq, Structural)]
pub enum ExampleStep {
    /// End of input: remove the descriptor from epoll.
    RemoveFd,
    /// The read failed: go on with the next event.
    Skip,
    /// An eventfd delivered this counter value: show it.
    ShowSignal(u64),
    /// A terminal or socket delivered a message: show it.
    ShowMessage,
    /// The stop command arrived on standard input: leave the loop.
    Stop,
    /// A timer fired: show it.
    ShowTimer,
}

/// The step for a read from the descriptor described by `data`.
pub open spec fn example_step(data: MyEventData, read: FdRead<Vec<u8>>) -> ExampleStep {
    match read {
        FdRead::Closed => ExampleStep::RemoveFd,
        FdRead::Failed(_) => ExampleStep::Skip,
        FdRead::Read(bytes) => match data.kind {
            FdType::EventFd => ExampleStep::ShowSignal(native_value(bytes@.take(8)) as u64),
            FdType::Terminal | FdType::Socket => if is_stop(data.fd, bytes@) {
                ExampleStep::Stop
            } else {
                ExampleStep::ShowMessage
            },
            FdType::Timer => ExampleStep::ShowTimer,
        },
    }
}

/// Decides what the example loop does with a read from the descriptor
/// described by `data`; a read from an eventfd holds the eight bytes of its
/// counter.
pub fn example_event_step(data: MyEventData, read: &FdRead<Vec<u8>>) -> (r: ExampleStep)
    requires
        data.kind == FdType::EventFd ==> (read matches FdRead::Read(bytes) ==> bytes@.len() >= 8),
    ensures
        r == example_step(data, *read),
{
    match read {
        FdRead::Closed => ExampleStep::RemoveFd,
        FdRead::Failed(_) => ExampleStep::Skip,
        FdRead::Read(bytes) => match data.kind {
            FdType::EventFd => match eventfd_value(bytes.as_slice()) {
                Some(v) => ExampleStep::ShowSignal(v),
                None => vstd::pervasive::unreached(),
            },
            FdType::Terminal | FdType::Socket => {
                if is_stop_command(data.fd, bytes.as_slice()) {
                    ExampleStep::Stop
                } else {
                    ExampleStep::ShowMessage
                }
            },
            FdType::Timer => ExampleStep::ShowTimer,
        },
    }
}

} // verus!

verus! {

/// What the example loop does with each read: end of input removes the
/// descriptor whatever its kind, a failed read is skipped, an eventfd shows
/// its counter value, a timer shows that it fired, and a terminal or socket
/// stops the loop exactly on the stop command and shows the message
/// otherwise.
pub proof fn lemma_example_step_cases(data: MyEventData, read: FdRead<Vec<u8>>)
    ensures
        read is Closed ==> example_step(data, read) == ExampleStep::RemoveFd,
        read is Failed ==> example_step(data, read) == ExampleStep::Skip,
        read matches FdRead::Read(bytes) ==> {
            &&& data.kind == FdType::EventFd ==> example_step(data, read) == ExampleStep::ShowSignal(
                native_value(bytes@.take(8)) as u64,
            )
            &&& data.kind == FdType::Timer ==> example_step(data, read) == ExampleStep::ShowTimer
            &&& (data.kind == FdType::Terminal || data.kind == FdType::Socket) ==> (example_step(
                data,
                read,
            ) == ExampleStep::Stop <==> is_stop(data.fd, bytes@))
            &&& (data.kind == FdType::Terminal || data.kind == FdType::Socket) && !is_stop(
                data.fd,
                bytes@,
            ) ==> example_step(data, read) == ExampleStep::ShowMessage
        },
{
}

} // verus!
