use vstd::prelude::*;

use crate::asynchronous::{NotifyEvent, SelectMode};

verus! {

pub const EPOLL_CTL_ADD: i32 = 1;

pub const EPOLL_CTL_MOD: i32 = 3;

pub const EPOLL_CTL_DEL: i32 = 2;

pub const EPOLLIN: u32 = 0x001;

pub const EPOLLOUT: u32 = 0x004;

pub const EPOLLRDHUP: u32 = 0x2000;

pub const EPOLLPRI: u32 = 0x002;

pub const EPOLLERR: u32 = 0x008;

pub const EPOLLHUP: u32 = 0x010;

pub const EPOLLET: u32 = 0x80000000;

pub const EPOLLONESHOT: u32 = 0x40000000;

/// The kernel's record of one registration or one readiness event: the event
/// bits, and the registration's data.
#[allow(non_camel_case_types)]
#[derive(PartialEq, Eq, Structural, Clone, Copy, Debug)]
pub struct epoll_event {
    pub events: u32,
    pub data: u64,
}

/// The event bits that `mode` asks for.
pub open spec fn mode_bits(mode: SelectMode) -> u32 {
    match mode {
        SelectMode::Read => EPOLLIN,
        SelectMode::Write => EPOLLOUT,
        SelectMode::Both => EPOLLIN | EPOLLOUT,
    }
}

/// The event bits of a registration for `mode`; `once_` asks for a single
/// notification.
pub fn events_flag(once_: bool, mode: SelectMode) -> (r: u32)
    ensures
        r == (if once_ {
            mode_bits(mode) | EPOLLONESHOT
        } else {
            mode_bits(mode)
        }),
{
    let events = match mode {
        SelectMode::Read => EPOLLIN,
        SelectMode::Write => EPOLLOUT,
        SelectMode::Both => EPOLLIN | EPOLLOUT,
    };
    if once_ {
        events | EPOLLONESHOT
    } else {
        events
    }
}

/// The notifications for a batch of readiness events: each keeps its data
/// and reports both directions as ready.
pub fn notify_events(events: &[epoll_event]) -> (r: Vec<NotifyEvent>)
    ensures
        r@.len() == events@.len(),
        forall|i: int|
            0 <= i < events@.len() ==> #[trigger] r@[i] == (NotifyEvent {
                mode: SelectMode::Both,
                data: events@[i].data,
            }),
{
    let mut r: Vec<NotifyEvent> = Vec::new();
    let mut i: usize = 0;
    while i < events.len()
        invariant
            i <= events@.len(),
            r@.len() == i,
            forall|j: int|
                0 <= j < i ==> #[trigger] r@[j] == (NotifyEvent {
                    mode: SelectMode::Both,
                    data: events@[j].data,
                }),
        decreases events@.len() - i,
    {
        r.push(NotifyEvent { mode: SelectMode::Both, data: events[i].data });
        i = i + 1;
    }
    r
}

} // verus!
