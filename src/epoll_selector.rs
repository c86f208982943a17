use vstd::prelude::*;

use crate::epoll::{epoll_event, EPOLLERR, EPOLLHUP, EPOLLIN, EPOLLONESHOT, EPOLLOUT};
use crate::io_error::{IoError, IoResult};
use crate::select::{ReadyMode, SelectEvent, SelectMode};

verus! {

pub const EINTR: i32 = 4;

pub const EBADF: i32 = 9;

pub const ENOMEM: i32 = 12;

pub const ENFILE: i32 = 23;

pub const EMFILE: i32 = 24;

pub const ENOSPC: i32 = 28;

/// Something that has a file descriptor that epoll can watch.
pub trait EpollSelectable {
    fn get_fd(&self) -> i32;
}

/// The event bits that `mode` asks for.
pub open spec fn mode_bits(mode: SelectMode) -> u32 {
    match mode {
        SelectMode::SelectRead => EPOLLIN,
        SelectMode::SelectWrite => EPOLLOUT,
        SelectMode::SelectBoth => EPOLLIN | EPOLLOUT,
        SelectMode::SelectIgnore => 0,
    }
}

/// The event bits of a registration for `mode`; without `rearm` the
/// registration fires once.
pub fn events_flags(mode: SelectMode, rearm: bool) -> (r: u32)
    ensures
        r == (if rearm {
            mode_bits(mode)
        } else {
            mode_bits(mode) | EPOLLONESHOT
        }),
{
    let events = match mode {
        SelectMode::SelectRead => EPOLLIN,
        SelectMode::SelectWrite => EPOLLOUT,
        SelectMode::SelectBoth => EPOLLIN | EPOLLOUT,
        SelectMode::SelectIgnore => 0,
    };
    if !rearm {
        events | EPOLLONESHOT
    } else {
        events
    }
}

pub open spec fn is_set(events: u32, flag: u32) -> bool {
    events & flag != 0
}

/// What the event bits report as ready: an error or a hang-up counts as
/// both directions; `None` when no direction is ready.
pub open spec fn readiness(events: u32) -> Option<ReadyMode> {
    if is_set(events, EPOLLERR) || is_set(events, EPOLLHUP) {
        Some(ReadyMode::ReadyBoth)
    } else if is_set(events, EPOLLIN) && is_set(events, EPOLLOUT) {
        Some(ReadyMode::ReadyBoth)
    } else if is_set(events, EPOLLIN) {
        Some(ReadyMode::ReadyRead)
    } else if is_set(events, EPOLLOUT) {
        Some(ReadyMode::ReadyWrite)
    } else {
        None
    }
}

pub fn ready_mode(events: u32) -> (r: Option<ReadyMode>)
    ensures
        r == readiness(events),
{
    if events & EPOLLERR != 0 || events & EPOLLHUP != 0 {
        Some(ReadyMode::ReadyBoth)
    } else if events & EPOLLIN != 0 && events & EPOLLOUT != 0 {
        Some(ReadyMode::ReadyBoth)
    } else if events & EPOLLIN != 0 {
        Some(ReadyMode::ReadyRead)
    } else if events & EPOLLOUT != 0 {
        Some(ReadyMode::ReadyWrite)
    } else {
        None
    }
}

/// The events for a batch of readiness records, in order; `None` when a
/// record reports no ready direction.
pub fn select_events(events: &[epoll_event]) -> (r: Option<Vec<SelectEvent>>)
    ensures
        r is None <==> exists|i: int|
            0 <= i < events@.len() && #[trigger] readiness(events@[i].events) is None,
        r matches Some(v) ==> v@.len() == events@.len() && forall|i: int|
            0 <= i < events@.len() ==> #[trigger] v@[i] == (SelectEvent {
                mode: readiness(events@[i].events)->Some_0,
                data: events@[i].data,
            }),
{
    let mut v: Vec<SelectEvent> = Vec::new();
    let mut i: usize = 0;
    while i < events.len()
        invariant
            i <= events@.len(),
            v@.len() == i,
            forall|j: int| 0 <= j < i ==> #[trigger] readiness(events@[j].events) is Some,
            forall|j: int|
                0 <= j < i ==> #[trigger] v@[j] == (SelectEvent {
                    mode: readiness(events@[j].events)->Some_0,
                    data: events@[j].data,
                }),
        decreases events@.len() - i,
    {
        match ready_mode(events[i].events) {
            Some(mode) => {
                v.push(SelectEvent { mode, data: events[i].data });
            },
            None => {
                return None;
            },
        }
        i = i + 1;
    }
    Some(v)
}

/// The error for an `errno` of a failed `epoll_ctl`.
pub open spec fn ctl_failure(errno: i32) -> IoError {
    if errno == EBADF {
        IoError::BadDescriptor
    } else if errno == ENOMEM {
        IoError::NoMemory
    } else if errno == ENOSPC {
        IoError::WatchLimit
    } else {
        IoError::Os(errno)
    }
}

/// The outcome of an `epoll_ctl` call that returned `res`, with `errno` as
/// the call left it.
pub fn epoll_ctl_error(res: i32, errno: i32) -> (r: IoResult<()>)
    ensures
        res >= 0 ==> r == Ok::<(), IoError>(()),
        res < 0 ==> r == Err::<(), IoError>(ctl_failure(errno)),
{
    if res >= 0 {
        Ok(())
    } else if errno == EBADF {
        Err(IoError::BadDescriptor)
    } else if errno == ENOMEM {
        Err(IoError::NoMemory)
    } else if errno == ENOSPC {
        Err(IoError::WatchLimit)
    } else {
        Err(IoError::Os(errno))
    }
}

/// The error for an `errno` of a failed `epoll_create1`.
pub open spec fn create_failure(errno: i32) -> IoError {
    if errno == EMFILE {
        IoError::InstanceLimit
    } else if errno == ENFILE {
        IoError::FileLimit
    } else if errno == ENOMEM {
        IoError::NoMemoryForInstance
    } else {
        IoError::Os(errno)
    }
}

/// The outcome of an `epoll_create1` call that returned `fd`, with `errno` as
/// the call left it: the new instance's descriptor, or the error.
pub fn epoll_create_error(fd: i32, errno: i32) -> (r: IoResult<i32>)
    ensures
        fd >= 0 ==> r == Ok::<i32, IoError>(fd),
        fd < 0 ==> r == Err::<i32, IoError>(create_failure(errno)),
{
    if fd >= 0 {
        Ok(fd)
    } else if errno == EMFILE {
        Err(IoError::InstanceLimit)
    } else if errno == ENFILE {
        Err(IoError::FileLimit)
    } else if errno == ENOMEM {
        Err(IoError::NoMemoryForInstance)
    } else {
        Err(IoError::Os(errno))
    }
}

} // verus!
