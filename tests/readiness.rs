use rust_async::asynchronous::{NotifyEvent, SelectMode as AsyncMode};
use rust_async::epoll::{epoll_event, events_flag, notify_events, EPOLLERR, EPOLLHUP, EPOLLIN, EPOLLOUT, EPOLLPRI};
use rust_async::epoll_selector::{
    epoll_create_error, epoll_ctl_error, events_flags, ready_mode, select_events, EBADF, EMFILE, ENFILE,
    ENOMEM, ENOSPC,
};
use rust_async::io_error::IoError;
use rust_async::select::{ReadyMode, SelectEvent, SelectMode};

#[test]
fn events_flag_values() {
    assert_eq!(events_flag(false, AsyncMode::Read), 0x001);
    assert_eq!(events_flag(false, AsyncMode::Write), 0x004);
    assert_eq!(events_flag(false, AsyncMode::Both), 0x005);
    assert_eq!(events_flag(true, AsyncMode::Read), 0x4000_0001);
    assert_eq!(events_flag(true, AsyncMode::Both), 0x4000_0005);
}

#[test]
fn events_flags_values() {
    assert_eq!(events_flags(SelectMode::SelectRead, true), 0x001);
    assert_eq!(events_flags(SelectMode::SelectWrite, true), 0x004);
    assert_eq!(events_flags(SelectMode::SelectBoth, true), 0x005);
    assert_eq!(events_flags(SelectMode::SelectIgnore, true), 0);
    assert_eq!(events_flags(SelectMode::SelectRead, false), 0x4000_0001);
    assert_eq!(events_flags(SelectMode::SelectIgnore, false), 0x4000_0000);
}

#[test]
fn ready_mode_classifies_event_bits() {
    assert_eq!(ready_mode(EPOLLIN), Some(ReadyMode::ReadyRead));
    assert_eq!(ready_mode(EPOLLOUT), Some(ReadyMode::ReadyWrite));
    assert_eq!(ready_mode(EPOLLIN | EPOLLOUT), Some(ReadyMode::ReadyBoth));
    assert_eq!(ready_mode(EPOLLERR), Some(ReadyMode::ReadyBoth));
    assert_eq!(ready_mode(EPOLLHUP | EPOLLIN), Some(ReadyMode::ReadyBoth));
    assert_eq!(ready_mode(0), None);
    assert_eq!(ready_mode(EPOLLPRI), None);
}

#[test]
fn select_events_keeps_order_and_data() {
    let batch = [
        epoll_event { events: EPOLLIN, data: 7 },
        epoll_event { events: EPOLLOUT, data: 8 },
        epoll_event { events: EPOLLHUP, data: 9 },
    ];
    assert_eq!(
        select_events(&batch),
        Some(vec![
            SelectEvent { mode: ReadyMode::ReadyRead, data: 7 },
            SelectEvent { mode: ReadyMode::ReadyWrite, data: 8 },
            SelectEvent { mode: ReadyMode::ReadyBoth, data: 9 },
        ])
    );
    assert_eq!(select_events(&[]), Some(vec![]));
}

#[test]
fn select_events_rejects_a_record_without_readiness() {
    let batch = [epoll_event { events: EPOLLIN, data: 1 }, epoll_event { events: EPOLLPRI, data: 2 }];
    assert_eq!(select_events(&batch), None);
}

#[test]
fn notify_events_report_both_directions() {
    let batch = [epoll_event { events: EPOLLIN, data: 42 }, epoll_event { events: EPOLLOUT, data: 43 }];
    assert_eq!(
        notify_events(&batch),
        vec![
            NotifyEvent { mode: AsyncMode::Both, data: 42 },
            NotifyEvent { mode: AsyncMode::Both, data: 43 },
        ]
    );
}

#[test]
fn ctl_errors_by_errno() {
    assert_eq!(epoll_ctl_error(0, EBADF), Ok(()));
    assert_eq!(epoll_ctl_error(-1, EBADF), Err(IoError::BadDescriptor));
    assert_eq!(epoll_ctl_error(-1, ENOMEM), Err(IoError::NoMemory));
    assert_eq!(epoll_ctl_error(-1, ENOSPC), Err(IoError::WatchLimit));
    assert_eq!(epoll_ctl_error(-1, 22), Err(IoError::Os(22)));
}

#[test]
fn create_errors_by_errno() {
    assert_eq!(epoll_create_error(5, 0), Ok(5));
    assert_eq!(epoll_create_error(-1, EMFILE), Err(IoError::InstanceLimit));
    assert_eq!(epoll_create_error(-1, ENFILE), Err(IoError::FileLimit));
    assert_eq!(epoll_create_error(-1, ENOMEM), Err(IoError::NoMemoryForInstance));
    assert_eq!(epoll_create_error(-1, 22), Err(IoError::Os(22)));
}

#[test]
fn error_descriptions() {
    assert_eq!(IoError::BadDescriptor.desc(), "Invalid file descriptor.");
    assert_eq!(
        IoError::FileLimit.desc(),
        "The system limit on the total number of open files has been reached."
    );
    assert_eq!(IoError::Os(5).desc(), "The operating system reported an error.");
}
