//! Basic traits for asynchronous code.
use vstd::prelude::*;

use crate::io_error::IoResult;

verus! {

/// An asynchronous reader.
pub trait AsyncReader {
    fn async_read(&mut self, output: &mut [u8]) -> IoResult<usize>;
}

/// An asynchronous writer.
pub trait AsyncWriter {
    fn async_write(&mut self, input: &[u8]) -> IoResult<usize>;
}

/// Something that starts listening and then hands out an acceptor.
pub trait AsyncListener<T, A: AsyncAcceptor<T>> {
    fn listen(self) -> IoResult<A>;
}

/// Accepts incoming connections.
pub trait AsyncAcceptor<T> {
    fn accept(&mut self) -> IoResult<T>;
}

/// What readiness a registration asks for.
#[derive(PartialEq, Eq, Structural, Clone, Copy, Debug)]
pub enum SelectMode {
    Read,
    Write,
    Both,
}

/// Registers file descriptors for readiness notification; `data` comes back
/// with each notification.
pub trait Selector {
    fn add(&self, once_: bool, fd: i32, data: u64, mode: SelectMode) -> IoResult<()>;

    fn modify(&self, once_: bool, fd: i32, data: u64, mode: SelectMode) -> IoResult<()>;

    fn remove(&self, fd: i32) -> IoResult<()>;
}

/// Receives the readiness events of one wait.
pub trait SelectNotifier {
    fn notify(&self, events: &[NotifyEvent]);
}

/// One readiness event: what is ready, and the registration's data.
#[derive(PartialEq, Eq, Structural, Clone, Copy, Debug)]
pub struct NotifyEvent {
    pub mode: SelectMode,
    pub data: u64,
}

} // verus!
