use vstd::prelude::*;

use crate::io_error::IoResult;

verus! {

/// What readiness a registration asks for.
#[derive(PartialEq, Eq, Structural, Clone, Copy, Debug)]
pub enum SelectMode {
    SelectRead,
    SelectWrite,
    SelectBoth,
    SelectIgnore,
}

/// What a readiness event reports as ready.
#[derive(PartialEq, Eq, Structural, Clone, Copy, Debug)]
pub enum ReadyMode {
    ReadyRead,
    ReadyWrite,
    ReadyBoth,
}

/// A live registration, which can change what it asks for.
#[must_use]
pub trait SelectorHandle {
    fn modify(&mut self, mode: SelectMode, rearm: bool) -> IoResult<()>;
}

/// Registers selectables for readiness notification; `data` comes back with
/// each event of the registration.
pub trait Selector<S, H: SelectorHandle> {
    fn register(&self, selectable: S, data: u64, mode: SelectMode, rearm: bool) -> IoResult<H>;
}

/// One readiness event: what is ready, and the registration's data.
#[derive(PartialEq, Eq, Structural, Clone, Copy, Debug)]
pub struct SelectEvent {
    pub mode: ReadyMode,
    pub data: u64,
}

/// Receives the readiness events of one wait.
pub trait SelectNotifier {
    fn notify(&self, events: &[SelectEvent]);
}

} // verus!
