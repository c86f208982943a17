pub mod pipeline;
pub mod narrowing;
pub mod filters;
pub mod laws;
pub mod io_error;
pub mod asynchronous;
pub mod select;
pub mod epoll;
pub mod epoll_selector;
