use vstd::prelude::*;

verus! {

/// What an I/O operation of the readiness layer can fail with.
#[derive(PartialEq, Eq, Structural, Clone, Copy, Debug)]
pub enum IoError {
    /// The file descriptor is not valid.
    BadDescriptor,
    /// The kernel had too little memory for the operation.
    NoMemory,
    /// The per-user limit on watched descriptors was reached.
    WatchLimit,
    /// The per-user limit on epoll instances was reached.
    InstanceLimit,
    /// The system limit on open files was reached.
    FileLimit,
    /// The kernel had too little memory to create an epoll instance.
    NoMemoryForInstance,
    /// Another error, by the number that the operating system gave it.
    Os(i32),
}

pub type IoResult<T> = Result<T, IoError>;

impl IoError {
    /// A sentence that describes the error.
    pub fn desc(&self) -> (r: &'static str)
        ensures
            r@ == match self {
                IoError::BadDescriptor => "Invalid file descriptor."@,
                IoError::NoMemory => "There was insufficient memory to handle the requested operation."@,
                IoError::WatchLimit =>
                    "The limit imposed by /proc/sys/fs/epoll/max_user_watches was encountered while trying to register."@,
                IoError::InstanceLimit =>
                    "The per-user limit on the number of epoll instances imposed by /proc/sys/fs/epoll/max_user_instances was encountered."@,
                IoError::FileLimit => "The system limit on the total number of open files has been reached."@,
                IoError::NoMemoryForInstance => "There was insufficient memory to create the kernel object."@,
                IoError::Os(_) => "The operating system reported an error."@,
            },
    {
        match self {
            IoError::BadDescriptor => "Invalid file descriptor.",
            IoError::NoMemory => "There was insufficient memory to handle the requested operation.",
            IoError::WatchLimit =>
                "The limit imposed by /proc/sys/fs/epoll/max_user_watches was encountered while trying to register.",
            IoError::InstanceLimit =>
                "The per-user limit on the number of epoll instances imposed by /proc/sys/fs/epoll/max_user_instances was encountered.",
            IoError::FileLimit => "The system limit on the total number of open files has been reached.",
            IoError::NoMemoryForInstance => "There was insufficient memory to create the kernel object.",
            IoError::Os(_) => "The operating system reported an error.",
        }
    }
}

} // verus!
