//! The vocabulary shared by every coroutine and the driver that serves it.
use vstd::prelude::*;

verus! {

/// The payload of an operation that completed: the bytes it worked on and
/// how many of them the underlying I/O moved.
#[derive(Debug, PartialEq, Eq)]
pub struct Output {
    pub buffer: Vec<u8>,
    pub bytes_count: usize,
}

/// A message between a coroutine and its driver.
///
/// `Read` and `Write` travel both ways. From the coroutine, `Err(data)` is a
/// request: fill this buffer, or write these bytes. From the driver, `Ok` is
/// the outcome of a performed operation and `Err(data)` hands the data back
/// after a failure.
#[derive(Debug, PartialEq, Eq)]
pub enum Io {
    /// The coroutine was resumed without input while it had nothing to ask for.
    UnavailableInput,
    /// The coroutine was resumed with a message meant for another kind of
    /// coroutine; the message is carried back unchanged.
    UnexpectedInput(Box<Io>),
    /// A read request, or the outcome of a read.
    Read(Result<Output, Vec<u8>>),
    /// A write request, or the outcome of a write.
    Write(Result<Output, Vec<u8>>),
}

} // verus!
