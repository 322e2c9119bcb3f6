//! The coroutine that asks its driver to fill a buffer.
use vstd::prelude::*;

use crate::io::{Io, Output};

verus! {

/// The buffer a fresh read coroutine asks to have filled by default: this
/// many zero bytes.
pub const DEFAULT_READ_LEN: usize = 1024;

/// What a read coroutine does on one resume, from the buffer it holds and the
/// input it is given: the buffer it holds afterwards, and what it returns.
///
/// Without input it hands its buffer out as a read request and holds nothing,
/// or reports that it has nothing to ask for. With a read outcome it returns
/// the completed output, or hands the failed buffer back. Any other input
/// comes back wrapped as unexpected. Input never changes what it holds.
pub open spec fn read_step(held: Option<Vec<u8>>, input: Option<Io>) -> (Option<Vec<u8>>, Result<Output, Io>) {
    match input {
        None => match held {
            Some(buffer) => (None, Err(Io::Read(Err(buffer)))),
            None => (None, Err(Io::UnavailableInput)),
        },
        Some(Io::Read(Ok(output))) => (held, Ok(output)),
        Some(Io::Read(Err(buffer))) => (held, Err(Io::Read(Err(buffer)))),
        Some(other) => (held, Err(Io::UnexpectedInput(Box::new(other)))),
    }
}

/// I/O-free coroutine for reading bytes into a buffer.
#[derive(Debug)]
pub struct Read {
    buffer: Option<Vec<u8>>,
}

impl Read {
    /// The buffer the coroutine holds, if it is armed.
    pub closed spec fn held(&self) -> Option<Vec<u8>> {
        self.buffer
    }

    /// Creates a coroutine armed with the given buffer.
    pub fn new(buffer: Vec<u8>) -> (r: Self)
        ensures
            r.held() == Some(buffer),
    {
        let buffer = Some(buffer);
        Self { buffer }
    }

    /// Arms the coroutine with a new buffer, dropping any it held.
    pub fn set_buffer(&mut self, buffer: Vec<u8>)
        ensures
            final(self).held() == Some(buffer),
    {
        self.buffer = Some(buffer);
    }

    /// Makes the coroutine progress.
    pub fn resume(&mut self, input: Option<Io>) -> (r: Result<Output, Io>)
        ensures
            (final(self).held(), r) == read_step(old(self).held(), input),
    {
        match input {
            None => match self.buffer.take() {
                Some(buffer) => Err(Io::Read(Err(buffer))),
                None => Err(Io::UnavailableInput),
            },
            Some(Io::Read(Ok(output))) => Ok(output),
            Some(Io::Read(Err(buffer))) => Err(Io::Read(Err(buffer))),
            Some(other) => Err(Io::UnexpectedInput(Box::new(other))),
        }
    }
}

impl Default for Read {
    /// A coroutine armed with a zero-filled buffer of `DEFAULT_READ_LEN` bytes.
    fn default() -> (r: Self)
        ensures
            r.held() matches Some(buffer) && buffer@ == Seq::new(DEFAULT_READ_LEN as nat, |i: int| 0u8),
    {
        Self { buffer: Some(vec![0u8; DEFAULT_READ_LEN]) }
    }
}

/// A coroutine created with `buffer` hands out exactly that buffer, same
/// length and bytes, as a read request on its first resume without input,
/// and then holds nothing.
pub proof fn lemma_read_requests_its_buffer(buffer: Vec<u8>)
    ensures
        read_step(Some(buffer), None) == (None::<Vec<u8>>, Err::<Output, Io>(Io::Read(Err(buffer)))),
{
}

/// Resuming twice without input, with no new buffer set in between, reports
/// on the second resume that no input is available.
pub proof fn lemma_read_second_poll_is_unavailable(held: Option<Vec<u8>>)
    ensures
        read_step(read_step(held, None).0, None).1 == Err::<Output, Io>(Io::UnavailableInput),
{
}

/// A write outcome fed to a read coroutine comes back wrapped, unchanged, as
/// unexpected input, and leaves what the coroutine holds alone.
pub proof fn lemma_read_rejects_write_input(held: Option<Vec<u8>>, outcome: Result<Output, Vec<u8>>)
    ensures
        read_step(held, Some(Io::Write(outcome))) == (held, Err::<Output, Io>(Io::UnexpectedInput(Box::new(Io::Write(outcome))))),
{
}

/// A successful read outcome ends the cycle: resume returns its output exactly.
pub proof fn lemma_read_success_returns_output(held: Option<Vec<u8>>, output: Output)
    ensures
        read_step(held, Some(Io::Read(Ok(output)))).1 == Ok::<Output, Io>(output),
{
}

/// A failed read outcome comes back as a read failure that carries the same
/// buffer: the data that goes in is the data that comes out.
pub proof fn lemma_read_failure_returns_buffer(held: Option<Vec<u8>>, buffer: Vec<u8>)
    ensures
        read_step(held, Some(Io::Read(Err(buffer)))).1 == Err::<Output, Io>(Io::Read(Err(buffer))),
{
}

} // verus!
