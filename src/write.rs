//! The coroutine that asks its driver to write bytes.
use vstd::prelude::*;

use crate::io::{Io, Output};

verus! {

/// What a write coroutine does on one resume, from the bytes it holds and the
/// input it is given: the bytes it holds afterwards, and what it returns.
///
/// Without input it hands its bytes out as a write request and holds nothing,
/// or reports that it has nothing to ask for. With a write outcome it returns
/// the completed output, or hands the unwritten bytes back. Any other input
/// comes back wrapped as unexpected. Input never changes what it holds.
pub open spec fn write_step(held: Option<Vec<u8>>, input: Option<Io>) -> (Option<Vec<u8>>, Result<Output, Io>) {
    match input {
        None => match held {
            Some(bytes) => (None, Err(Io::Write(Err(bytes)))),
            None => (None, Err(Io::UnavailableInput)),
        },
        Some(Io::Write(Ok(output))) => (held, Ok(output)),
        Some(Io::Write(Err(bytes))) => (held, Err(Io::Write(Err(bytes)))),
        Some(other) => (held, Err(Io::UnexpectedInput(Box::new(other)))),
    }
}

/// The bytes pending after `more` is queued behind what is held: appended to
/// them when the coroutine is armed, on their own otherwise.
pub open spec fn queued(held: Option<Vec<u8>>, more: Seq<u8>) -> Seq<u8> {
    match held {
        Some(bytes) => bytes@ + more,
        None => more,
    }
}

/// I/O-free coroutine for writing bytes into a stream.
#[derive(Debug)]
pub struct Write {
    bytes: Option<Vec<u8>>,
}

impl Write {
    /// The bytes the coroutine holds, if it is armed.
    pub closed spec fn held(&self) -> Option<Vec<u8>> {
        self.bytes
    }

    /// Creates a coroutine armed with the given bytes.
    pub fn new(bytes: Vec<u8>) -> (r: Self)
        ensures
            r.held() == Some(bytes),
    {
        let bytes = Some(bytes);
        Self { bytes }
    }

    /// Arms the coroutine with the given bytes, dropping any it held.
    pub fn set_bytes(&mut self, bytes: Vec<u8>)
        ensures
            final(self).held() == Some(bytes),
    {
        self.bytes = Some(bytes);
    }

    /// Builder form of [`Write::set_bytes`].
    pub fn with_bytes(self, bytes: Vec<u8>) -> (r: Self)
        ensures
            r.held() == Some(bytes),
    {
        let mut coroutine = self;
        coroutine.set_bytes(bytes);
        coroutine
    }

    /// Appends the given bytes to those held, or arms the coroutine with them
    /// when it holds none.
    pub fn enqueue_bytes(&mut self, bytes: Vec<u8>)
        ensures
            final(self).held() matches Some(pending) && pending@ == queued(old(self).held(), bytes@),
    {
        let mut bytes = bytes;
        match self.bytes.take() {
            Some(mut prev_bytes) => {
                prev_bytes.append(&mut bytes);
                self.bytes = Some(prev_bytes);
            },
            None => self.set_bytes(bytes),
        }
    }

    /// Makes the coroutine progress.
    pub fn resume(&mut self, input: Option<Io>) -> (r: Result<Output, Io>)
        ensures
            (final(self).held(), r) == write_step(old(self).held(), input),
    {
        match input {
            None => match self.bytes.take() {
                Some(bytes) => Err(Io::Write(Err(bytes))),
                None => Err(Io::UnavailableInput),
            },
            Some(Io::Write(Ok(output))) => Ok(output),
            Some(Io::Write(Err(bytes))) => Err(Io::Write(Err(bytes))),
            Some(other) => Err(Io::UnexpectedInput(Box::new(other))),
        }
    }
}

impl Default for Write {
    /// A coroutine that holds no bytes.
    fn default() -> (r: Self)
        ensures
            r.held() is None,
    {
        Self { bytes: None }
    }
}

/// A coroutine created with `bytes` hands out exactly those bytes as a write
/// request on its first resume without input, and then holds nothing.
pub proof fn lemma_write_requests_its_bytes(bytes: Vec<u8>)
    ensures
        write_step(Some(bytes), None) == (None::<Vec<u8>>, Err::<Output, Io>(Io::Write(Err(bytes)))),
{
}

/// Resuming twice without input, with no new bytes set in between, reports
/// on the second resume that no input is available.
pub proof fn lemma_write_second_poll_is_unavailable(held: Option<Vec<u8>>)
    ensures
        write_step(write_step(held, None).0, None).1 == Err::<Output, Io>(Io::UnavailableInput),
{
}

/// A read outcome fed to a write coroutine comes back wrapped, unchanged, as
/// unexpected input, and leaves what the coroutine holds alone.
pub proof fn lemma_write_rejects_read_input(held: Option<Vec<u8>>, outcome: Result<Output, Vec<u8>>)
    ensures
        write_step(held, Some(Io::Read(outcome))) == (held, Err::<Output, Io>(Io::UnexpectedInput(Box::new(Io::Read(outcome))))),
{
}

/// A successful write outcome ends the cycle: resume returns its output exactly.
pub proof fn lemma_write_success_returns_output(held: Option<Vec<u8>>, output: Output)
    ensures
        write_step(held, Some(Io::Write(Ok(output)))).1 == Ok::<Output, Io>(output),
{
}

/// A failed write outcome comes back as a write failure that carries the same
/// bytes: the data that goes in is the data that comes out.
pub proof fn lemma_write_failure_returns_bytes(held: Option<Vec<u8>>, bytes: Vec<u8>)
    ensures
        write_step(held, Some(Io::Write(Err(bytes)))).1 == Err::<Output, Io>(Io::Write(Err(bytes))),
{
}

/// Bytes queued on an armed coroutine follow the bytes it already holds.
pub proof fn lemma_enqueue_appends(pending: Vec<u8>, more: Seq<u8>)
    ensures
        queued(Some(pending), more) == pending@ + more,
{
}

/// Bytes queued on a disarmed coroutine are all it holds afterwards, just as
/// if they had been set with `set_bytes`.
pub proof fn lemma_enqueue_on_disarmed_sets(bytes: Vec<u8>)
    ensures
        queued(None, bytes@) == bytes@,
{
}

/// Queuing `first` and then `second` leaves the same pending bytes as
/// queuing `first + second` at once: chunks keep the order of the calls.
pub proof fn lemma_enqueue_keeps_call_order(held: Option<Vec<u8>>, after_first: Vec<u8>, first: Seq<u8>, second: Seq<u8>)
    requires
        after_first@ == queued(held, first),
    ensures
        queued(Some(after_first), second) == queued(held, first + second),
{
    match held {
        Some(bytes) => assert(bytes@ + first + second =~= bytes@ + (first + second)),
        None => {},
    }
}

} // verus!
