//! The loops that read or write a whole buffer, one system call at a time.
//!
//! A transfer keeps count of the bytes moved so far.  After each read or
//! write the caller hands in the outcome and learns whether to go on.

use crate::io_error::{Error, ErrorKind};
use vstd::prelude::*;

verus! {

/// How far a buffer of `len` bytes has been read or written.
#[derive(Clone, Copy, Debug, PartialEq, Eq, Structural)]
pub struct Transfer {
    /// The length of the buffer.
    pub len: usize,
    /// The number of bytes moved so far: the next call works on the buffer
    /// from this index on.
    pub done: usize,
    /// The offset in the file at which the next call reads or writes.
    pub offset: u64,
}

impl Transfer {
    /// No more bytes are moved than the buffer has, and the offsets of the
    /// bytes to come are offsets.
    pub open spec fn wf(self) -> bool {
        &&& self.done <= self.len
        &&& self.offset + (self.len - self.done) <= u64::MAX
    }

    /// The whole buffer has been moved.
    pub open spec fn is_complete_spec(self) -> bool {
        self.done == self.len
    }

    /// The transfer after a call has moved `n` bytes: the index in the
    /// buffer and the offset in the file go up by `n` together.
    pub open spec fn advanced(self, n: usize) -> Transfer {
        Transfer { done: (self.done + n) as usize, offset: (self.offset + n) as u64, ..self }
    }

    /// One turn of the loop.  A call that moved bytes advances the
    /// transfer.  One that moved none ends it with the error `stalled`.  An
    /// interrupted call changes nothing and the loop goes on; any other
    /// error ends it.
    pub open spec fn turn_spec(self, result: Result<usize, Error>, stalled: Error) -> (
        Transfer,
        Result<(), Error>,
    ) {
        match result {
            Ok(n) => if n == 0 {
                (self, Err(stalled))
            } else {
                (self.advanced(n), Ok(()))
            },
            Err(e) => if e.kind() == ErrorKind::Interrupted {
                (self, Ok(()))
            } else {
                (self, Err(e))
            },
        }
    }

    /// The transfer of a buffer of `len` bytes to or from `offset`.
    pub fn new(len: usize, offset: u64) -> (transfer: Transfer)
        requires
            offset + len <= u64::MAX,
        ensures
            transfer == (Transfer { len, done: 0, offset }),
            transfer.wf(),
    {
        Transfer { len, done: 0, offset }
    }

    /// Whether the loop has ended: the whole buffer has been moved.
    #[verifier::when_used_as_spec(is_complete_spec)]
    pub fn is_complete(self) -> (complete: bool)
        ensures
            complete == self.is_complete_spec(),
    {
        self.done == self.len
    }

    /// The number of bytes still to move.
    pub fn remaining(self) -> (n: usize)
        requires
            self.wf(),
        ensures
            n == self.len - self.done,
    {
        self.len - self.done
    }

    /// Takes the outcome of one read or write into account.
    pub fn turn(&mut self, result: Result<usize, Error>, stalled: Error) -> (went: Result<(), Error>)
        requires
            old(self).wf(),
            result matches Ok(n) ==> n <= old(self).len - old(self).done,
        ensures
            (*final(self), went) == old(self).turn_spec(result, stalled),
            final(self).wf(),
            final(self).len == old(self).len,
            final(self).offset - final(self).done == old(self).offset - old(self).done,
    {
        match result {
            Ok(n) => {
                if n == 0 {
                    Err(stalled)
                } else {
                    self.done = self.done + n;
                    self.offset = self.offset + n as u64;
                    Ok(())
                }
            },
            Err(e) => {
                if e.kind().is(ErrorKind::Interrupted) {
                    Ok(())
                } else {
                    Err(e)
                }
            },
        }
    }
}

} // verus!
