//! The two ends of a child's pseudo-terminal, and what their errors mean.

use vstd::prelude::*;

verus! {

/// The error number that reading from the master of a pseudo-terminal gives once the
/// child has closed its end.
pub const EIO: i32 = 5;

/// What is known of an I/O error: whether it tells of a broken pipe, and the error
/// number of the operating system, if it has one.
#[derive(Clone, Copy, Debug, PartialEq, Eq, Structural)]
pub struct IoFailure {
    pub broken_pipe: bool,
    pub raw_os_error: Option<i32>,
}

/// The writing end. Once the child has closed its end, it takes every write and drops
/// it.
#[derive(Clone, Copy, Debug, PartialEq, Eq, Structural)]
pub struct Input {
    pub open: bool,
}

/// The reading end. Once the child has closed its end, it is at its end for good.
#[derive(Clone, Copy, Debug, PartialEq, Eq, Structural)]
pub struct Output {
    pub open: bool,
}

impl Input {
    pub fn new() -> (input: Input)
        ensures
            input.open,
    {
        Input { open: true }
    }

    /// Whether a write still goes to the child. A write to a closed end succeeds and
    /// does nothing.
    pub fn is_open(&self) -> (open: bool)
        ensures
            open == self.open,
    {
        self.open
    }

    /// Takes note of an error of a write or a flush. A broken pipe closes the end and
    /// is absorbed: the operation counts as done. Any other error is passed on.
    pub fn absorbs(&mut self, failure: &IoFailure) -> (absorbed: bool)
        ensures
            absorbed == failure.broken_pipe,
            final(self).open == (old(self).open && !failure.broken_pipe),
    {
        if failure.broken_pipe {
            self.open = false;
            true
        } else {
            false
        }
    }
}

impl Output {
    pub fn new() -> (output: Output)
        ensures
            output.open,
    {
        Output { open: true }
    }

    /// Whether there may be more to read. A closed end is at its end.
    pub fn is_open(&self) -> (open: bool)
        ensures
            open == self.open,
    {
        self.open
    }

    /// Takes note of an error of a read. The error number 5 closes the end and is
    /// absorbed: the stream is at its end. Any other error is passed on.
    pub fn absorbs(&mut self, failure: &IoFailure) -> (absorbed: bool)
        ensures
            absorbed == (failure.raw_os_error == Some(EIO)),
            final(self).open == (old(self).open && failure.raw_os_error != Some(EIO)),
    {
        match failure.raw_os_error {
            Some(code) => {
                if code == EIO {
                    self.open = false;
                    true
                } else {
                    false
                }
            },
            None => false,
        }
    }
}

} // verus!
