//! Waiting for an expected frame, as tests of a front-end do: how many
//! frames to read, and when to give up.

use vstd::prelude::*;

verus! {

/// How a wait for an expected frame goes on after a frame was read.
#[derive(Clone, Copy, Debug, PartialEq, Eq, Structural)]
pub enum Verdict {
    /// The frame is the expected one.
    Found,
    /// The frame is another one: the next frame is to be read.
    ReadOn,
    /// The core reported an error, and errors count as failures.
    CoreError,
}

/// The state of a wait for an expected frame.
#[derive(Clone, Copy, Debug, PartialEq, Eq, Structural)]
pub struct ResponseCheck {
    /// Whether errors of the core, and waiting too long, are failures.
    pub fail_on_errors: bool,
    /// The number at which the count of reads stops the wait.
    pub max_reqs: usize,
    /// The count of reads: 1 before the first frame is read.
    pub try_counter: usize,
}

impl ResponseCheck {
    /// The wait before its first read. Without a limit of its own, it
    /// stops at the count 5.
    pub fn new(fail_on_errors: bool, max_reqs: Option<usize>) -> (r: ResponseCheck)
        ensures
            r == (ResponseCheck {
                fail_on_errors,
                max_reqs: match max_reqs {
                    Some(n) => n,
                    None => 5,
                },
                try_counter: 1,
            }),
    {
        ResponseCheck {
            fail_on_errors,
            max_reqs: match max_reqs {
                Some(n) => n,
                None => 5,
            },
            try_counter: 1,
        }
    }

    /// Whether the wait has failed before the next read: the count has
    /// come to the limit, and waiting too long is a failure.
    pub fn gave_up(&self) -> (r: bool)
        ensures
            r == (self.try_counter == self.max_reqs && self.fail_on_errors),
    {
        self.try_counter == self.max_reqs && self.fail_on_errors
    }

    /// Takes note of a frame that was read. `is_error` tells that the
    /// frame is an error report of the core, `is_expected` that it is the
    /// frame waited for. An error report fails the wait where errors are
    /// failures. Otherwise the expected frame ends the wait, and any
    /// other frame adds one to the count, which stops at the largest
    /// number there is.
    pub fn took(&mut self, is_error: bool, is_expected: bool) -> (r: Verdict)
        ensures
            r == if is_error && old(self).fail_on_errors {
                Verdict::CoreError
            } else if is_expected {
                Verdict::Found
            } else {
                Verdict::ReadOn
            },
            final(self).fail_on_errors == old(self).fail_on_errors,
            final(self).max_reqs == old(self).max_reqs,
            final(self).try_counter == if r == Verdict::ReadOn && old(self).try_counter
                < usize::MAX {
                (old(self).try_counter + 1) as usize
            } else {
                old(self).try_counter
            },
    {
        if is_error && self.fail_on_errors {
            Verdict::CoreError
        } else if is_expected {
            Verdict::Found
        } else {
            if self.try_counter < usize::MAX {
                self.try_counter = self.try_counter + 1;
            }
            Verdict::ReadOn
        }
    }
}

} // verus!
