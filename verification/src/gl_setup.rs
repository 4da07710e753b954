//! A tally of the errors that the graphics driver reported.

use vstd::prelude::*;

verus! {

/// How many errors were reported so far. The count stops at the largest
/// number that it can hold.
#[derive(Debug)]
pub struct GlErrorTally {
    nb_errors: usize,
}

impl GlErrorTally {
    pub closed spec fn errors(&self) -> usize {
        self.nb_errors
    }

    /// A tally without errors.
    pub fn new() -> (tally: Self)
        ensures
            tally.errors() == 0,
    {
        GlErrorTally { nb_errors: 0 }
    }

    pub fn nb_errors(&self) -> (n: usize)
        ensures
            n == self.errors(),
    {
        self.nb_errors
    }

    /// Takes note of what the driver said after a call: `Some` error, which
    /// is counted, or `None`. The answer to `None` is the number of errors
    /// counted before, where there are any: the caller then has to stop.
    pub fn error_hook(&mut self, e: Option<u32>) -> (res: Result<(), usize>)
        ensures
            final(self).errors() == if e is Some && old(self).errors() < usize::MAX {
                (old(self).errors() + 1) as usize
            } else {
                old(self).errors()
            },
            res == if e is None && old(self).errors() > 0 {
                Err::<(), usize>(old(self).errors())
            } else {
                Ok(())
            },
    {
        match e {
            Some(_) => {
                if self.nb_errors < usize::MAX {
                    self.nb_errors += 1;
                }
                Ok(())
            },
            None => if self.nb_errors > 0 {
                Err(self.nb_errors)
            } else {
                Ok(())
            },
        }
    }
}

} // verus!
