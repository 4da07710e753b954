//! What a task says of itself when it is asked.

use vstd::prelude::*;

verus! {

/// How much of a file was read.
#[derive(Debug, Copy, Clone, Hash, PartialEq, Eq, Structural)]
pub struct FileProgress {
    pub nread: usize,
    pub nsize: usize,
}

/// Where a pending task stands: it reads its file, or it decodes what it
/// read.
#[derive(Debug, Copy, Clone, Hash, PartialEq, Eq, Structural)]
pub enum Progress {
    Reading(FileProgress),
    Converting,
}

/// What a task answers when it is asked: it is still at work, and where it
/// stands, or it is complete and its result can be taken.
#[derive(Debug, Copy, Clone, Hash, PartialEq, Eq, Structural)]
pub enum TaskStatus {
    Pending(Progress),
    Complete,
}

impl TaskStatus {
    pub fn is_complete(&self) -> (b: bool)
        ensures
            b == (*self is Complete),
    {
        match self {
            TaskStatus::Complete => true,
            TaskStatus::Pending(_) => false,
        }
    }

    /// Where the task stands, if it is still at work.
    pub fn progress(&self) -> (p: Option<Progress>)
        ensures
            p == match *self {
                TaskStatus::Pending(progress) => Some(progress),
                TaskStatus::Complete => None,
            },
    {
        match self {
            TaskStatus::Pending(progress) => Some(*progress),
            TaskStatus::Complete => None,
        }
    }
}

} // verus!
