//! The kinds of log lines the service emits. Choosing the tag for a kind is
//! the only logic here; the sink that prints, with timestamp and colour, is
//! the caller's concern.

use vstd::prelude::*;

verus! {

/// Which part of the service a log line comes from.
#[derive(Clone, Copy, Debug, PartialEq, Eq, Structural)]
pub enum LogType {
    SETUP,
    HTTP,
}

/// The tag a kind of log line carries.
pub open spec fn tag_of(t: LogType) -> Seq<char> {
    match t {
        LogType::SETUP => "[SETUP]"@,
        LogType::HTTP => "[HTTP]"@,
    }
}

impl LogType {
    /// The tag to print for this kind of log line.
    pub fn tag(&self) -> (s: String)
        ensures
            s@ == tag_of(*self),
    {
        match self {
            LogType::SETUP => "[SETUP]".to_owned(),
            LogType::HTTP => "[HTTP]".to_owned(),
        }
    }
}

} // verus!
