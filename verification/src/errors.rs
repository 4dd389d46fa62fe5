//! The closed set of failures the library can report.

use vstd::prelude::*;
use vstd::string::StringExecFns;

verus! {

/// Everything that can go wrong around a scan or a connection attempt,
/// apart from a launched-but-unsuccessful connect command, which is a
/// `ConnectOutcome::Failed`, not an error.
#[derive(Debug, PartialEq, Eq)]
pub enum WifiError {
    /// The external command could not be started at all; holds the
    /// launcher's message.
    Program(String),
    /// The external command's output was not valid UTF-8.
    Decode,
    /// A listing line too short to carry a network identifier; holds
    /// that line.
    Parse(String),
    /// A terminal write, flush or mode toggle failed; holds the message.
    Io(String),
}

impl WifiError {
    /// The failure as one displayable message.
    pub fn message(&self) -> (r: String)
        ensures
            self matches WifiError::Program(m) ==> r@
                == "The external command could not be started:\n"@ + m@,
            self is Decode ==> r@ == "The external command's output was not valid UTF-8."@,
            self matches WifiError::Parse(l) ==> r@ == "Could not parse a listing line:\n"@ + l@,
            self matches WifiError::Io(m) ==> r@ == "Terminal failure:\n"@ + m@,
    {
        match self {
            WifiError::Program(m) => {
                let mut t = String::from_str("The external command could not be started:\n");
                t.append(m.as_str());
                t
            },
            WifiError::Decode => String::from_str(
                "The external command's output was not valid UTF-8.",
            ),
            WifiError::Parse(l) => {
                let mut t = String::from_str("Could not parse a listing line:\n");
                t.append(l.as_str());
                t
            },
            WifiError::Io(m) => {
                let mut t = String::from_str("Terminal failure:\n");
                t.append(m.as_str());
                t
            },
        }
    }
}

} // verus!
