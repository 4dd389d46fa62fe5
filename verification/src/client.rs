//! Classification of what the external network-management command
//! produced: a scanned network list out of the listing command, a
//! connection outcome out of the connect command.
//!
//! Launching the commands is blocking I/O and stays outside the
//! library; what comes back in — was the launch possible, the exit
//! status, the captured output bytes — is classified here.

use vstd::prelude::*;
use vstd::utf8::{decode_utf8, valid_utf8};
use crate::errors::WifiError;
use crate::parse::{data_lines_ok, get_ssids, spec_ssids, split_lines};

verus! {

/// What an external command produced once it could be launched: its
/// exit status and its captured output streams.
pub struct CmdOutput {
    pub success: bool,
    pub stdout: Vec<u8>,
    pub stderr: Vec<u8>,
}

/// The two ends of a connection attempt: connected, with the command's
/// informational message, or failed, with its diagnostic message.
#[derive(Debug, PartialEq, Eq)]
pub enum ConnectOutcome {
    Connected(String),
    Failed(String),
}

/// A scanned list of networks: the raw listing text as displayed, and
/// the identifiers parsed out of it, in scan order.
#[derive(Debug)]
pub struct NetworkList {
    pub raw: String,
    pub ssids: Vec<String>,
}

impl NetworkList {
    /// The identifiers are exactly what the raw text names.
    pub open spec fn wf(&self) -> bool {
        &&& data_lines_ok(split_lines(self.raw@))
        &&& self.ssids.deep_view() == spec_ssids(self.raw@)
    }

    pub open spec fn spec_len(&self) -> nat {
        self.ssids@.len()
    }

    /// How many networks the scan found.
    pub fn len(&self) -> (n: usize)
        ensures
            n == self.spec_len(),
    {
        self.ssids.len()
    }

    /// The list before any scan has run: no text, no networks.
    pub fn empty() -> (l: NetworkList)
        ensures
            l.wf(),
            l.spec_len() == 0,
            l.raw@ == Seq::<char>::empty(),
    {
        let l = NetworkList { raw: String::new(), ssids: Vec::new() };
        proof {
            assert(split_lines(l.raw@) =~~= Seq::<Seq<char>>::empty());
            assert(l.ssids.deep_view() =~~= spec_ssids(l.raw@));
        }
        l
    }
}

/// Relies on `String::from_utf8`: it succeeds exactly on valid UTF-8
/// input and decodes the bytes to their characters.
#[verifier::external_body]
fn decode_output(bytes: Vec<u8>) -> (r: Option<String>)
    ensures
        r is Some <==> valid_utf8(bytes@),
        r matches Some(text) ==> text@ == decode_utf8(bytes@),
{
    String::from_utf8(bytes).ok()
}

/// Turns what running the listing command produced into a network
/// list. A launch failure comes in as the launcher's message; decoding
/// and parsing failures are found here. The listing command's exit
/// status carries no information and is ignored.
pub fn list_networks(run: Result<CmdOutput, String>) -> (r: Result<NetworkList, WifiError>)
    ensures
        run matches Err(m) ==> (r matches Err(e) && e == WifiError::Program(m)),
        run matches Ok(o) ==> {
            &&& !valid_utf8(o.stdout@) ==> (r matches Err(e) && e == WifiError::Decode)
            &&& valid_utf8(o.stdout@) && !data_lines_ok(split_lines(decode_utf8(o.stdout@)))
                ==> (r matches Err(e) && e is Parse)
            &&& valid_utf8(o.stdout@) && data_lines_ok(split_lines(decode_utf8(o.stdout@))) ==> (
            r matches Ok(l) && l.wf() && l.raw@ == decode_utf8(o.stdout@))
        },
{
    match run {
        Err(m) => Err(WifiError::Program(m)),
        Ok(o) => match decode_output(o.stdout) {
            None => Err(WifiError::Decode),
            Some(text) => match get_ssids(text.as_str()) {
                Err(e) => Err(e),
                Ok(ssids) => Ok(NetworkList { raw: text, ssids }),
            },
        },
    }
}

/// Turns what running the connect command produced into an outcome:
/// exit status zero is `Connected` with the decoded standard output,
/// any other exit status is `Failed` with the decoded standard error.
/// A launch failure comes in as the launcher's message.
pub fn authenticate(run: Result<CmdOutput, String>) -> (r: Result<ConnectOutcome, WifiError>)
    ensures
        run matches Err(m) ==> (r matches Err(e) && e == WifiError::Program(m)),
        run matches Ok(o) ==> {
            &&& o.success && valid_utf8(o.stdout@) ==> (r matches Ok(
                ConnectOutcome::Connected(msg),
            ) && msg@ == decode_utf8(o.stdout@))
            &&& o.success && !valid_utf8(o.stdout@) ==> (r matches Err(e) && e
                == WifiError::Decode)
            &&& !o.success && valid_utf8(o.stderr@) ==> (r matches Ok(
                ConnectOutcome::Failed(msg),
            ) && msg@ == decode_utf8(o.stderr@))
            &&& !o.success && !valid_utf8(o.stderr@) ==> (r matches Err(e) && e
                == WifiError::Decode)
        },
{
    match run {
        Err(m) => Err(WifiError::Program(m)),
        Ok(o) => {
            if o.success {
                match decode_output(o.stdout) {
                    None => Err(WifiError::Decode),
                    Some(msg) => Ok(ConnectOutcome::Connected(msg)),
                }
            } else {
                match decode_output(o.stderr) {
                    None => Err(WifiError::Decode),
                    Some(msg) => Ok(ConnectOutcome::Failed(msg)),
                }
            }
        },
    }
}

} // verus!
