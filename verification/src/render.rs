//! The screen texts of each phase, built exactly.

use vstd::prelude::*;
use vstd::string::StringExecFns;
use crate::client::ConnectOutcome;

verus! {

/// The password prompt shown once a network has been chosen.
pub fn prompt_text(ssid: &str) -> (r: String)
    ensures
        r@ == "CONNECTING\nSSID: "@ + ssid@ + "\nPassword: "@,
{
    let mut t = String::from_str("CONNECTING\nSSID: ");
    t.append(ssid);
    t.append("\nPassword: ");
    proof {
        assert(t@ =~= "CONNECTING\nSSID: "@ + ssid@ + "\nPassword: "@);
    }
    t
}

/// The final screen after a successful connection attempt.
pub fn connected_text(ssid: &str, msg: &str) -> (r: String)
    ensures
        r@ == "You are connected to "@ + ssid@ + "\nCommand Output:\n"@ + msg@,
{
    let mut t = String::from_str("You are connected to ");
    t.append(ssid);
    t.append("\nCommand Output:\n");
    t.append(msg);
    proof {
        assert(t@ =~= "You are connected to "@ + ssid@ + "\nCommand Output:\n"@ + msg@);
    }
    t
}

/// The final screen after the connect command reported an error.
pub fn failed_text(msg: &str) -> (r: String)
    ensures
        r@ == "The connect command reported an error:\n"@ + msg@,
{
    let mut t = String::from_str("The connect command reported an error:\n");
    t.append(msg);
    proof {
        assert(t@ =~= "The connect command reported an error:\n"@ + msg@);
    }
    t
}

/// The final screen for a connection attempt's outcome, whichever way
/// it went.
pub fn outcome_text(ssid: &str, outcome: &ConnectOutcome) -> (r: String)
    ensures
        outcome matches ConnectOutcome::Connected(m) ==> r@ == "You are connected to "@ + ssid@
            + "\nCommand Output:\n"@ + m@,
        outcome matches ConnectOutcome::Failed(m) ==> r@
            == "The connect command reported an error:\n"@ + m@,
{
    match outcome {
        ConnectOutcome::Connected(m) => connected_text(ssid, m.as_str()),
        ConnectOutcome::Failed(m) => failed_text(m.as_str()),
    }
}

} // verus!
