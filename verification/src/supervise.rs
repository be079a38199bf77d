//! Supervising the running server: the polling state machine that waits
//! for the server to become healthy, the navigation order once it is, and
//! the decision to terminate it when the window closes.

use vstd::prelude::*;

use crate::text::dec_digits;
use crate::text::u16_to_dec;

verus! {

/// How many health probes the shell makes before it gives up, one every
/// quarter second.
pub const MAX_HEALTH_ATTEMPTS: u32 = 60;

/// What the shell does after one health probe.
#[derive(Clone, Copy, Debug, PartialEq, Eq, Structural)]
pub enum PollAction {
    /// The server answered for the right application: point the window at
    /// it and stop probing.
    Navigate,
    /// Not ready yet and probes remain: sleep and probe again.
    Wait,
    /// Not ready and the probe budget is spent: stop probing and report
    /// the failure.
    GiveUp,
}

/// Decides what follows the probe numbered `attempts_done` (counting from
/// zero), given whether the server answered healthy.
pub fn poll_decision(attempts_done: u32, healthy: bool) -> (action: PollAction)
    requires
        attempts_done < MAX_HEALTH_ATTEMPTS,
    ensures
        healthy ==> action == PollAction::Navigate,
        !healthy && attempts_done + 1 < MAX_HEALTH_ATTEMPTS ==> action == PollAction::Wait,
        !healthy && attempts_done + 1 == MAX_HEALTH_ATTEMPTS ==> action == PollAction::GiveUp,
{
    if healthy {
        PollAction::Navigate
    } else if attempts_done + 1 < MAX_HEALTH_ATTEMPTS {
        PollAction::Wait
    } else {
        PollAction::GiveUp
    }
}

/// The server's address on the loopback interface.
pub open spec fn server_url_spec(port: u16) -> Seq<char> {
    "http://127.0.0.1:"@ + dec_digits(port as nat)
}

/// Builds the server's address for the given port.
pub fn server_url(port: u16) -> (url: String)
    ensures
        url@ == server_url_spec(port),
{
    let mut url = String::from_str("http://127.0.0.1:");
    let port_dec = u16_to_dec(port);
    url.append(port_dec.as_str());
    url
}

/// The script that sends the window to the server's address.
pub open spec fn navigation_script_spec(port: u16) -> Seq<char> {
    "location.replace('"@ + server_url_spec(port) + "');"@
}

/// Builds the script that sends the window to the server on the given
/// port.
pub fn navigation_script(port: u16) -> (script: String)
    ensures
        script@ == navigation_script_spec(port),
{
    let mut script = String::from_str("location.replace('");
    let url = server_url(port);
    script.append(url.as_str());
    script.append("');");
    proof {
        assert(script@ =~= navigation_script_spec(port));
    }
    script
}

/// The server is terminated exactly when a window close was requested and
/// that window is the last one open.
pub fn should_terminate_server(close_requested: bool, open_windows: usize) -> (terminate: bool)
    ensures
        terminate == (close_requested && open_windows == 1),
{
    close_requested && open_windows == 1
}

} // verus!
