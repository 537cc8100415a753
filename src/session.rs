use vstd::prelude::*;

use crate::queue_status::{trim, trimmed};
use crate::text::{decimal, decimal_string};
use crate::types::SSHConfig;

verus! {

/// How many times a session is tried before giving up.
pub const MAX_RETRIES: u32 = 3;

/// The pause between two tries, in milliseconds.
pub const RETRY_DELAY_MS: u64 = 2000;

/// The bound on connecting, reading and writing, in seconds.
pub const CONNECTION_TIMEOUT_SECS: u64 = 30;

/// The interval of keepalive probes on a persistent session, in seconds.
pub const KEEPALIVE_INTERVAL_SECS: u32 = 30;

/// What follows a failed try to open a session.
pub enum RetryStep {
    /// Pause this long, then try again.
    Wait { delay_ms: u64 },
    /// Stop and report this.
    GiveUp { message: String },
}

/// Signed decimal notation.
pub open spec fn signed_decimal(n: int) -> Seq<char> {
    if n < 0 {
        "-"@ + decimal((-n) as nat)
    } else {
        decimal(n as nat)
    }
}

pub open spec fn give_up_message(max_attempts: u32, error: Seq<char>) -> Seq<char> {
    "Failed to connect after "@ + decimal(max_attempts as nat) + " attempts: "@ + error
}

pub open spec fn command_failure_message(exit_status: i32, stderr: Seq<char>) -> Seq<char> {
    "Command failed with status "@ + signed_decimal(exit_status as int) + ": "@ + stderr
}

/// Decides what follows the failure `error` of try number `attempt` (counted from 1) out
/// of `max_attempts`.
pub fn retry_after_failure(attempt: u32, max_attempts: u32, error: &str) -> (r: RetryStep)
    requires
        1 <= attempt <= max_attempts,
    ensures
        attempt < max_attempts ==> r == (RetryStep::Wait { delay_ms: RETRY_DELAY_MS }),
        attempt == max_attempts ==> r is GiveUp && r->message@ == give_up_message(
            max_attempts,
            error@,
        ),
{
    if attempt < max_attempts {
        RetryStep::Wait { delay_ms: RETRY_DELAY_MS }
    } else {
        let mut m = String::from_str("Failed to connect after ");
        let n = decimal_string(max_attempts as u64);
        m.append(n.as_str());
        m.append(" attempts: ");
        m.append(error);
        RetryStep::GiveUp { message: m }
    }
}

/// Signed decimal notation of `n`.
pub fn signed_decimal_string(n: i32) -> (r: String)
    ensures
        r@ == signed_decimal(n as int),
{
    let w = n as i64;
    if w < 0 {
        let mut s = String::from_str("-");
        let d = decimal_string((-w) as u64);
        s.append(d.as_str());
        s
    } else {
        decimal_string(w as u64)
    }
}

/// The result of a remote command from what it printed and its exit status: its standard
/// output when the status is zero, else a failure that names the status and holds its
/// standard error.
pub fn command_outcome(exit_status: i32, stdout: String, stderr: &str) -> (r: Result<String, String>)
    ensures
        exit_status == 0 ==> r == Ok::<String, String>(stdout),
        exit_status != 0 ==> r is Err && r->Err_0@ == command_failure_message(exit_status, stderr@),
{
    if exit_status != 0 {
        let mut m = String::from_str("Command failed with status ");
        let s = signed_decimal_string(exit_status);
        m.append(s.as_str());
        m.append(": ");
        m.append(stderr);
        Err(m)
    } else {
        Ok(stdout)
    }
}

/// The address to resolve for `config`: host and port.
pub fn socket_address(config: &SSHConfig) -> (r: String)
    ensures
        r@ == config.host@ + ":"@ + decimal(config.port as nat),
{
    let mut a = String::from_str(config.host.as_str());
    a.append(":");
    let p = decimal_string(config.port as u64);
    a.append(p.as_str());
    a
}

/// The command that probes a new connection.
pub fn connection_test_command() -> (r: &'static str)
    ensures
        r@ == "echo 'Connection successful'"@,
{
    "echo 'Connection successful'"
}

/// The answer of a connection probe, without surrounding white space.
pub fn connection_test_result(output: &str) -> (r: String)
    ensures
        r@ == trimmed(output@),
{
    String::from_str(trim(output))
}

/// The command that lists the queue of `printer`.
pub fn queue_status_command(printer: &str) -> (r: String)
    ensures
        r@ == "lpq -P "@ + printer@,
{
    let mut c = String::from_str("lpq -P ");
    c.append(printer);
    c
}

/// The message that reports an upload to `remote_path`.
pub fn upload_message(remote_path: &str) -> (r: String)
    ensures
        r@ == "File uploaded to "@ + remote_path@,
{
    let mut m = String::from_str("File uploaded to ");
    m.append(remote_path);
    m
}

} // verus!
