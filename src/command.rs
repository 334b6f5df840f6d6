use vstd::prelude::*;

verus! {

/// The executable that carries out session commands.
pub const ORCH_PROGRAM: &'static str = "orch";

/// The arguments that forward `message` to the session `session_id`.
pub fn forward_args(session_id: &str, message: &str) -> (r: Vec<String>)
    ensures
        r@.len() == 3,
        r@[0]@ == "forward"@,
        r@[1]@ == session_id@,
        r@[2]@ == message@,
{
    let mut v: Vec<String> = Vec::new();
    v.push(String::from_str("forward"));
    v.push(String::from_str(session_id));
    v.push(String::from_str(message));
    v
}

/// The arguments that cancel the session `session_id`.
pub fn cancel_args(session_id: &str) -> (r: Vec<String>)
    ensures
        r@.len() == 2,
        r@[0]@ == "cancel"@,
        r@[1]@ == session_id@,
{
    let mut v: Vec<String> = Vec::new();
    v.push(String::from_str("cancel"));
    v.push(String::from_str(session_id));
    v
}

/// What a command returns once the executable has exited: success on a
/// zero exit status, else the text it wrote to standard error.
pub fn command_outcome(success: bool, stderr_text: String) -> (r: Result<(), String>)
    ensures
        success ==> r is Ok,
        !success ==> r == Err::<(), String>(stderr_text),
{
    if success {
        Ok(())
    } else {
        Err(stderr_text)
    }
}

/// The error of a command whose executable could not be run:
/// `Failed to run orch <subcommand>: <detail>`.
pub fn spawn_failure(subcommand: &str, detail: &str) -> (r: String)
    ensures
        r@ == "Failed to run orch "@ + subcommand@ + ": "@ + detail@,
{
    let mut s = String::from_str("Failed to run orch ");
    s.append(subcommand);
    s.append(": ");
    s.append(detail);
    s
}

} // verus!
