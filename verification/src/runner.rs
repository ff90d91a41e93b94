use vstd::prelude::*;
use vstd::string::StringExecFns;
use crate::text::{contains_seq, str_to_chars, contains_chars};
use crate::CommandOutput;

verus! {

// A finished one-shot invocation is interpreted here: a non-zero exit is
// carried as data, never raised as an error, and a recognisable
// authentication failure gets actionable guidance prepended to its stderr.

/// The resource finder's stderr shows a credential-chain failure.
pub open spec fn finder_auth_failure(stderr: Seq<char>) -> bool {
    contains_seq(stderr, "DefaultAzureCredential"@) || contains_seq(
        stderr,
        "failed to acquire a token"@,
    )
}

/// The guidance that replaces a credential-chain failure's bare stderr.
pub open spec fn finder_auth_guidance(stderr: Seq<char>) -> Seq<char> {
    "Azure authentication failed. Please ensure you are logged in with 'az login' and have the necessary permissions.\n\nError details:\n"@
        + stderr
}

/// The structured result of a finished resource-finder run.
///
/// `success` mirrors the exit status; stdout passes through; stderr is
/// replaced by guidance exactly when the run failed with a recognisable
/// credential-chain failure.
pub fn interpret_finder_output(stdout: &str, stderr: &str, exit_success: bool) -> (r:
    CommandOutput)
    ensures
        r.success == exit_success,
        r.stdout@ == stdout@,
        (!exit_success && finder_auth_failure(stderr@)) ==> r.stderr@ == finder_auth_guidance(
            stderr@,
        ),
        !(!exit_success && finder_auth_failure(stderr@)) ==> r.stderr@ == stderr@,
{
    let sv = str_to_chars(stderr);
    let pat_cred = str_to_chars("DefaultAzureCredential");
    let pat_token = str_to_chars("failed to acquire a token");
    let auth_fail = contains_chars(&sv, &pat_cred) || contains_chars(&sv, &pat_token);
    let new_stderr = if !exit_success && auth_fail {
        let mut m =
            "Azure authentication failed. Please ensure you are logged in with 'az login' and have the necessary permissions.\n\nError details:\n".to_owned();
        m.append(stderr);
        m
    } else {
        stderr.to_owned()
    };
    CommandOutput { stdout: stdout.to_owned(), stderr: new_stderr, success: exit_success }
}

} // verus!
