use vstd::prelude::*;
use vstd::string::StringExecFns;
use crate::text::{contains_seq, lines_of, str_to_chars, contains_chars, chars_to_string,
    split_lines};

verus! {

// The authentication state of the cloud CLI is diagnosed from the
// unstructured text its account query prints. The match is a best-effort
// ordered scan over known failure signatures; an unrecognised shape
// degrades to a generic diagnosis instead of failing.

/// The diagnosis for a failed account query, from its captured streams:
/// known signatures first in a fixed order, then generic fallbacks.
pub open spec fn auth_diagnosis_of(stderr: Seq<char>, stdout: Seq<char>) -> Seq<char> {
    if contains_seq(stderr, "Please run 'az login'"@) {
        "User not authenticated. Please run 'az login' in your terminal."@
    } else if contains_seq(stderr, "No subscriptions found"@) {
        "Authenticated but no subscriptions found. Please check your Azure account."@
    } else if contains_seq(stderr, "DefaultAzureCredential"@) {
        "Authentication failed. Please ensure you are logged in with 'az login'."@
    } else if stderr.len() > 0 {
        "Authentication error: "@ + stderr
    } else if stdout.len() > 0 {
        "Unexpected output during authentication check."@
    } else {
        "Unknown authentication error."@
    }
}

/// The diagnosis text for a failed account query, exactly as
/// `auth_diagnosis_of` describes it.
pub fn classify_auth_failure(stderr: &str, stdout: &str) -> (r: String)
    ensures
        r@ == auth_diagnosis_of(stderr@, stdout@),
{
    let sv = str_to_chars(stderr);
    let pat_login = str_to_chars("Please run 'az login'");
    let pat_subs = str_to_chars("No subscriptions found");
    let pat_cred = str_to_chars("DefaultAzureCredential");
    if contains_chars(&sv, &pat_login) {
        "User not authenticated. Please run 'az login' in your terminal.".to_owned()
    } else if contains_chars(&sv, &pat_subs) {
        "Authenticated but no subscriptions found. Please check your Azure account.".to_owned()
    } else if contains_chars(&sv, &pat_cred) {
        "Authentication failed. Please ensure you are logged in with 'az login'.".to_owned()
    } else if sv.len() > 0 {
        let mut m = "Authentication error: ".to_owned();
        m.append(stderr);
        m
    } else if stdout.unicode_len() > 0 {
        "Unexpected output during authentication check.".to_owned()
    } else {
        "Unknown authentication error.".to_owned()
    }
}

/// Whether a text parses as a JSON value; the outcome of parsing depends
/// on the characters alone.
pub uninterp spec fn json_parses(s: Seq<char>) -> bool;

#[verifier::external_type_specification]
#[verifier::external_body]
pub struct ExValue(serde_json::Value);

/// Relies on `serde_json::from_str::<Value>`: it parses a text into a JSON
/// value or reports an error, deciding by the characters alone.
#[verifier::external_body]
fn parse_json_value(s: &str) -> (r: Option<serde_json::Value>)
    ensures
        r is Some <==> json_parses(s@),
{
    serde_json::from_str(s).ok()
}

/// The authentication state derived from one account query: whether the
/// CLI was found, whether the caller is logged in, the parsed account
/// record when there is one, and a human-actionable diagnosis otherwise.
pub struct AuthDiagnosis {
    pub cli_available: bool,
    pub logged_in: bool,
    pub account_info: Option<serde_json::Value>,
    pub error: String,
}

/// The diagnosis of one account query. `cli_available` tells whether the
/// CLI was discovered at all; `ran` whether its account query could be
/// spawned; `exit_success` the query's exit status; the two streams are
/// its captured output. The caller is logged in exactly when the query ran
/// and succeeded; every failure carries its diagnosis.
pub fn build_auth_diagnosis(
    cli_available: bool,
    ran: bool,
    exit_success: bool,
    stdout: &str,
    stderr: &str,
) -> (r: AuthDiagnosis)
    ensures
        r.cli_available == cli_available,
        r.logged_in == (cli_available && ran && exit_success),
        !cli_available ==> r.error@ == "Azure CLI not found"@ && r.account_info is None,
        cli_available && !ran ==> r.error@ == "Failed to execute Azure CLI command."@
            && r.account_info is None,
        cli_available && ran && !exit_success ==> r.error@ == auth_diagnosis_of(stderr@, stdout@)
            && r.account_info is None,
        r.logged_in ==> r.error@ == Seq::<char>::empty() && (r.account_info is Some <==>
        json_parses(stdout@)),
{
    if !cli_available {
        AuthDiagnosis {
            cli_available: false,
            logged_in: false,
            account_info: None,
            error: "Azure CLI not found".to_owned(),
        }
    } else if !ran {
        AuthDiagnosis {
            cli_available: true,
            logged_in: false,
            account_info: None,
            error: "Failed to execute Azure CLI command.".to_owned(),
        }
    } else if !exit_success {
        AuthDiagnosis {
            cli_available: true,
            logged_in: false,
            account_info: None,
            error: classify_auth_failure(stderr, stdout),
        }
    } else {
        AuthDiagnosis {
            cli_available: true,
            logged_in: true,
            account_info: parse_json_value(stdout),
            error: String::new(),
        }
    }
}

/// The one-line version summary of the CLI: the first line of a successful
/// version query's output, a placeholder when that output is empty, and an
/// unavailability notice when the query did not succeed.
pub fn version_summary(version_available: bool, stdout: &str) -> (r: String)
    ensures
        !version_available ==> r@ == "Azure CLI not available"@,
        version_available ==> r@ == (if lines_of(stdout@).len() > 0 {
            lines_of(stdout@).first()
        } else {
            "Unknown version"@
        }),
{
    if !version_available {
        return "Azure CLI not available".to_owned();
    }
    let chars = str_to_chars(stdout);
    let lines = split_lines(&chars);
    if lines.len() == 0 {
        "Unknown version".to_owned()
    } else {
        proof {
            assert(lines.deep_view()[0] =~= lines@[0]@);
        }
        chars_to_string(&lines[0])
    }
}

} // verus!
