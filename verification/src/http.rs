use vstd::prelude::*;
use vstd::string::StringExecFns;
use crate::text::{str_to_chars, chars_eq};

verus! {

// The generic HTTP passthrough is planned here: the method word is
// normalised and validated, and the plan says whether a body travels with
// the request. Sending the request itself is the caller's affair.

/// A supported request method.
#[derive(Debug, Clone, Copy, PartialEq, Eq, Structural)]
pub enum HttpMethod {
    Get,
    Post,
    Put,
    Delete,
    Patch,
}

/// A letter mapped to upper case when it is a lower-case ASCII letter,
/// itself otherwise.
pub open spec fn upper_char(c: char) -> char {
    if 'a' <= c && c <= 'z' {
        ((c as int) - 32) as char
    } else {
        c
    }
}

/// A text with every lower-case ASCII letter mapped to upper case.
pub open spec fn upper_of(s: Seq<char>) -> Seq<char> {
    s.map_values(|c: char| upper_char(c))
}

/// The method a normalised method word names, if any.
pub open spec fn method_of(u: Seq<char>) -> Option<HttpMethod> {
    if u == "GET"@ {
        Some(HttpMethod::Get)
    } else if u == "POST"@ {
        Some(HttpMethod::Post)
    } else if u == "PUT"@ {
        Some(HttpMethod::Put)
    } else if u == "DELETE"@ {
        Some(HttpMethod::Delete)
    } else if u == "PATCH"@ {
        Some(HttpMethod::Patch)
    } else {
        None
    }
}

/// Whether a body may travel with the method.
pub open spec fn body_method(m: HttpMethod) -> bool {
    m is Post || m is Put || m is Patch
}

/// A validated request plan: the method, and whether the caller's body
/// is to be attached.
#[derive(Debug)]
pub struct HttpPlan {
    pub method: HttpMethod,
    pub send_body: bool,
}

fn upper_char_exec(c: char) -> (r: char)
    ensures
        r == upper_char(c),
{
    match c {
        'a' => 'A',
        'b' => 'B',
        'c' => 'C',
        'd' => 'D',
        'e' => 'E',
        'f' => 'F',
        'g' => 'G',
        'h' => 'H',
        'i' => 'I',
        'j' => 'J',
        'k' => 'K',
        'l' => 'L',
        'm' => 'M',
        'n' => 'N',
        'o' => 'O',
        'p' => 'P',
        'q' => 'Q',
        'r' => 'R',
        's' => 'S',
        't' => 'T',
        'u' => 'U',
        'v' => 'V',
        'w' => 'W',
        'x' => 'X',
        'y' => 'Y',
        'z' => 'Z',
        _ => c,
    }
}

fn upper_chars(s: &Vec<char>) -> (r: Vec<char>)
    ensures
        r@ == upper_of(s@),
{
    let mut r: Vec<char> = Vec::new();
    let mut i: usize = 0;
    while i < s.len()
        invariant
            i <= s@.len(),
            r@.len() == i,
            forall|k: int| 0 <= k < i ==> r@[k] == upper_char(s@[k]),
        decreases s@.len() - i,
    {
        r.push(upper_char_exec(s[i]));
        i += 1;
    }
    proof {
        assert(r@ =~= upper_of(s@));
    }
    r
}

/// The plan for one passthrough request: the method word is upper-cased
/// and matched against the supported methods; an unsupported word is
/// rejected with the guidance the caller surfaces, and a body is attached
/// only for the methods that carry one.
pub fn plan_http_request(method: &str, has_body: bool) -> (r: Result<HttpPlan, String>)
    ensures
        match method_of(upper_of(method@)) {
            Some(m) => r matches Ok(p) && p.method == m && p.send_body == (has_body
                && body_method(m)),
            None => r matches Err(e) && e@ == "Unsupported HTTP method: "@ + method@,
        },
{
    let chars = str_to_chars(method);
    let u = upper_chars(&chars);
    let m = if chars_eq(&u, &str_to_chars("GET")) {
        Some(HttpMethod::Get)
    } else if chars_eq(&u, &str_to_chars("POST")) {
        Some(HttpMethod::Post)
    } else if chars_eq(&u, &str_to_chars("PUT")) {
        Some(HttpMethod::Put)
    } else if chars_eq(&u, &str_to_chars("DELETE")) {
        Some(HttpMethod::Delete)
    } else if chars_eq(&u, &str_to_chars("PATCH")) {
        Some(HttpMethod::Patch)
    } else {
        None
    };
    match m {
        Some(method_kind) => {
            let body = match method_kind {
                HttpMethod::Post => has_body,
                HttpMethod::Put => has_body,
                HttpMethod::Patch => has_body,
                _ => false,
            };
            Ok(HttpPlan { method: method_kind, send_body: body })
        },
        None => {
            let mut msg = "Unsupported HTTP method: ".to_owned();
            msg.append(method);
            Err(msg)
        },
    }
}

} // verus!
