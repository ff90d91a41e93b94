use vstd::prelude::*;
use vstd::string::StringExecFns;
use crate::text::{trim_of, lines_of, str_to_chars, str_eq, trim_chars, split_lines,
    chars_to_string};
use crate::Platform;

verus! {

// The registry maps a logical tool identifier to its resolution policy and
// turns what the host reports about candidate paths and a PATH search into
// a discovery verdict. Discovery is stateless: installation state changes
// under the caller's feet, so nothing here is cached.

/// A known tool's resolution policy: the identifier, the name handed to
/// the platform's executable search, and the candidate install paths to
/// probe first, in order.
pub struct ToolDescriptor {
    pub id: String,
    pub search_name: String,
    pub candidate_paths: Vec<String>,
}

/// The result of one discovery call, produced fresh every time.
pub struct ToolInfo {
    pub name: String,
    pub available: bool,
    pub path: Option<String>,
    pub error: Option<String>,
}

/// The tool identifiers the registry knows.
pub open spec fn known_tool(id: Seq<char>) -> bool {
    id == "azure-resource-finder"@ || id == "ruchy"@ || id == "az"@
}

/// The candidate install paths of a known tool on a platform, in probe
/// order.
pub open spec fn candidate_paths_of(id: Seq<char>, platform: Platform) -> Seq<Seq<char>> {
    if id == "azure-resource-finder"@ {
        match platform {
            Platform::Unix => seq![
                "/usr/local/bin/azure-resource-finder"@,
                "/opt/homebrew/bin/azure-resource-finder"@,
            ],
            Platform::Windows => seq![
                "C:\\Program Files\\azure-resource-finder\\azure-resource-finder.exe"@,
                "C:\\azure-resource-finder\\azure-resource-finder.exe"@,
            ],
        }
    } else if id == "ruchy"@ {
        match platform {
            Platform::Unix => seq![
                "/Users/denistu/.cargo/bin/ruchy"@,
                "/usr/local/bin/ruchy"@,
                "/opt/homebrew/bin/ruchy"@,
            ],
            Platform::Windows => seq![
                "C:\\Users\\%USERNAME%\\.cargo\\bin\\ruchy.exe"@,
                "C:\\cargo\\bin\\ruchy.exe"@,
            ],
        }
    } else if id == "az"@ {
        match platform {
            Platform::Unix => seq!["/usr/local/bin/az"@, "/opt/homebrew/bin/az"@],
            Platform::Windows => seq![
                "C:\\Program Files (x86)\\Microsoft SDKs\\Azure\\CLI2\\wbin\\az.cmd"@,
                "C:\\Program Files\\Microsoft SDKs\\Azure\\CLI2\\wbin\\az.cmd"@,
            ],
        }
    } else {
        Seq::empty()
    }
}

/// The install guidance a known tool's failed discovery carries.
pub open spec fn guidance_of(id: Seq<char>) -> Seq<char> {
    if id == "azure-resource-finder"@ {
        "Azure Resource Finder not found. Please install it or configure the path in settings."@
    } else if id == "ruchy"@ {
        "Ruchy not found. Please install it with 'cargo install ruchy' or configure the path in settings."@
    } else {
        "Azure CLI not found. Please install it from https://docs.microsoft.com/en-us/cli/azure/install-azure-cli"@
    }
}

fn push_owned(v: &mut Vec<String>, s: &str)
    ensures
        final(v)@.len() == old(v)@.len() + 1,
        final(v).deep_view() == old(v).deep_view().push(s@),
{
    v.push(s.to_owned());
    proof {
        assert(v.deep_view() =~~= old(v).deep_view().push(s@));
    }
}

/// The descriptor of a tool identifier, or the unknown-tool error for an
/// identifier the registry does not know.
pub fn tool_descriptor(tool_id: &str, platform: Platform) -> (r: Result<ToolDescriptor, String>)
    ensures
        r is Ok <==> known_tool(tool_id@),
        r matches Ok(d) ==> d.id@ == tool_id@ && d.search_name@ == tool_id@
            && d.candidate_paths.deep_view() == candidate_paths_of(tool_id@, platform),
        r matches Err(e) ==> e@ == "Unknown tool: "@ + tool_id@,
{
    let mut c: Vec<String> = Vec::new();
    if str_eq(tool_id, "azure-resource-finder") {
        match platform {
            Platform::Unix => {
                push_owned(&mut c, "/usr/local/bin/azure-resource-finder");
                push_owned(&mut c, "/opt/homebrew/bin/azure-resource-finder");
            },
            Platform::Windows => {
                push_owned(&mut c, "C:\\Program Files\\azure-resource-finder\\azure-resource-finder.exe");
                push_owned(&mut c, "C:\\azure-resource-finder\\azure-resource-finder.exe");
            },
        }
    } else if str_eq(tool_id, "ruchy") {
        match platform {
            Platform::Unix => {
                push_owned(&mut c, "/Users/denistu/.cargo/bin/ruchy");
                push_owned(&mut c, "/usr/local/bin/ruchy");
                push_owned(&mut c, "/opt/homebrew/bin/ruchy");
            },
            Platform::Windows => {
                push_owned(&mut c, "C:\\Users\\%USERNAME%\\.cargo\\bin\\ruchy.exe");
                push_owned(&mut c, "C:\\cargo\\bin\\ruchy.exe");
            },
        }
    } else if str_eq(tool_id, "az") {
        match platform {
            Platform::Unix => {
                push_owned(&mut c, "/usr/local/bin/az");
                push_owned(&mut c, "/opt/homebrew/bin/az");
            },
            Platform::Windows => {
                push_owned(&mut c, "C:\\Program Files (x86)\\Microsoft SDKs\\Azure\\CLI2\\wbin\\az.cmd");
                push_owned(&mut c, "C:\\Program Files\\Microsoft SDKs\\Azure\\CLI2\\wbin\\az.cmd");
            },
        }
    } else {
        let mut m = "Unknown tool: ".to_owned();
        m.append(tool_id);
        return Err(m);
    }
    proof {
        assert(c.deep_view() =~~= candidate_paths_of(tool_id@, platform));
    }
    Ok(ToolDescriptor {
        id: tool_id.to_owned(),
        search_name: tool_id.to_owned(),
        candidate_paths: c,
    })
}

/// Relies on `std::path::Path::exists`; the answer depends on the
/// machine's filesystem at the moment of the call, so nothing is stated
/// of it.
#[verifier::external_body]
fn path_exists(path: &str) -> bool {
    std::path::Path::new(path).exists()
}

/// Whether a file exists at the literal path: an existence check only,
/// not a check that the file is executable.
pub fn check_tool_at_path(path: &str) -> bool {
    path_exists(path)
}

/// The first candidate path at which a file exists, probing in order; any
/// path returned is one of the descriptor's candidates.
pub fn scan_candidates(desc: &ToolDescriptor) -> (r: Option<String>)
    ensures
        r matches Some(p) ==> desc.candidate_paths.deep_view().contains(p@),
{
    let mut i: usize = 0;
    while i < desc.candidate_paths.len()
        invariant
            i <= desc.candidate_paths@.len(),
        decreases desc.candidate_paths@.len() - i,
    {
        let cand = &desc.candidate_paths[i];
        if check_tool_at_path(cand.as_str()) {
            proof {
                assert(desc.candidate_paths.deep_view()[i as int] == cand@);
            }
            return Some(cand.clone());
        }
        i += 1;
    }
    None
}

/// The path a finished executable search reports: the first non-empty
/// line of its trimmed output, itself trimmed, or nothing.
pub open spec fn search_hit_of(out: Seq<char>) -> Option<Seq<char>> {
    let t = trim_of(out);
    if t.len() == 0 {
        None
    } else {
        let f = trim_of(lines_of(t).first());
        if f.len() == 0 {
            None
        } else {
            Some(f)
        }
    }
}

/// The path found by the platform's executable search, parsed from the
/// search utility's exit status and captured output.
pub fn parse_search_output(exit_success: bool, out: &str) -> (r: Option<String>)
    ensures
        !exit_success ==> r is None,
        exit_success ==> match search_hit_of(out@) {
            Some(p) => r matches Some(s) && s@ == p,
            None => r is None,
        },
{
    if !exit_success {
        return None;
    }
    let chars = str_to_chars(out);
    let t = trim_chars(&chars);
    if t.len() == 0 {
        return None;
    }
    let lines = split_lines(&t);
    proof {
        assert(lines_of(t@).len() >= 1);
    }
    let first = trim_chars(&lines[0]);
    proof {
        assert(lines.deep_view()[0] =~= lines@[0]@);
        assert(first@ == trim_of(lines_of(t@).first()));
    }
    if first.len() == 0 {
        None
    } else {
        Some(chars_to_string(&first))
    }
}

/// The outcome of the PATH-search step of discovery.
pub enum SearchOutcome {
    Found(String),
    NotFound,
    SearchFailed(String),
}

/// The discovery verdict for a known tool: the candidate hit wins if there
/// is one, then a search hit; otherwise the verdict is unavailable, with
/// install guidance when the search ran dry and a search error when the
/// search utility itself could not run.
pub fn resolve_after_scan(tool_id: &str, candidate_hit: Option<String>, search: SearchOutcome) -> (r:
    ToolInfo)
    requires
        known_tool(tool_id@),
    ensures
        r.name@ == tool_id@,
        candidate_hit matches Some(p) ==> (r.available && (r.path matches Some(q) && q@ == p@)
            && r.error is None),
        search matches SearchOutcome::Found(p) ==> (candidate_hit is None ==> (r.available && (
        r.path matches Some(q) && q@ == p@) && r.error is None)),
        (candidate_hit is None && search is NotFound) ==> (!r.available && r.path is None && (
        r.error matches Some(e) && e@ == guidance_of(tool_id@))),
        search matches SearchOutcome::SearchFailed(d) ==> (candidate_hit is None ==> (!r.available
            && r.path is None && (r.error matches Some(e) && e@ == "Failed to search for "@
            + tool_id@ + ": "@ + d@))),
{
    let name = tool_id.to_owned();
    match candidate_hit {
        Some(p) => ToolInfo { name, available: true, path: Some(p), error: None },
        None => match search {
            SearchOutcome::Found(p) => ToolInfo {
                name,
                available: true,
                path: Some(p),
                error: None,
            },
            SearchOutcome::NotFound => {
                let guidance = if str_eq(tool_id, "azure-resource-finder") {
                    "Azure Resource Finder not found. Please install it or configure the path in settings.".to_owned()
                } else if str_eq(tool_id, "ruchy") {
                    "Ruchy not found. Please install it with 'cargo install ruchy' or configure the path in settings.".to_owned()
                } else {
                    "Azure CLI not found. Please install it from https://docs.microsoft.com/en-us/cli/azure/install-azure-cli".to_owned()
                };
                ToolInfo { name, available: false, path: None, error: Some(guidance) }
            },
            SearchOutcome::SearchFailed(d) => {
                let mut m = "Failed to search for ".to_owned();
                m.append(tool_id);
                m.append(": ");
                m.append(d.as_str());
                ToolInfo { name, available: false, path: None, error: Some(m) }
            },
        },
    }
}

} // verus!
