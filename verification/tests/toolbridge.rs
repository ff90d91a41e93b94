use toolbridge::auth::{build_auth_diagnosis, classify_auth_failure, version_summary};
use toolbridge::environment::{build_environment, extend_path_value, EnvironmentReading};
use toolbridge::http::{plan_http_request, HttpMethod};
use toolbridge::registry::{
    check_tool_at_path, parse_search_output, resolve_after_scan, scan_candidates, tool_descriptor,
    SearchOutcome,
};
use toolbridge::repl::{filter_repl_output, repl_input};
use toolbridge::runner::interpret_finder_output;
use toolbridge::Platform;

#[test]
fn unknown_tool_is_an_error() {
    let r = tool_descriptor("frobnicator", Platform::Unix);
    assert_eq!(r.err(), Some("Unknown tool: frobnicator".to_string()));
    let r = tool_descriptor("", Platform::Windows);
    assert_eq!(r.err(), Some("Unknown tool: ".to_string()));
}

#[test]
fn known_tools_have_descriptors() {
    let d = tool_descriptor("ruchy", Platform::Unix).unwrap();
    assert_eq!(d.id, "ruchy");
    assert_eq!(d.search_name, "ruchy");
    assert_eq!(
        d.candidate_paths,
        vec![
            "/Users/denistu/.cargo/bin/ruchy".to_string(),
            "/usr/local/bin/ruchy".to_string(),
            "/opt/homebrew/bin/ruchy".to_string(),
        ]
    );
    let d = tool_descriptor("azure-resource-finder", Platform::Windows).unwrap();
    assert_eq!(
        d.candidate_paths,
        vec![
            "C:\\Program Files\\azure-resource-finder\\azure-resource-finder.exe".to_string(),
            "C:\\azure-resource-finder\\azure-resource-finder.exe".to_string(),
        ]
    );
    let d = tool_descriptor("az", Platform::Unix).unwrap();
    assert_eq!(
        d.candidate_paths,
        vec!["/usr/local/bin/az".to_string(), "/opt/homebrew/bin/az".to_string()]
    );
}

#[test]
fn candidate_scan_returns_a_listed_path_or_nothing() {
    let d = tool_descriptor("ruchy", Platform::Unix).unwrap();
    if let Some(hit) = scan_candidates(&d) {
        assert!(d.candidate_paths.contains(&hit));
    }
}

#[test]
fn existence_check_is_existence_only() {
    assert!(!check_tool_at_path("/surely/not/a/real/executable/path"));
    assert!(check_tool_at_path("/"));
}

#[test]
fn path_shaping_adds_every_well_known_directory() {
    let shaped = extend_path_value("/usr/bin", Platform::Unix);
    for dir in [
        "/opt/homebrew/bin",
        "/opt/homebrew/sbin",
        "/usr/local/bin",
        "/usr/local/sbin",
    ] {
        assert!(shaped.contains(dir));
    }
    assert!(shaped.starts_with("/usr/bin:"));
}

#[test]
fn path_shaping_is_idempotent() {
    let once = extend_path_value("/usr/bin:/bin", Platform::Unix);
    let twice = extend_path_value(&once, Platform::Unix);
    assert_eq!(once, twice);
    let once = extend_path_value("", Platform::Windows);
    let twice = extend_path_value(&once, Platform::Windows);
    assert_eq!(once, twice);
}

#[test]
fn path_shaping_uses_platform_separator() {
    let shaped = extend_path_value("C:\\base", Platform::Windows);
    assert_eq!(
        shaped,
        "C:\\base;C:\\Program Files (x86)\\Microsoft SDKs\\Azure\\CLI2\\wbin;C:\\Program Files\\Microsoft SDKs\\Azure\\CLI2\\wbin"
    );
    let shaped = extend_path_value("", Platform::Unix);
    assert_eq!(
        shaped,
        "/opt/homebrew/bin:/opt/homebrew/sbin:/usr/local/bin:/usr/local/sbin"
    );
}

#[test]
fn path_shaping_keeps_present_directories_single() {
    let already = "/usr/local/bin:/opt/homebrew/bin:/opt/homebrew/sbin:/usr/local/sbin";
    assert_eq!(extend_path_value(already, Platform::Unix), already);
}

#[test]
fn environment_builder_sets_config_dir_under_home() {
    let base = EnvironmentReading {
        path: "/usr/bin".to_string(),
        home: Some("/home/pat".to_string()),
        azure_config_dir: None,
    };
    let shaped = build_environment(&base, Platform::Unix);
    assert_eq!(shaped.azure_config_dir, Some("/home/pat/.azure".to_string()));
    assert!(shaped.path.contains("/usr/local/bin"));
}

#[test]
fn environment_builder_keeps_config_dir_without_home() {
    let base = EnvironmentReading {
        path: String::new(),
        home: None,
        azure_config_dir: Some("/tmp/azure-config".to_string()),
    };
    let shaped = build_environment(&base, Platform::Unix);
    assert_eq!(shaped.azure_config_dir, Some("/tmp/azure-config".to_string()));
}

#[test]
fn environment_builder_is_idempotent_on_its_own_output() {
    let base = EnvironmentReading {
        path: "/usr/bin".to_string(),
        home: Some("/home/pat".to_string()),
        azure_config_dir: None,
    };
    let first = build_environment(&base, Platform::Unix);
    let again = EnvironmentReading {
        path: first.path.clone(),
        home: Some("/home/pat".to_string()),
        azure_config_dir: first.azure_config_dir.clone(),
    };
    let second = build_environment(&again, Platform::Unix);
    assert_eq!(first.path, second.path);
    assert_eq!(first.azure_config_dir, second.azure_config_dir);
}

#[test]
fn repl_return_sentinel_is_a_success() {
    let r = filter_repl_output("Error: return: 42\n", "");
    assert_eq!(r.stdout, "42");
    assert!(r.success);
    assert_eq!(r.stderr, "");
}

#[test]
fn repl_genuine_error_is_a_failure() {
    let r = filter_repl_output("Error: division by zero\n", "");
    assert!(r.stdout.contains("Error: division by zero"));
    assert!(!r.success);
}

#[test]
fn repl_failure_keeps_raw_stderr() {
    let r = filter_repl_output("", "Error: no such variable\n");
    assert!(!r.success);
    assert_eq!(r.stderr, "Error: no such variable\n");
    assert!(r.stdout.contains("Error: no such variable"));
}

#[test]
fn repl_banner_lines_are_stripped() {
    let raw = "Welcome to Ruchy REPL v1.0\nType :help for commands\nruchy> 1 + 1\n2\nGoodbye!\n";
    let r = filter_repl_output(raw, "");
    assert_eq!(r.stdout, "2");
    assert!(r.success);
}

#[test]
fn repl_result_may_arrive_on_stderr() {
    let r = filter_repl_output("Welcome to Ruchy REPL\n", "Error: return: \"ok\"\n");
    assert_eq!(r.stdout, "\"ok\"");
    assert!(r.success);
}

#[test]
fn repl_sentinel_value_looking_like_an_error_still_succeeds() {
    let r = filter_repl_output("Error: return: Error: looks scary\n", "");
    assert_eq!(r.stdout, "Error: looks scary");
    assert!(r.success);
}

#[test]
fn repl_blank_output_is_a_success() {
    let r = filter_repl_output("\n  \n", "");
    assert_eq!(r.stdout, "");
    assert!(r.success);
}

#[test]
fn repl_handles_carriage_returns() {
    let r = filter_repl_output("Welcome to Ruchy REPL\r\nError: return: 7\r\n", "");
    assert_eq!(r.stdout, "7");
    assert!(r.success);
}

#[test]
fn repl_keeps_multiple_result_lines_in_order() {
    let r = filter_repl_output("first\n\nsecond\nruchy> noise\nthird\n", "");
    assert_eq!(r.stdout, "first\nsecond\nthird");
    assert!(r.success);
}

#[test]
fn repl_input_frames_statement_and_quit() {
    assert_eq!(repl_input("1 + 1"), "1 + 1\n:quit\n");
    assert_eq!(repl_input(""), "\n:quit\n");
}

#[test]
fn auth_classification_not_logged_in() {
    let d = classify_auth_failure("ERROR: Please run 'az login' to setup account.", "");
    assert_eq!(d, "User not authenticated. Please run 'az login' in your terminal.");
}

#[test]
fn auth_classification_no_subscriptions() {
    let d = classify_auth_failure("No subscriptions found for this account.", "");
    assert_eq!(
        d,
        "Authenticated but no subscriptions found. Please check your Azure account."
    );
}

#[test]
fn auth_classification_credential_chain() {
    let d = classify_auth_failure("DefaultAzureCredential failed to retrieve a token", "");
    assert_eq!(d, "Authentication failed. Please ensure you are logged in with 'az login'.");
}

#[test]
fn auth_classification_other_stderr() {
    let d = classify_auth_failure("something odd", "");
    assert_eq!(d, "Authentication error: something odd");
}

#[test]
fn auth_classification_unexpected_stdout() {
    let d = classify_auth_failure("", "half a record");
    assert_eq!(d, "Unexpected output during authentication check.");
}

#[test]
fn auth_classification_empty_streams() {
    let d = classify_auth_failure("", "");
    assert_eq!(d, "Unknown authentication error.");
}

#[test]
fn auth_classification_order_prefers_login_marker() {
    let d = classify_auth_failure(
        "DefaultAzureCredential chain: Please run 'az login' first",
        "",
    );
    assert_eq!(d, "User not authenticated. Please run 'az login' in your terminal.");
}

#[test]
fn auth_diagnosis_without_cli() {
    let d = build_auth_diagnosis(false, false, false, "", "");
    assert!(!d.cli_available);
    assert!(!d.logged_in);
    assert!(d.account_info.is_none());
    assert_eq!(d.error, "Azure CLI not found");
}

#[test]
fn auth_diagnosis_when_query_cannot_run() {
    let d = build_auth_diagnosis(true, false, false, "", "");
    assert!(!d.logged_in);
    assert_eq!(d.error, "Failed to execute Azure CLI command.");
}

#[test]
fn auth_diagnosis_failed_query_is_classified() {
    let d = build_auth_diagnosis(true, true, false, "", "ERROR: Please run 'az login'");
    assert!(!d.logged_in);
    assert!(d.account_info.is_none());
    assert_eq!(d.error, "User not authenticated. Please run 'az login' in your terminal.");
}

#[test]
fn auth_diagnosis_success_parses_account_record() {
    let d = build_auth_diagnosis(true, true, true, "{\"name\": \"sub\"}", "");
    assert!(d.logged_in);
    assert_eq!(d.error, "");
    assert!(d.account_info.is_some());
}

#[test]
fn auth_diagnosis_success_with_garbled_record() {
    let d = build_auth_diagnosis(true, true, true, "not json at all {", "");
    assert!(d.logged_in);
    assert!(d.account_info.is_none());
}

#[test]
fn version_summary_takes_first_line() {
    assert_eq!(
        version_summary(true, "azure-cli 2.60.0\ncore 2.60.0\n"),
        "azure-cli 2.60.0"
    );
    assert_eq!(version_summary(true, ""), "Unknown version");
    assert_eq!(version_summary(false, "ignored"), "Azure CLI not available");
}

#[test]
fn finder_failure_is_data_not_an_error() {
    let r = interpret_finder_output("partial output", "it broke", false);
    assert!(!r.success);
    assert_eq!(r.stdout, "partial output");
    assert_eq!(r.stderr, "it broke");
}

#[test]
fn finder_credential_failure_gets_guidance() {
    let r = interpret_finder_output("", "DefaultAzureCredential: failed to acquire a token", false);
    assert!(!r.success);
    assert!(r.stderr.starts_with(
        "Azure authentication failed. Please ensure you are logged in with 'az login'"
    ));
    assert!(r.stderr.contains("DefaultAzureCredential: failed to acquire a token"));
}

#[test]
fn finder_success_passes_streams_through() {
    let r = interpret_finder_output("all good", "DefaultAzureCredential mentioned in a log", true);
    assert!(r.success);
    assert_eq!(r.stderr, "DefaultAzureCredential mentioned in a log");
}

#[test]
fn search_output_takes_first_trimmed_line() {
    assert_eq!(
        parse_search_output(true, "/usr/local/bin/ruchy\n"),
        Some("/usr/local/bin/ruchy".to_string())
    );
    assert_eq!(
        parse_search_output(true, "C:\\tools\\az.cmd\r\nC:\\other\\az.cmd\r\n"),
        Some("C:\\tools\\az.cmd".to_string())
    );
    assert_eq!(parse_search_output(true, "   \n"), None);
    assert_eq!(parse_search_output(true, ""), None);
    assert_eq!(parse_search_output(false, "/usr/local/bin/ruchy\n"), None);
}

#[test]
fn resolution_prefers_candidate_hit() {
    let r = resolve_after_scan(
        "ruchy",
        Some("/usr/local/bin/ruchy".to_string()),
        SearchOutcome::NotFound,
    );
    assert_eq!(r.name, "ruchy");
    assert!(r.available);
    assert_eq!(r.path, Some("/usr/local/bin/ruchy".to_string()));
    assert_eq!(r.error, None);
}

#[test]
fn resolution_uses_search_hit() {
    let r = resolve_after_scan("az", None, SearchOutcome::Found("/usr/bin/az".to_string()));
    assert!(r.available);
    assert_eq!(r.path, Some("/usr/bin/az".to_string()));
}

#[test]
fn resolution_misses_carry_guidance() {
    let r = resolve_after_scan("azure-resource-finder", None, SearchOutcome::NotFound);
    assert!(!r.available);
    assert_eq!(
        r.error,
        Some(
            "Azure Resource Finder not found. Please install it or configure the path in settings."
                .to_string()
        )
    );
    let r = resolve_after_scan("ruchy", None, SearchOutcome::NotFound);
    assert_eq!(
        r.error,
        Some(
            "Ruchy not found. Please install it with 'cargo install ruchy' or configure the path in settings."
                .to_string()
        )
    );
    let r = resolve_after_scan("az", None, SearchOutcome::NotFound);
    assert_eq!(
        r.error,
        Some(
            "Azure CLI not found. Please install it from https://docs.microsoft.com/en-us/cli/azure/install-azure-cli"
                .to_string()
        )
    );
}

#[test]
fn resolution_reports_search_failure() {
    let r = resolve_after_scan(
        "az",
        None,
        SearchOutcome::SearchFailed("Failed to execute which: spawn refused".to_string()),
    );
    assert!(!r.available);
    assert_eq!(
        r.error,
        Some("Failed to search for az: Failed to execute which: spawn refused".to_string())
    );
}

#[test]
fn http_plan_normalises_method_word() {
    let p = plan_http_request("get", false).unwrap();
    assert_eq!(p.method, HttpMethod::Get);
    assert!(!p.send_body);
    let p = plan_http_request("PoSt", true).unwrap();
    assert_eq!(p.method, HttpMethod::Post);
    assert!(p.send_body);
}

#[test]
fn http_plan_attaches_body_only_where_it_belongs() {
    assert!(plan_http_request("PUT", true).unwrap().send_body);
    assert!(plan_http_request("PATCH", true).unwrap().send_body);
    assert!(!plan_http_request("DELETE", true).unwrap().send_body);
    assert!(!plan_http_request("GET", true).unwrap().send_body);
    assert!(!plan_http_request("POST", false).unwrap().send_body);
}

#[test]
fn http_plan_rejects_unknown_method() {
    let e = plan_http_request("BREW", false).unwrap_err();
    assert_eq!(e, "Unsupported HTTP method: BREW");
}
