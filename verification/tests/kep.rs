use kep::cli::exit_code;
use kep::cli::is_help_flag;
use kep::cli::join_tokens;
use kep::cli::parse_args;
use kep::cli::plan;
use kep::cli::str_eq;
use kep::cli::Plan;
use kep::cli::HELP;
use kep::duration::parse_duration;
use kep::key::cache_key;
use kep::store::cache_file_path;
use kep::store::choose_cache_root;
use kep::store::default_cache_root;
use kep::store::should_serve_cache;
use kep::DEFAULT_TTL_SECS;

fn toks(words: &[&str]) -> Vec<String> {
    words.iter().map(|w| w.to_string()).collect()
}

#[test]
fn duration_units() {
    assert_eq!(parse_duration("10s"), Some(10));
    assert_eq!(parse_duration("30m"), Some(30 * 60));
    assert_eq!(parse_duration("1h"), Some(3600));
    assert_eq!(parse_duration("2h"), Some(7200));
    assert_eq!(parse_duration("7d"), Some(7 * 86400));
    assert_eq!(parse_duration("0s"), Some(0));
    assert_eq!(parse_duration("0d"), Some(0));
}

#[test]
fn duration_rejects_malformed_tokens() {
    assert_eq!(parse_duration(""), None);
    assert_eq!(parse_duration("s"), None);
    assert_eq!(parse_duration("h"), None);
    assert_eq!(parse_duration("10"), None);
    assert_eq!(parse_duration("10x"), None);
    assert_eq!(parse_duration("x5s"), None);
    assert_eq!(parse_duration("5S"), None);
    assert_eq!(parse_duration("1h2"), None);
    assert_eq!(parse_duration("-5s"), None);
    assert_eq!(parse_duration(" 5s"), None);
    assert_eq!(parse_duration("echo"), None);
}

#[test]
fn duration_magnitude_limits() {
    assert_eq!(parse_duration("18446744073709551615s"), Some(u64::MAX));
    assert_eq!(parse_duration("18446744073709551616s"), None);
    assert_eq!(parse_duration("300000000000000000d"), Some(u64::MAX));
}

#[test]
fn key_is_deterministic() {
    let a = cache_key(&toks(&["curl", "example.com"]));
    let b = cache_key(&toks(&["curl", "example.com"]));
    assert_eq!(a, b);
}

#[test]
fn key_is_fixed_width_lowercase_hex() {
    for t in [
        toks(&[]),
        toks(&[""]),
        toks(&["echo"]),
        toks(&["echo", "hello", "world"]),
    ] {
        let k = cache_key(&t);
        assert_eq!(k.len(), 16);
        assert!(k.chars().all(|c| c.is_ascii_hexdigit() && !c.is_ascii_uppercase()));
    }
}

#[test]
fn key_is_order_sensitive() {
    let keys = [
        cache_key(&toks(&["echo", "a", "b"])),
        cache_key(&toks(&["echo", "b", "a"])),
        cache_key(&toks(&["a", "echo", "b"])),
        cache_key(&toks(&["a", "b", "echo"])),
        cache_key(&toks(&["b", "echo", "a"])),
        cache_key(&toks(&["b", "a", "echo"])),
    ];
    for i in 0..keys.len() {
        for j in 0..keys.len() {
            if i != j {
                assert_ne!(keys[i], keys[j]);
            }
        }
    }
}

#[test]
fn key_is_boundary_sensitive() {
    let split = cache_key(&toks(&["echo", "a", "b"]));
    let joined = cache_key(&toks(&["echo", "a b"]));
    let whole = cache_key(&toks(&["echo a b"]));
    assert_ne!(split, joined);
    assert_ne!(split, whole);
    assert_ne!(joined, whole);
}

#[test]
fn parse_args_with_duration() {
    let (ttl, cmd) = parse_args(&toks(&["1h", "echo", "hi"]));
    assert_eq!(ttl, 3600);
    assert_eq!(cmd, toks(&["echo", "hi"]));
}

#[test]
fn parse_args_without_duration_keeps_all_tokens() {
    let (ttl, cmd) = parse_args(&toks(&["echo", "hello"]));
    assert_eq!(ttl, DEFAULT_TTL_SECS);
    assert_eq!(cmd, toks(&["echo", "hello"]));
}

#[test]
fn plan_help_on_empty_and_flags() {
    assert!(matches!(plan(&toks(&[])), Plan::Help));
    assert!(matches!(plan(&toks(&["-h"])), Plan::Help));
    assert!(matches!(plan(&toks(&["--help"])), Plan::Help));
    assert!(matches!(plan(&toks(&["-h", "echo", "hi"])), Plan::Help));
}

#[test]
fn plan_reports_missing_command() {
    assert!(matches!(plan(&toks(&["1h"])), Plan::NoCommand));
    assert!(matches!(plan(&toks(&["10s"])), Plan::NoCommand));
}

#[test]
fn plan_treats_unparseable_duration_as_command() {
    match plan(&toks(&["echo", "hello"])) {
        Plan::Run { ttl_secs, tokens } => {
            assert_eq!(ttl_secs, 3600);
            assert_eq!(tokens, toks(&["echo", "hello"]));
        }
        other => panic!("expected a run, got {:?}", other),
    }
}

#[test]
fn plan_strips_the_duration_token() {
    match plan(&toks(&["30m", "echo", "hi"])) {
        Plan::Run { ttl_secs, tokens } => {
            assert_eq!(ttl_secs, 1800);
            assert_eq!(tokens, toks(&["echo", "hi"]));
        }
        other => panic!("expected a run, got {:?}", other),
    }
}

#[test]
fn help_flag_detection() {
    assert!(is_help_flag("-h"));
    assert!(is_help_flag("--help"));
    assert!(!is_help_flag("-help"));
    assert!(!is_help_flag("help"));
    assert!(!is_help_flag(""));
}

#[test]
fn string_comparison() {
    assert!(str_eq("", ""));
    assert!(str_eq("abc", "abc"));
    assert!(!str_eq("abc", "abd"));
    assert!(!str_eq("abc", "abcd"));
}

#[test]
fn joining_tokens() {
    assert_eq!(join_tokens(&toks(&[])), "");
    assert_eq!(join_tokens(&toks(&["ls"])), "ls");
    assert_eq!(join_tokens(&toks(&["echo", "hello", "world"])), "echo hello world");
    assert_eq!(join_tokens(&toks(&["echo", "a b"])), "echo a b");
}

#[test]
fn freshness_decision() {
    assert!(should_serve_cache(Some((0, 0)), 10));
    assert!(should_serve_cache(Some((5, 999_999_999)), 10));
    assert!(should_serve_cache(Some((10, 0)), 10));
    assert!(!should_serve_cache(Some((10, 1)), 10));
    assert!(!should_serve_cache(Some((11, 0)), 10));
    assert!(!should_serve_cache(Some((3601, 0)), 3600));
    assert!(!should_serve_cache(None, u64::MAX));
}

#[test]
fn exit_code_defaults_to_one() {
    assert_eq!(exit_code(Some(0)), 0);
    assert_eq!(exit_code(Some(5)), 5);
    assert_eq!(exit_code(None), 1);
}

#[test]
fn cache_root_fallback() {
    assert_eq!(choose_cache_root(Some("/var/cache/me".to_string())), "/var/cache/me");
    assert_eq!(choose_cache_root(None), "/tmp");
}

#[test]
fn cache_root_is_stable_within_a_process() {
    assert_eq!(default_cache_root(), default_cache_root());
}

#[test]
fn entry_path_layout() {
    let cmd = toks(&["echo", "hi"]);
    let path = cache_file_path("/root-dir", &cmd);
    assert_eq!(path, format!("/root-dir/kep/{}", cache_key(&cmd)));
    assert_eq!(path.len(), "/root-dir/kep/".len() + 16);
}

#[test]
fn usage_text_mentions_the_surface() {
    assert!(HELP.contains("Usage: kep [duration] <command...>"));
    assert!(HELP.contains("s (seconds), m (minutes), h (hours), d (days)"));
}
