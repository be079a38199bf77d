use slowburn_shell::health::health_request;
use slowburn_shell::health::health_response_matches;
use slowburn_shell::launch::choose_base_resources;
use slowburn_shell::launch::choose_node_binary;
use slowburn_shell::launch::choose_port;
use slowburn_shell::launch::join_path;
use slowburn_shell::launch::plan_launch;
use slowburn_shell::launch::server_env;
use slowburn_shell::supervise::navigation_script;
use slowburn_shell::supervise::poll_decision;
use slowburn_shell::supervise::server_url;
use slowburn_shell::supervise::should_terminate_server;
use slowburn_shell::supervise::PollAction;
use slowburn_shell::supervise::MAX_HEALTH_ATTEMPTS;
use slowburn_shell::text::contains_substring;
use slowburn_shell::text::u16_to_dec;

#[test]
fn decimal_single_digit() {
    assert_eq!(u16_to_dec(0), "0");
    assert_eq!(u16_to_dec(7), "7");
}

#[test]
fn decimal_several_digits() {
    assert_eq!(u16_to_dec(10), "10");
    assert_eq!(u16_to_dec(3002), "3002");
    assert_eq!(u16_to_dec(65535), "65535");
}

#[test]
fn substring_found() {
    assert!(contains_substring("hello world", "o wor"));
    assert!(contains_substring("abc", "abc"));
    assert!(contains_substring("abc", "c"));
}

#[test]
fn substring_empty_needle() {
    assert!(contains_substring("abc", ""));
    assert!(contains_substring("", ""));
}

#[test]
fn substring_absent() {
    assert!(!contains_substring("abc", "abd"));
    assert!(!contains_substring("ab", "abc"));
    assert!(!contains_substring("", "a"));
    assert!(!contains_substring("aab", "ab c"));
}

#[test]
fn substring_near_miss_prefixes() {
    assert!(contains_substring("aaab", "aab"));
    assert!(!contains_substring("aaac", "aab"));
}

#[test]
fn health_request_exact() {
    assert_eq!(
        health_request(3002),
        "GET /api/health HTTP/1.1\r\nHost: 127.0.0.1:3002\r\nConnection: close\r\n\r\n"
    );
}

#[test]
fn health_response_plain_spacing() {
    let response = "HTTP/1.1 200 OK\r\n\r\n{\"status\":\"ok\",\"app\":\"slowburn\"}";
    assert!(health_response_matches(response, "slowburn"));
}

#[test]
fn health_response_spaced() {
    let response = "HTTP/1.1 200 OK\r\n\r\n{\"app\": \"slowburn\"}";
    assert!(health_response_matches(response, "slowburn"));
}

#[test]
fn health_response_wrong_app() {
    let response = "HTTP/1.1 200 OK\r\n\r\n{\"app\":\"other\"}";
    assert!(!health_response_matches(response, "slowburn"));
}

#[test]
fn health_response_no_app_field() {
    let response = "HTTP/1.1 404 Not Found\r\n\r\nnot here";
    assert!(!health_response_matches(response, "slowburn"));
}

#[test]
fn health_response_wide_spacing_rejected() {
    let response = "{\"app\":  \"slowburn\"}";
    assert!(!health_response_matches(response, "slowburn"));
}

#[test]
fn join_path_appends_component() {
    assert_eq!(join_path("/tmp/base", "file.txt"), "/tmp/base/file.txt");
}

#[test]
fn base_resources_prefers_nested() {
    assert_eq!(choose_base_resources("/res", true), "/res/resources");
    assert_eq!(choose_base_resources("/res", false), "/res");
}

#[test]
fn node_binary_prefers_bundled() {
    assert_eq!(choose_node_binary("/res/node", true, true), "/res/node");
    assert_eq!(choose_node_binary("/res/node", true, false), "/res/node");
}

#[test]
fn node_binary_falls_back_to_homebrew() {
    assert_eq!(
        choose_node_binary("/res/node", false, true),
        "/opt/homebrew/bin/node"
    );
}

#[test]
fn node_binary_falls_back_to_path_lookup() {
    assert_eq!(choose_node_binary("/res/node", false, false), "node");
}

#[test]
fn port_uses_reservation() {
    assert_eq!(choose_port(Some(49152)), 49152);
}

#[test]
fn port_falls_back_when_reservation_failed() {
    assert_eq!(choose_port(None), 3002);
}

#[test]
fn env_holds_the_four_variables() {
    let env = server_env(3002, "/data/slowburn.db");
    assert_eq!(env.len(), 4);
    assert_eq!(env[0].0, "PORT");
    assert_eq!(env[0].1, "3002");
    assert_eq!(env[1].0, "NODE_ENV");
    assert_eq!(env[1].1, "production");
    assert_eq!(env[2].0, "DISABLE_LIVERELOAD");
    assert_eq!(env[2].1, "1");
    assert_eq!(env[3].0, "DB_PATH");
    assert_eq!(env[3].1, "/data/slowburn.db");
}

#[test]
fn plan_with_everything_bundled() {
    let plan = plan_launch("/res", true, true, false, "/data", false, true, Some(41000));
    assert_eq!(plan.app_dir, "/res/resources/slowburn-app");
    assert_eq!(plan.server_js, "/res/resources/slowburn-app/server.js");
    assert_eq!(plan.node_bin, "/res/resources/node");
    assert_eq!(plan.db_path, "/data/slowburn.db");
    assert_eq!(plan.copy_db_from.as_deref(), Some("/res/resources/slowburn.db"));
    assert_eq!(plan.port, 41000);
    assert_eq!(plan.env[0].1, "41000");
}

#[test]
fn plan_with_nothing_bundled() {
    let plan = plan_launch("/res", false, false, false, "/data", true, true, None);
    assert_eq!(plan.app_dir, "/res/slowburn-app");
    assert_eq!(plan.server_js, "/res/slowburn-app/server.js");
    assert_eq!(plan.node_bin, "node");
    assert_eq!(plan.db_path, "/data/slowburn.db");
    assert_eq!(plan.copy_db_from, None);
    assert_eq!(plan.port, 3002);
    assert_eq!(plan.env[0].1, "3002");
    assert_eq!(plan.env[3].1, "/data/slowburn.db");
}

#[test]
fn plan_keeps_existing_database() {
    let plan = plan_launch("/res", false, false, true, "/data", true, false, Some(5000));
    assert_eq!(plan.copy_db_from, None);
    assert_eq!(plan.node_bin, "/opt/homebrew/bin/node");
}

#[test]
fn poll_navigates_when_healthy() {
    assert_eq!(poll_decision(0, true), PollAction::Navigate);
    assert_eq!(poll_decision(59, true), PollAction::Navigate);
}

#[test]
fn poll_waits_while_probes_remain() {
    assert_eq!(poll_decision(0, false), PollAction::Wait);
    assert_eq!(poll_decision(58, false), PollAction::Wait);
}

#[test]
fn poll_gives_up_on_the_last_probe() {
    assert_eq!(MAX_HEALTH_ATTEMPTS, 60);
    assert_eq!(poll_decision(59, false), PollAction::GiveUp);
}

#[test]
fn server_url_exact() {
    assert_eq!(server_url(3002), "http://127.0.0.1:3002");
}

#[test]
fn navigation_script_exact() {
    assert_eq!(
        navigation_script(41000),
        "location.replace('http://127.0.0.1:41000');"
    );
}

#[test]
fn terminate_only_on_last_window_close() {
    assert!(should_terminate_server(true, 1));
    assert!(!should_terminate_server(true, 2));
    assert!(!should_terminate_server(false, 1));
    assert!(!should_terminate_server(true, 0));
}
