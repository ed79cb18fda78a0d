use wallet_bridge::dispatch::DispatchPlan;
use wallet_bridge::dispatch::dispatch_plan;
use wallet_bridge::dispatch::split_whitespace_tokens;
use wallet_bridge::dispatch::tokenize_args;
use wallet_bridge::height::height_from_field;
use wallet_bridge::height::height_from_response;
use wallet_bridge::lifecycle::LoadOutcome;
use wallet_bridge::lifecycle::initialize_existing;
use wallet_bridge::registry::EngineHandle;
use wallet_bridge::registry::Registry;
use wallet_bridge::server_info::ServerInfo;
use wallet_bridge::server_info::ServerProbe;
use wallet_bridge::server_info::probe_server_plan;
use wallet_bridge::server_info::server_error_json;
use wallet_bridge::server_info::server_info_json;

fn started_handle(id: u64) -> EngineHandle {
    let mut h = EngineHandle::new(id);
    h.mark_watcher_started();
    h
}

#[test]
fn dispatch_on_empty_registry_is_uninitialized_error() {
    let registry = Registry::new();
    match dispatch_plan(&registry, "balance", "") {
        DispatchPlan::Uninitialized { result } => {
            assert_eq!(result, "{\"error\": \"Wallet not initialized\"}");
        },
        DispatchPlan::Forward { .. } => panic!("empty registry must not forward"),
    }
}

#[test]
fn send_json_payload_is_one_token() {
    let mut registry = Registry::new();
    initialize_existing(&mut registry, LoadOutcome::Loaded { handle: started_handle(1) });
    let payload = "[{\"address\":\"z1...\",\"amount\":5}]";
    match dispatch_plan(&registry, "send", payload) {
        DispatchPlan::Forward { tokens, .. } => {
            assert_eq!(tokens, vec![payload.to_string()]);
        },
        DispatchPlan::Uninitialized { .. } => panic!("registry holds a handle"),
    }
}

#[test]
fn empty_args_are_zero_tokens() {
    let mut registry = Registry::new();
    initialize_existing(&mut registry, LoadOutcome::Loaded { handle: started_handle(2) });
    match dispatch_plan(&registry, "balance", "") {
        DispatchPlan::Forward { tokens, .. } => {
            assert!(tokens.is_empty());
        },
        DispatchPlan::Uninitialized { .. } => panic!("registry holds a handle"),
    }
}

#[test]
fn single_arg_is_one_token() {
    let mut registry = Registry::new();
    initialize_existing(&mut registry, LoadOutcome::Loaded { handle: started_handle(3) });
    match dispatch_plan(&registry, "new", "z") {
        DispatchPlan::Forward { tokens, .. } => {
            assert_eq!(tokens, vec!["z".to_string()]);
        },
        DispatchPlan::Uninitialized { .. } => panic!("registry holds a handle"),
    }
}

#[test]
fn whitespace_tokenization() {
    assert_eq!(
        split_whitespace_tokens("  alpha  beta\tgamma\n"),
        vec!["alpha".to_string(), "beta".to_string(), "gamma".to_string()]
    );
    assert_eq!(split_whitespace_tokens("   "), Vec::<String>::new());
}

#[test]
fn unicode_whitespace_also_splits() {
    assert_eq!(
        split_whitespace_tokens("a\u{00A0}b\u{3000}c"),
        vec!["a".to_string(), "b".to_string(), "c".to_string()]
    );
    assert_eq!(
        split_whitespace_tokens("\u{2028}one\u{2009}two\u{0085}"),
        vec!["one".to_string(), "two".to_string()]
    );
}

#[test]
fn non_send_bracket_args_still_split() {
    let tokens = tokenize_args("list", "[a b]");
    assert_eq!(tokens, vec!["[a".to_string(), "b]".to_string()]);
}

#[test]
fn send_without_bracket_splits() {
    let tokens = tokenize_args("send", "z1addr 5000");
    assert_eq!(tokens, vec!["z1addr".to_string(), "5000".to_string()]);
}

#[test]
fn height_parses_from_json() {
    assert_eq!(height_from_response("{\"height\": 1234567}"), 1234567);
}

#[test]
fn height_defaults_to_zero() {
    assert_eq!(height_from_response("not json at all"), 0);
    assert_eq!(height_from_response("{\"other\": 5}"), 0);
    assert_eq!(height_from_response("{\"height\": \"tall\"}"), 0);
    assert_eq!(height_from_response("{\"height\": -3}"), 0);
}

#[test]
fn height_field_truncates() {
    assert_eq!(height_from_field(Some(7)), 7);
    assert_eq!(height_from_field(None), 0);
    assert_eq!(height_from_field(Some(u32::MAX as u64 + 8)), 7);
}

#[test]
fn probe_rejects_malformed_uri() {
    match probe_server_plan("not a uri at all") {
        ServerProbe::Invalid { result } => {
            assert!(result.starts_with(
                "{\"details\":\"Please check the server URL format\",\"error\":\"Invalid server URI: "
            ));
            assert!(result.ends_with("\"}"));
        },
        ServerProbe::Query { .. } => panic!("spaces cannot form a URI"),
    }
}

#[test]
fn probe_accepts_https_uri() {
    match probe_server_plan("https://lightd.example.com:9067") {
        ServerProbe::Query { uri } => {
            assert_eq!(uri.host(), Some("lightd.example.com"));
        },
        ServerProbe::Invalid { .. } => panic!("a well-formed URI must pass"),
    }
}

#[test]
fn server_info_object_shape() {
    let info = ServerInfo {
        version: String::from("0.2.0"),
        vendor: String::from("ECC"),
        taddr_support: true,
        chain_name: String::from("main"),
        sapling_activation_height: 419200,
        consensus_branch_id: String::from("e9ff75a6"),
        block_height: 2000000,
        git_commit: String::from("abc"),
        branch: String::from("master"),
        build_date: String::from("today"),
        build_user: String::from("builder"),
        estimated_height: 2000001,
        zcashd_build: String::from("b1"),
        zcashd_subversion: String::from("/z:5.0/"),
    };
    let expected = "{\"block_height\":2000000,\"branch\":\"master\",\"build_date\":\"today\",\"build_user\":\"builder\",\"chain_name\":\"main\",\"consensus_branch_id\":\"e9ff75a6\",\"estimated_height\":2000001,\"git_commit\":\"abc\",\"sapling_activation_height\":419200,\"success\":true,\"taddr_support\":true,\"timestamp\":1700000000,\"vendor\":\"ECC\",\"version\":\"0.2.0\",\"zcashd_build\":\"b1\",\"zcashd_subversion\":\"/z:5.0/\"}";
    assert_eq!(server_info_json(&info, 1700000000), expected);
}

#[test]
fn server_error_object_shape() {
    assert_eq!(
        server_error_json("connection refused", -2),
        "{\"details\":\"Please check server URL and network connectivity\",\"error\":\"Failed to connect to server: connection refused\",\"timestamp\":-2}"
    );
}
