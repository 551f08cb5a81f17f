use engine2::DeserializedApi;
use engine2::ManagedApi;
use engine2::MatchType;
use engine2::store::RouteTableStore;
use engine2::table::RouteTable;

fn def(methods: &[&str], base: &str, target: &str, servers: &[&str]) -> DeserializedApi {
    DeserializedApi {
        _id: String::from("620fe37e770d9e0a60f1a787"),
        name: String::from("sample"),
        version: 1,
        methods: methods.iter().map(|m| m.to_string()).collect(),
        base_path: String::from(base),
        target_path: String::from(target),
        target_servers: servers.iter().map(|s| s.to_string()).collect(),
    }
}

#[test]
fn test_classify_exact() {
    let m = ManagedApi::new(def(&["GET"], "/v1/test", "/target", &["https://up.example"]));
    assert!(matches!(m.match_type, MatchType::Exact));
    assert_eq!(m.de_api.base_path, "/v1/test");
    assert_eq!(m.de_api.target_path, "/target");
    assert_eq!(m.get_key(), "/v1/test");
}

#[test]
fn test_classify_prefix_strips_markers() {
    let m = ManagedApi::new(def(&["GET"], "/naver/*", "/*", &["http://x"]));
    assert!(matches!(m.match_type, MatchType::Prefix));
    assert_eq!(m.de_api.base_path, "/naver/");
    assert_eq!(m.de_api.target_path, "/");
}

#[test]
fn test_classify_prefix_plain_target_kept() {
    let m = ManagedApi::new(def(&["GET"], "/v2/naver/*", "/", &["http://www.naver.com"]));
    assert!(matches!(m.match_type, MatchType::Prefix));
    assert_eq!(m.de_api.base_path, "/v2/naver/");
    assert_eq!(m.de_api.target_path, "/");
}

#[test]
fn test_find_exact_match() {
    let mut store = RouteTableStore::new();
    store.apply(vec![def(&["GET"], "/v1/test", "/target", &["https://up.example"])]);
    let found = store.find_api_by_reqline("GET", "/v1/test");
    assert!(found.is_some());
    let api = found.unwrap();
    assert_eq!(api.de_api.target_path, "/target");
    assert_eq!(api.de_api.target_servers[0], "https://up.example");
    assert!(store.find_api_by_reqline("POST", "/v1/test").is_none());
    assert!(store.find_api_by_reqline("GET", "/v1/other").is_none());
}

#[test]
fn test_exact_match_precedence() {
    let mut store = RouteTableStore::new();
    store.apply(vec![
        def(&["GET"], "/v1/*", "/prefix-target", &["http://prefix.example"]),
        def(&["GET"], "/v1/test", "/exact-target", &["http://exact.example"]),
    ]);
    let found = store.find_api_by_reqline("GET", "/v1/test").unwrap();
    assert_eq!(found.de_api.target_path, "/exact-target");
    assert_eq!(found.de_api.target_servers[0], "http://exact.example");
}

#[test]
fn test_prefix_rewrite() {
    let mut store = RouteTableStore::new();
    store.apply(vec![def(&["GET"], "/naver/*", "/*", &["http://x"])]);
    let found = store.find_api_by_reqline("GET", "/naver/favicon.ico").unwrap();
    assert_eq!(found.de_api.target_path, "/favicon.ico");
    assert_eq!(found.de_api.target_servers[0], "http://x");
}

#[test]
fn test_prefix_rewrite_deep_path() {
    let mut store = RouteTableStore::new();
    store.apply(vec![def(&["GET"], "/api/*", "/backend", &["http://b"])]);
    let found = store.find_api_by_reqline("GET", "/api/v2/items").unwrap();
    assert_eq!(found.de_api.target_path, "/backend/v2/items");
}

#[test]
fn test_method_filtering() {
    let mut store = RouteTableStore::new();
    store.apply(vec![def(&["GET"], "/a/*", "/only-get", &["http://one"])]);
    assert!(store.find_api_by_reqline("POST", "/a/x").is_none());

    store.apply(vec![
        def(&["GET"], "/a/*", "/only-get", &["http://one"]),
        def(&["POST"], "/a/*", "/takes-post", &["http://two"]),
    ]);
    let found = store.find_api_by_reqline("POST", "/a/x").unwrap();
    assert_eq!(found.de_api.target_servers[0], "http://two");
}

#[test]
fn test_apply_idempotent() {
    let defs = || {
        vec![
            def(&["GET"], "/v1/test", "/target", &["https://up.example"]),
            def(&["GET"], "/naver/*", "/*", &["http://x"]),
        ]
    };
    let mut store = RouteTableStore::new();
    store.apply(defs());
    let first_exact = store.find_api_by_reqline("GET", "/v1/test").unwrap();
    let first_prefix = store.find_api_by_reqline("GET", "/naver/favicon.ico").unwrap();
    store.apply(defs());
    let second_exact = store.find_api_by_reqline("GET", "/v1/test").unwrap();
    let second_prefix = store.find_api_by_reqline("GET", "/naver/favicon.ico").unwrap();
    assert_eq!(first_exact.de_api.target_path, second_exact.de_api.target_path);
    assert_eq!(first_prefix.de_api.target_path, second_prefix.de_api.target_path);
    assert_eq!(
        first_exact.de_api.target_servers,
        second_exact.de_api.target_servers
    );
    assert!(store.find_api_by_reqline("POST", "/v1/test").is_none());
}

#[test]
fn test_apply_replaces_whole_table() {
    let mut store = RouteTableStore::new();
    store.apply(vec![def(&["GET"], "/old", "/old-target", &["http://old"])]);
    assert!(store.find_api_by_reqline("GET", "/old").is_some());
    store.apply(vec![def(&["GET"], "/new", "/new-target", &["http://new"])]);
    assert!(store.find_api_by_reqline("GET", "/old").is_none());
    assert!(store.find_api_by_reqline("GET", "/new").is_some());
}

#[test]
fn test_apply_empty_list_drains() {
    let mut store = RouteTableStore::new();
    store.apply(vec![def(&["GET"], "/v1/test", "/target", &["http://up"])]);
    store.apply(vec![]);
    assert!(store.find_api_by_reqline("GET", "/v1/test").is_none());
}

#[test]
fn test_malformed_definitions_skipped() {
    let mut store = RouteTableStore::new();
    store.apply(vec![
        def(&["GET"], "", "/target", &["http://empty-base"]),
        def(&["GET"], "/good", "/target", &["http://good"]),
        def(&["GET"], "/no-servers", "/target", &[]),
        def(&["GET"], "/double**", "/target", &["http://double-star"]),
    ]);
    assert!(store.find_api_by_reqline("GET", "/good").is_some());
    assert!(store.find_api_by_reqline("GET", "/no-servers").is_none());
    assert!(store.find_api_by_reqline("GET", "/double*").is_none());
    assert!(store.find_api_by_reqline("GET", "").is_none());
}

#[test]
fn test_duplicate_exact_key_last_wins() {
    let mut store = RouteTableStore::new();
    store.apply(vec![
        def(&["GET"], "/dup", "/first", &["http://first"]),
        def(&["GET"], "/dup", "/second", &["http://second"]),
    ]);
    let found = store.find_api_by_reqline("GET", "/dup").unwrap();
    assert_eq!(found.de_api.target_path, "/second");
    assert_eq!(found.de_api.target_servers[0], "http://second");
}

#[test]
fn test_catch_all_prefix() {
    let mut store = RouteTableStore::new();
    store.apply(vec![def(&["GET"], "*", "/", &["http://all"])]);
    let found = store.find_api_by_reqline("GET", "/anything/else").unwrap();
    assert_eq!(found.de_api.target_path, "/anything/else");
    assert_eq!(found.de_api.target_servers[0], "http://all");
}

#[test]
fn test_catch_all_shadows_later_entries() {
    let mut store = RouteTableStore::new();
    store.apply(vec![
        def(&["GET"], "*", "/", &["http://all"]),
        def(&["GET"], "/a/*", "/specific", &["http://specific"]),
    ]);
    let found = store.find_api_by_reqline("GET", "/a/x").unwrap();
    assert_eq!(found.de_api.target_servers[0], "http://all");
}

#[test]
fn test_insertion_order_wins_over_length() {
    let mut store = RouteTableStore::new();
    store.apply(vec![
        def(&["GET"], "/a/*", "/short", &["http://short"]),
        def(&["GET"], "/a/b/*", "/long", &["http://long"]),
    ]);
    let found = store.find_api_by_reqline("GET", "/a/b/c").unwrap();
    assert_eq!(found.de_api.target_servers[0], "http://short");
}

#[test]
fn test_generation_selector_parity() {
    let mut store = RouteTableStore::new();
    assert_eq!(store.get_gloval_view(), 0);
    store.apply(vec![def(&["GET"], "/v1/test", "/target", &["http://up"])]);
    assert_eq!(store.get_gloval_view(), 1);
    store.apply(vec![def(&["GET"], "/v1/test", "/target", &["http://up"])]);
    assert_eq!(store.get_gloval_view(), 0);
    assert!(store.find_api_by_reqline("GET", "/v1/test").is_some());
}

#[test]
fn test_read_active_reflects_apply() {
    let mut store = RouteTableStore::new();
    store.apply(vec![def(&["GET"], "/v1/test", "/target", &["http://up"])]);
    let table: &RouteTable = store.read_active();
    assert!(table.find("GET", "/v1/test").is_some());
    assert!(table.find("DELETE", "/v1/test").is_none());
}

#[test]
fn test_route_table_direct_insert() {
    let mut table = RouteTable::new();
    assert!(table.find("GET", "/v1/test").is_none());
    table.insert(ManagedApi::new(def(
        &["GET"],
        "/v1/test",
        "/target",
        &["http://up"],
    )));
    assert!(table.find("GET", "/v1/test").is_some());
    table.clear();
    assert!(table.find("GET", "/v1/test").is_none());
}

#[test]
fn test_method_names_are_exact_strings() {
    let mut store = RouteTableStore::new();
    store.apply(vec![def(&["GET"], "/v1/test", "/target", &["http://up"])]);
    assert!(store.find_api_by_reqline("get", "/v1/test").is_none());
}

#[test]
fn test_update_apis() {
    let mut store = RouteTableStore::new();
    let api1 = def(&["GET"], "/v1/test", "/woij123", &["https://httpbin.org:443"]);
    let api2 = def(&["GET", "POST"], "/v2/naver/*", "/", &["http://www.naver.com:80"]);
    store.insert_apis_into_new_map(vec![api1, api2]);
    assert!(store.find_api_by_reqline("GET", "/v1/test").is_some());
    store.insert_apis_into_new_map(vec![]);
    assert!(store.find_api_by_reqline("GET", "/v1/test").is_none());
}

#[test]
fn test_find_apis() {
    let mut store = RouteTableStore::new();
    let api1 = def(&["GET"], "/v1/test", "/woij123", &["https://httpbin.org:443"]);
    let api2 = def(&["GET", "POST"], "/v2/naver/*", "/", &["http://www.naver.com:80"]);
    store.insert_apis_into_new_map(vec![api1, api2]);
    let found = store.find_api_by_reqline("GET", "/v1/test");
    assert!(found.is_some());
    assert_eq!(found.unwrap().de_api.target_path, "/woij123");
    let found = store.find_api_by_reqline("POST", "/v2/naver/favicon.ico");
    assert!(found.is_some());
    assert_eq!(found.unwrap().de_api.target_path, "/favicon.ico");
}
