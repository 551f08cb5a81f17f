use engine2::DeserializedApi;
use engine2::access_log::AccessLog;
use engine2::access_log::AccessLogLayer;
use engine2::access_log::AccessLogRequestBody;
use engine2::access_log::AccessLogResponseBody;
use engine2::access_log::Metric;
use engine2::config::signal_in_rage;
use engine2::control::HttpsConfig;
use engine2::control::PollResponse;
use engine2::control::RegisterResponse;
use engine2::control::SystemConfig;
use engine2::control::process_admin_message;
use engine2::control::process_register_response_message;
use engine2::control::register_identity;
use engine2::cors::CorsLayer;
use engine2::message::HeaderField;
use engine2::message::ResponseHead;
use engine2::pipeline::RequestOutcome;
use engine2::pipeline::complete_response;
use engine2::pipeline::handle_request;
use engine2::proxy::ProxyService;
use engine2::route::RouteLayer;
use engine2::route::dummy_route;
use engine2::store::RouteTableStore;

fn def(methods: &[&str], base: &str, target: &str, servers: &[&str]) -> DeserializedApi {
    DeserializedApi {
        _id: String::from("620fe37e770d9e0a60f1a787"),
        name: String::from("sample"),
        version: 1,
        methods: methods.iter().map(|m| m.to_string()).collect(),
        base_path: String::from(base),
        target_path: String::from(target),
        target_servers: servers.iter().map(|s| s.to_string()).collect(),
    }
}

fn header_value(resp: &ResponseHead, name: &str) -> Option<String> {
    let mut found: Option<String> = None;
    for h in resp.headers.iter() {
        if h.name == name {
            found = Some(h.value.clone());
        }
    }
    found
}

fn config_sample() -> SystemConfig {
    SystemConfig {
        _id: String::from("cfg"),
        access_log_format: String::from("combined"),
        listen_http_port: String::from("3000"),
        listen_https: HttpsConfig {
            _id: String::from("https"),
            certificate_file_data: String::new(),
            certificate_file_name: String::new(),
            password: String::new(),
            port: String::from("3443"),
            private_key_file_data: String::new(),
            private_key_file_name: String::new(),
        },
        system_log_level: String::from("info"),
        threads: String::from("4"),
    }
}

#[test]
fn test_pipeline_forward_exact() {
    let mut store = RouteTableStore::new();
    store.apply(vec![def(&["GET"], "/v1/test", "/target", &["https://up.example"])]);
    match handle_request(&store, "GET", "/v1/test", 7) {
        RequestOutcome::Forward(plan) => {
            assert_eq!(plan.outbound_uri, "https://up.example/target");
            assert_eq!(plan.route.target_servers[0], "https://up.example");
            assert_eq!(plan.route.target_path, "/target");
            assert_eq!(plan.metric.id, 7);
            assert_eq!(plan.metric.request_size, 0);
            assert_eq!(plan.metric.response_size, 0);
            assert!(!plan.metric.finalized);
        }
        RequestOutcome::NotFound(_) => panic!("expected a forward"),
    }
}

#[test]
fn test_pipeline_not_found() {
    let mut store = RouteTableStore::new();
    store.apply(vec![def(&["GET"], "/v1/test", "/target", &["https://up.example"])]);
    match handle_request(&store, "POST", "/v1/test", 8) {
        RequestOutcome::NotFound(resp) => {
            assert_eq!(resp.status, 404);
            assert_eq!(
                header_value(&resp, "access-control-allow-origin"),
                Some(String::from("*"))
            );
            assert_eq!(
                header_value(&resp, "access-control-allow-headers"),
                Some(String::from("*"))
            );
            assert_eq!(
                header_value(&resp, "access-control-allow-methods"),
                Some(String::from("*"))
            );
        }
        RequestOutcome::Forward(_) => panic!("expected a short-circuit"),
    }
}

#[test]
fn test_pipeline_forward_prefix() {
    let mut store = RouteTableStore::new();
    store.apply(vec![def(
        &["GET", "POST"],
        "/v2/naver/*",
        "/",
        &["http://www.naver.com"],
    )]);
    match handle_request(&store, "GET", "/v2/naver/favicon.ico", 9) {
        RequestOutcome::Forward(plan) => {
            assert_eq!(plan.outbound_uri, "http://www.naver.com/favicon.ico");
        }
        RequestOutcome::NotFound(_) => panic!("expected a forward"),
    }
}

#[test]
fn test_complete_response_upstream() {
    let upstream = ResponseHead {
        status: 200,
        headers: vec![HeaderField {
            name: String::from("content-type"),
            value: String::from("application/json"),
        }],
    };
    let resp = complete_response(Ok(upstream));
    assert_eq!(resp.status, 200);
    assert_eq!(
        header_value(&resp, "content-type"),
        Some(String::from("application/json"))
    );
    assert_eq!(
        header_value(&resp, "access-control-allow-origin"),
        Some(String::from("*"))
    );
}

#[test]
fn test_complete_response_bad_gateway() {
    let resp = complete_response(Err(String::from("connection refused")));
    assert_eq!(resp.status, 502);
    assert_eq!(
        header_value(&resp, "access-control-allow-methods"),
        Some(String::from("*"))
    );
}

#[test]
fn test_cors_replaces_existing_header() {
    let upstream = ResponseHead {
        status: 204,
        headers: vec![HeaderField {
            name: String::from("access-control-allow-origin"),
            value: String::from("http://narrow.example"),
        }],
    };
    let resp = complete_response(Ok(upstream));
    assert_eq!(
        header_value(&resp, "access-control-allow-origin"),
        Some(String::from("*"))
    );
    let occurrences = resp
        .headers
        .iter()
        .filter(|h| h.name == "access-control-allow-origin")
        .count();
    assert_eq!(occurrences, 1);
}

#[test]
fn test_set_header_last_value_wins() {
    let mut resp = ResponseHead { status: 200, headers: Vec::new() };
    resp.set_header("x-a", "1");
    resp.set_header("x-a", "2");
    assert_eq!(header_value(&resp, "x-a"), Some(String::from("2")));
    assert_eq!(resp.headers.len(), 1);
}

#[test]
fn test_metric_one_record_per_request() {
    let mut metric = Metric::new(42);
    metric.record_request_chunk(10);
    metric.record_response_chunk(300);
    metric.record_response_chunk(20);
    let record = metric.finalize();
    assert!(record.is_some());
    let record = record.unwrap();
    assert_eq!(record.id, 42);
    assert_eq!(record.request_size, 10);
    assert_eq!(record.response_size, 320);
    assert!(metric.finalize().is_none());
    metric.record_response_chunk(5);
    assert!(metric.finalize().is_none());
}

#[test]
fn test_response_body_finish_on_abandonment() {
    let metric = Metric::new(1);
    let mut body = AccessLogResponseBody::new((), metric);
    body.record_chunk(100);
    let record = body.finish().expect("first teardown emits the record");
    assert_eq!(record.response_size, 100);
    assert!(body.finish().is_none());
}

#[test]
fn test_request_body_counter_saturates() {
    let mut body = AccessLogRequestBody::new(());
    body.record_chunk(u64::MAX - 1);
    body.record_chunk(5);
    assert_eq!(body.request_size, u64::MAX);
}

#[test]
fn test_access_log_begin() {
    let stage = AccessLog::new(ProxyService);
    let (body, metric) = stage.begin(3, ());
    assert_eq!(body.request_size, 0);
    assert_eq!(metric.id, 3);
    assert!(!metric.finalized);
}

#[test]
fn test_layer_wiring() {
    let log_layer = AccessLogLayer::new();
    let log_stage = log_layer.layer(ProxyService);
    let route_layer = RouteLayer::new(dummy_route());
    let route_stage = route_layer.layer(log_stage);
    let cors_stage = CorsLayer.layer(route_stage);
    assert_eq!(cors_stage.inner.route.target_servers[0], "https://httpbin.org");
    assert_eq!(cors_stage.inner.route.target_path, "");
}

#[test]
fn test_outbound_target_of_dummy_route() {
    let route = dummy_route();
    let uri = ProxyService.outbound_target(&route);
    assert_eq!(uri, "https://httpbin.org");
}

#[test]
fn test_signal_in_rage() {
    assert_eq!(signal_in_rage("stop"), Ok(String::from("stop")));
    assert_eq!(signal_in_rage("reload"), Ok(String::from("reload")));
    assert_eq!(
        signal_in_rage("restart"),
        Err(String::from("Invalid signal option"))
    );
}

#[test]
fn test_register_identity_fallbacks() {
    let (engine, group) = register_identity(None, None, String::from("host-1"));
    assert_eq!(engine, "host-1");
    assert_eq!(group, "");
    let (engine, group) = register_identity(
        Some(String::from("engine-a")),
        Some(String::from("group-b")),
        String::from("host-1"),
    );
    assert_eq!(engine, "engine-a");
    assert_eq!(group, "group-b");
}

#[test]
fn test_process_register_response_message() {
    let mut store = RouteTableStore::new();
    let info = RegisterResponse {
        api: vec![def(&["GET"], "/v1/test", "/target", &["http://up"])],
        config: config_sample(),
        id: String::from("engine-7"),
    };
    process_register_response_message(&mut store, info);
    assert!(store.find_api_by_reqline("GET", "/v1/test").is_some());
}

#[test]
fn test_process_admin_message_actions() {
    let mut store = RouteTableStore::new();
    process_admin_message(
        &mut store,
        PollResponse {
            action: String::from("api"),
            api: vec![def(&["GET"], "/v1/test", "/target", &["http://up"])],
        },
    );
    assert!(store.find_api_by_reqline("GET", "/v1/test").is_some());
    process_admin_message(
        &mut store,
        PollResponse {
            action: String::from("config"),
            api: vec![def(&["GET"], "/other", "/target", &["http://up"])],
        },
    );
    assert!(store.find_api_by_reqline("GET", "/v1/test").is_some());
    assert!(store.find_api_by_reqline("GET", "/other").is_none());
}
