use flags_2_env_api_server::lifecycle::LifecycleState;
use flags_2_env_api_server::surface::{
    respond, route_for_path, router, BuildInfo, Reply, ReplyBody, Route, METRICS_CONTENT_TYPE, NO_STORE,
    SERVICE_NAME, SERVICE_SURFACE, STATUS_OK, STATUS_SERVICE_UNAVAILABLE,
};

fn build() -> BuildInfo {
    BuildInfo { package_version: "0.1.0", git_sha: None, github_sha: None }
}

fn response(lifecycle: &LifecycleState, path: &str) -> Reply {
    respond(route_for_path(path).expect("route"), lifecycle, build())
}

#[test]
fn lifecycle_routes_are_separate_and_fail_closed() {
    let mut lifecycle = LifecycleState::new("test");
    assert_eq!(response(&lifecycle, "/healthz").status, STATUS_OK);
    assert_eq!(response(&lifecycle, "/readyz").status, STATUS_SERVICE_UNAVAILABLE);
    assert_eq!(response(&lifecycle, "/startupz").status, STATUS_SERVICE_UNAVAILABLE);
    lifecycle.mark_started();
    assert_eq!(response(&lifecycle, "/readyz").status, STATUS_OK);
    assert_eq!(response(&lifecycle, "/startupz").status, STATUS_OK);
    lifecycle.begin_drain();
    assert_eq!(response(&lifecycle, "/readyz").status, STATUS_SERVICE_UNAVAILABLE);
}

#[test]
fn operational_responses_are_not_cacheable() {
    let lifecycle = LifecycleState::new("test");
    let reply = response(&lifecycle, "/healthz");
    assert!(reply.no_store);
    assert_eq!(NO_STORE, "no-store");
}

#[test]
fn catalog_route_preserves_the_existing_contract() {
    let lifecycle = LifecycleState::new("test");
    assert_eq!(response(&lifecycle, "/v1/catalog").status, STATUS_OK);
}

#[test]
fn every_operational_route_is_not_cacheable() {
    let lifecycle = LifecycleState::new("r1");
    for path in ["/", "/healthz", "/livez", "/readyz", "/startupz", "/version", "/metrics"] {
        assert!(response(&lifecycle, path).no_store, "{path}");
    }
    assert!(!response(&lifecycle, "/v1/catalog").no_store);
}

#[test]
fn router_registers_every_path_once() {
    let routes = router();
    assert_eq!(routes.len(), 8);
    let paths: Vec<&str> = routes.iter().map(|r| r.path()).collect();
    assert_eq!(
        paths,
        vec!["/", "/v1/catalog", "/healthz", "/livez", "/readyz", "/startupz", "/version", "/metrics"]
    );
    for route in routes {
        assert_eq!(route_for_path(route.path()), Some(route));
    }
}

#[test]
fn unknown_paths_have_no_route() {
    assert_eq!(route_for_path("/nope"), None);
    assert_eq!(route_for_path(""), None);
    assert_eq!(route_for_path("/healthz/"), None);
    assert_eq!(route_for_path("/HEALTHZ"), None);
}

#[test]
fn livez_answers_like_healthz_in_every_state() {
    let mut lifecycle = LifecycleState::new("r2");
    for step in 0..3 {
        if step == 1 {
            lifecycle.mark_started();
        }
        if step == 2 {
            lifecycle.begin_drain();
        }
        let health = response(&lifecycle, "/healthz");
        let live = response(&lifecycle, "/livez");
        assert_eq!(health.status, STATUS_OK);
        assert_eq!(live.status, STATUS_OK);
        match (health.body, live.body) {
            (ReplyBody::Probe(a), ReplyBody::Probe(b)) => {
                assert_eq!(a.status, "alive");
                assert_eq!(b.status, "alive");
                assert_eq!(a.schema_version, "ores.service-health/v1");
                assert_eq!(a.revision, "r2");
            }
            _ => panic!("probe bodies expected"),
        }
    }
}

#[test]
fn probe_bodies_name_schema_status_and_revision() {
    let mut lifecycle = LifecycleState::new("abc123");
    match response(&lifecycle, "/readyz").body {
        ReplyBody::Probe(body) => {
            assert_eq!(body.schema_version, "ores.service-readiness/v1");
            assert_eq!(body.status, "not_ready");
            assert_eq!(body.service, SERVICE_NAME);
            assert_eq!(body.surface, SERVICE_SURFACE);
            assert_eq!(body.revision, "abc123");
        }
        _ => panic!("probe body expected"),
    }
    match response(&lifecycle, "/startupz").body {
        ReplyBody::Probe(body) => {
            assert_eq!(body.schema_version, "ores.service-startup/v1");
            assert_eq!(body.status, "starting");
        }
        _ => panic!("probe body expected"),
    }
    lifecycle.mark_started();
    match response(&lifecycle, "/readyz").body {
        ReplyBody::Probe(body) => assert_eq!(body.status, "ready"),
        _ => panic!("probe body expected"),
    }
    match response(&lifecycle, "/startupz").body {
        ReplyBody::Probe(body) => assert_eq!(body.status, "started"),
        _ => panic!("probe body expected"),
    }
}

#[test]
fn readiness_stays_down_after_a_drain() {
    let mut lifecycle = LifecycleState::new("r");
    lifecycle.begin_drain();
    lifecycle.mark_started();
    assert_eq!(response(&lifecycle, "/readyz").status, STATUS_SERVICE_UNAVAILABLE);
    assert_eq!(response(&lifecycle, "/startupz").status, STATUS_OK);
    assert_eq!(response(&lifecycle, "/healthz").status, STATUS_OK);
}

#[test]
fn root_document_says_online() {
    let lifecycle = LifecycleState::new("r");
    let reply = response(&lifecycle, "/");
    assert_eq!(reply.status, STATUS_OK);
    assert_eq!(reply.content_type, None);
    match reply.body {
        ReplyBody::Root(body) => {
            assert_eq!(body.service, "flags-2-env-api-server");
            assert_eq!(body.surface, "product-api");
            assert_eq!(body.status, "online");
        }
        _ => panic!("root body expected"),
    }
}

#[test]
fn version_document_prefers_git_sha_over_github_sha() {
    let lifecycle = LifecycleState::new("rev-9");
    let with_both = BuildInfo { package_version: "1.2.3", git_sha: Some("aaa"), github_sha: Some("bbb") };
    let only_github = BuildInfo { package_version: "1.2.3", git_sha: None, github_sha: Some("bbb") };
    let neither = BuildInfo { package_version: "1.2.3", git_sha: None, github_sha: None };
    let sha = |build: BuildInfo| match respond(Route::Version, &lifecycle, build).body {
        ReplyBody::Version(body) => {
            assert_eq!(body.schema_version, "ores.service-version/v1");
            assert_eq!(body.package_version, "1.2.3");
            assert_eq!(body.revision, "rev-9");
            assert_eq!(body.contract_version, "ores.service-lifecycle/v1");
            body.git_sha
        }
        _ => panic!("version body expected"),
    };
    assert_eq!(sha(with_both), Some("aaa"));
    assert_eq!(sha(only_github), Some("bbb"));
    assert_eq!(sha(neither), None);
}

fn metrics_text(lifecycle: &LifecycleState) -> String {
    let reply = response(lifecycle, "/metrics");
    assert_eq!(reply.status, STATUS_OK);
    assert_eq!(reply.content_type, Some(METRICS_CONTENT_TYPE));
    assert_eq!(METRICS_CONTENT_TYPE, "text/plain; version=0.0.4; charset=utf-8");
    match reply.body {
        ReplyBody::Metrics(text) => text,
        _ => panic!("metrics body expected"),
    }
}

#[test]
fn metrics_report_readiness_and_startup_gauges() {
    let mut lifecycle = LifecycleState::new("r");
    let expected = |ready: u8, started: u8| {
        let mut text = String::new();
        text.push_str("# HELP ores_service_ready Whether the service is accepting traffic.\n");
        text.push_str("# TYPE ores_service_ready gauge\n");
        text.push_str(&format!(
            "ores_service_ready{{service=\"flags-2-env-api-server\",surface=\"product-api\"}} {ready}\n"
        ));
        text.push_str("# HELP ores_service_started Whether startup completed.\n");
        text.push_str("# TYPE ores_service_started gauge\n");
        text.push_str(&format!(
            "ores_service_started{{service=\"flags-2-env-api-server\",surface=\"product-api\"}} {started}\n"
        ));
        text
    };
    assert_eq!(metrics_text(&lifecycle), expected(0, 0));
    lifecycle.mark_started();
    assert_eq!(metrics_text(&lifecycle), expected(1, 1));
    lifecycle.begin_drain();
    assert_eq!(metrics_text(&lifecycle), expected(0, 1));
}

#[test]
fn cache_directive_is_no_store() {
    assert_eq!(NO_STORE, "no-store");
}

#[test]
fn catalog_answers_the_same_in_every_state() {
    let mut lifecycle = LifecycleState::new("c");
    for step in 0..3 {
        if step == 1 {
            lifecycle.mark_started();
        }
        if step == 2 {
            lifecycle.begin_drain();
        }
        let reply = response(&lifecycle, "/v1/catalog");
        assert_eq!(reply.status, STATUS_OK);
        assert!(!reply.no_store);
        assert_eq!(reply.content_type, None);
        assert!(matches!(reply.body, ReplyBody::Catalog));
    }
}
