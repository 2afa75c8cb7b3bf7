//! The HTTP surface: which paths the server answers, and what each route
//! replies for a given lifecycle state.

use crate::lifecycle::{
    LifecycleEvent, LifecycleState, LifecycleView, apply_events, lemma_ready_after_events,
};
use vstd::prelude::*;
use vstd::string::StringExecFns;

verus! {

/// The service's name in every body and metric label.
pub const SERVICE_NAME: &'static str = "flags-2-env-api-server";

/// The product surface this server belongs to.
pub const SERVICE_SURFACE: &'static str = "product-api";

/// The lifecycle contract the server implements.
pub const CONTRACT_VERSION: &'static str = "ores.service-lifecycle/v1";

/// Content type of the metrics exposition.
pub const METRICS_CONTENT_TYPE: &'static str = "text/plain; version=0.0.4; charset=utf-8";

/// The cache directive that operational replies carry.
pub const NO_STORE: &'static str = "no-store";

/// HTTP 200.
pub const STATUS_OK: u16 = 200;

/// HTTP 503.
pub const STATUS_SERVICE_UNAVAILABLE: u16 = 503;

/// A route of the server, one per path.
#[derive(Clone, Copy, Debug, PartialEq, Eq, Structural)]
pub enum Route {
    Root,
    Catalog,
    Healthz,
    Livez,
    Readyz,
    Startupz,
    Version,
    Metrics,
}

/// The path each route is served at.
pub open spec fn route_path(route: Route) -> Seq<char> {
    match route {
        Route::Root => "/"@,
        Route::Catalog => "/v1/catalog"@,
        Route::Healthz => "/healthz"@,
        Route::Livez => "/livez"@,
        Route::Readyz => "/readyz"@,
        Route::Startupz => "/startupz"@,
        Route::Version => "/version"@,
        Route::Metrics => "/metrics"@,
    }
}

/// Every route, in the order the router registers them.
pub open spec fn all_routes() -> Seq<Route> {
    seq![
        Route::Root,
        Route::Catalog,
        Route::Healthz,
        Route::Livez,
        Route::Readyz,
        Route::Startupz,
        Route::Version,
        Route::Metrics,
    ]
}

/// The route whose path in the route table is `path`, if any.
pub open spec fn route_at(path: Seq<char>) -> Option<Route> {
    if path == "/"@ {
        Some(Route::Root)
    } else if path == "/v1/catalog"@ {
        Some(Route::Catalog)
    } else if path == "/healthz"@ {
        Some(Route::Healthz)
    } else if path == "/livez"@ {
        Some(Route::Livez)
    } else if path == "/readyz"@ {
        Some(Route::Readyz)
    } else if path == "/startupz"@ {
        Some(Route::Startupz)
    } else if path == "/version"@ {
        Some(Route::Version)
    } else if path == "/metrics"@ {
        Some(Route::Metrics)
    } else {
        None
    }
}

impl Route {
    /// The path this route is served at.
    pub fn path(&self) -> (path: &'static str)
        ensures
            path@ == route_path(*self),
    {
        match self {
            Route::Root => "/",
            Route::Catalog => "/v1/catalog",
            Route::Healthz => "/healthz",
            Route::Livez => "/livez",
            Route::Readyz => "/readyz",
            Route::Startupz => "/startupz",
            Route::Version => "/version",
            Route::Metrics => "/metrics",
        }
    }
}

/// Whether two texts are equal.
fn same_text(a: &str, b: &str) -> (same: bool)
    ensures
        same == (a@ == b@),
{
    a.to_owned() == b.to_owned()
}

/// The routes the server registers, in order.
pub fn router() -> (routes: Vec<Route>)
    ensures
        routes@ == all_routes(),
{
    let routes = vec![
        Route::Root,
        Route::Catalog,
        Route::Healthz,
        Route::Livez,
        Route::Readyz,
        Route::Startupz,
        Route::Version,
        Route::Metrics,
    ];
    assert(routes@ =~= all_routes());
    routes
}

/// Looks a path up in the route table: the route registered at exactly
/// that path, or `None` where the table holds no such path. (The running
/// server's dispatch is its HTTP framework's, over the paths of `router`.)
pub fn route_for_path(path: &str) -> (route: Option<Route>)
    ensures
        route == route_at(path@),
        route matches Some(r) ==> path@ == route_path(r),
{
    if same_text(path, "/") {
        Some(Route::Root)
    } else if same_text(path, "/v1/catalog") {
        Some(Route::Catalog)
    } else if same_text(path, "/healthz") {
        Some(Route::Healthz)
    } else if same_text(path, "/livez") {
        Some(Route::Livez)
    } else if same_text(path, "/readyz") {
        Some(Route::Readyz)
    } else if same_text(path, "/startupz") {
        Some(Route::Startupz)
    } else if same_text(path, "/version") {
        Some(Route::Version)
    } else if same_text(path, "/metrics") {
        Some(Route::Metrics)
    } else {
        None
    }
}

/// The body of the root endpoint.
#[derive(Clone, Copy, Debug)]
pub struct RootBody {
    pub service: &'static str,
    pub surface: &'static str,
    pub status: &'static str,
}

/// The body of a lifecycle probe.
#[derive(Clone, Debug)]
pub struct ProbeBody {
    pub schema_version: &'static str,
    pub status: &'static str,
    pub service: &'static str,
    pub surface: &'static str,
    pub revision: String,
}

/// The body of the version endpoint.
#[derive(Clone, Debug)]
pub struct VersionBody {
    pub schema_version: &'static str,
    pub service: &'static str,
    pub surface: &'static str,
    pub package_version: &'static str,
    pub revision: String,
    pub git_sha: Option<&'static str>,
    pub contract_version: &'static str,
}

/// What the build recorded about itself.
#[derive(Clone, Copy, Debug)]
pub struct BuildInfo {
    pub package_version: &'static str,
    /// The commit named by `GIT_SHA` at build time.
    pub git_sha: Option<&'static str>,
    /// The commit named by `GITHUB_SHA` at build time.
    pub github_sha: Option<&'static str>,
}

/// The content of a reply, before it is encoded.
#[derive(Clone, Debug)]
pub enum ReplyBody {
    /// JSON: the root document.
    Root(RootBody),
    /// JSON: the product catalog.
    Catalog,
    /// JSON: a lifecycle probe.
    Probe(ProbeBody),
    /// JSON: the version document.
    Version(VersionBody),
    /// Plain text: the metrics exposition.
    Metrics(String),
}

/// A reply: status code, the headers the server sets itself, and the body.
#[derive(Clone, Debug)]
pub struct Reply {
    pub status: u16,
    /// Whether the reply carries `Cache-Control: no-store`.
    pub no_store: bool,
    /// A content type set explicitly; JSON bodies get theirs from the encoder.
    pub content_type: Option<&'static str>,
    pub body: ReplyBody,
}

/// `reply` is a lifecycle probe with this status code, schema and status.
pub open spec fn is_probe_reply(
    reply: Reply,
    status: u16,
    schema_version: Seq<char>,
    probe_status: Seq<char>,
    revision: Seq<char>,
) -> bool {
    &&& reply.status == status
    &&& reply.no_store
    &&& reply.content_type is None
    &&& reply.body matches ReplyBody::Probe(body) && {
        &&& body.schema_version@ == schema_version
        &&& body.status@ == probe_status
        &&& body.service@ == SERVICE_NAME@
        &&& body.surface@ == SERVICE_SURFACE@
        &&& body.revision@ == revision
    }
}

/// The root document: 200, not cacheable, the service is online.
pub open spec fn root_reply(reply: Reply) -> bool {
    &&& reply.status == STATUS_OK
    &&& reply.no_store
    &&& reply.content_type is None
    &&& reply.body matches ReplyBody::Root(body) && body.service@ == SERVICE_NAME@
        && body.surface@ == SERVICE_SURFACE@ && body.status@ == "online"@
}

/// The catalog: 200, with no cache directive of the server's own.
pub open spec fn catalog_reply(reply: Reply) -> bool {
    &&& reply.status == STATUS_OK
    &&& !reply.no_store
    &&& reply.content_type is None
    &&& reply.body is Catalog
}

/// Liveness: alive, whatever the lifecycle.
pub open spec fn healthz_reply(reply: Reply, lifecycle: LifecycleView) -> bool {
    is_probe_reply(reply, STATUS_OK, "ores.service-health/v1"@, "alive"@, lifecycle.revision)
}

/// Readiness: ready (200) or not ready (503).
pub open spec fn readyz_reply(reply: Reply, lifecycle: LifecycleView) -> bool {
    if lifecycle.ready() {
        is_probe_reply(
            reply,
            STATUS_OK,
            "ores.service-readiness/v1"@,
            "ready"@,
            lifecycle.revision,
        )
    } else {
        is_probe_reply(
            reply,
            STATUS_SERVICE_UNAVAILABLE,
            "ores.service-readiness/v1"@,
            "not_ready"@,
            lifecycle.revision,
        )
    }
}

/// Startup: started (200) or starting (503).
pub open spec fn startupz_reply(reply: Reply, lifecycle: LifecycleView) -> bool {
    if lifecycle.started {
        is_probe_reply(
            reply,
            STATUS_OK,
            "ores.service-startup/v1"@,
            "started"@,
            lifecycle.revision,
        )
    } else {
        is_probe_reply(
            reply,
            STATUS_SERVICE_UNAVAILABLE,
            "ores.service-startup/v1"@,
            "starting"@,
            lifecycle.revision,
        )
    }
}

/// The version document of this build and revision.
pub open spec fn version_reply(reply: Reply, lifecycle: LifecycleView, build: BuildInfo) -> bool {
    &&& reply.status == STATUS_OK
    &&& reply.no_store
    &&& reply.content_type is None
    &&& reply.body matches ReplyBody::Version(body) && {
        &&& body.schema_version@ == "ores.service-version/v1"@
        &&& body.service@ == SERVICE_NAME@
        &&& body.surface@ == SERVICE_SURFACE@
        &&& body.package_version == build.package_version
        &&& body.revision@ == lifecycle.revision
        &&& body.git_sha == build_commit(build)
        &&& body.contract_version@ == CONTRACT_VERSION@
    }
}

/// The metrics exposition of this lifecycle state.
pub open spec fn metrics_reply(reply: Reply, lifecycle: LifecycleView) -> bool {
    &&& reply.status == STATUS_OK
    &&& reply.no_store
    &&& reply.content_type == Some(METRICS_CONTENT_TYPE)
    &&& reply.body matches ReplyBody::Metrics(text) && text@ == metrics_text(
        lifecycle.ready(),
        lifecycle.started,
    )
}

/// What `route` replies in this lifecycle state, for this build.
pub open spec fn route_reply(
    route: Route,
    reply: Reply,
    lifecycle: LifecycleView,
    build: BuildInfo,
) -> bool {
    match route {
        Route::Root => root_reply(reply),
        Route::Catalog => catalog_reply(reply),
        Route::Healthz => healthz_reply(reply, lifecycle),
        Route::Livez => healthz_reply(reply, lifecycle),
        Route::Readyz => readyz_reply(reply, lifecycle),
        Route::Startupz => startupz_reply(reply, lifecycle),
        Route::Version => version_reply(reply, lifecycle, build),
        Route::Metrics => metrics_reply(reply, lifecycle),
    }
}

/// A lifecycle probe reply with the given status code, schema and status.
pub fn probe_response(
    status_code: u16,
    schema_version: &'static str,
    status: &'static str,
    lifecycle: &LifecycleState,
) -> (reply: Reply)
    ensures
        is_probe_reply(reply, status_code, schema_version@, status@, lifecycle@.revision),
{
    Reply {
        status: status_code,
        no_store: true,
        content_type: None,
        body: ReplyBody::Probe(
            ProbeBody {
                schema_version,
                status,
                service: SERVICE_NAME,
                surface: SERVICE_SURFACE,
                revision: lifecycle.revision().to_owned(),
            },
        ),
    }
}

/// The root document: the service is online.
pub fn root() -> (reply: Reply)
    ensures
        root_reply(reply),
{
    Reply {
        status: STATUS_OK,
        no_store: true,
        content_type: None,
        body: ReplyBody::Root(
            RootBody { service: SERVICE_NAME, surface: SERVICE_SURFACE, status: "online" },
        ),
    }
}

/// The product catalog, served as it always was: 200, with no cache
/// directive of the server's own.
pub fn catalog() -> (reply: Reply)
    ensures
        catalog_reply(reply),
{
    Reply { status: STATUS_OK, no_store: false, content_type: None, body: ReplyBody::Catalog }
}

/// Liveness: alive whenever the process answers, whatever the lifecycle.
pub fn healthz(lifecycle: &LifecycleState) -> (reply: Reply)
    ensures
        healthz_reply(reply, lifecycle@),
{
    probe_response(STATUS_OK, "ores.service-health/v1", "alive", lifecycle)
}

/// Readiness: 200 while the service accepts traffic, 503 otherwise.
pub fn readyz(lifecycle: &LifecycleState) -> (reply: Reply)
    ensures
        readyz_reply(reply, lifecycle@),
{
    if lifecycle.is_ready() {
        probe_response(STATUS_OK, "ores.service-readiness/v1", "ready", lifecycle)
    } else {
        probe_response(
            STATUS_SERVICE_UNAVAILABLE,
            "ores.service-readiness/v1",
            "not_ready",
            lifecycle,
        )
    }
}

/// Startup: 200 once startup completed, 503 before.
pub fn startupz(lifecycle: &LifecycleState) -> (reply: Reply)
    ensures
        startupz_reply(reply, lifecycle@),
{
    if lifecycle.is_started() {
        probe_response(STATUS_OK, "ores.service-startup/v1", "started", lifecycle)
    } else {
        probe_response(
            STATUS_SERVICE_UNAVAILABLE,
            "ores.service-startup/v1",
            "starting",
            lifecycle,
        )
    }
}

/// The commit a build names: `GIT_SHA`, else `GITHUB_SHA`.
pub open spec fn build_commit(build: BuildInfo) -> Option<&'static str> {
    match build.git_sha {
        Some(sha) => Some(sha),
        None => build.github_sha,
    }
}

/// The version document.
pub fn version(lifecycle: &LifecycleState, build: BuildInfo) -> (reply: Reply)
    ensures
        version_reply(reply, lifecycle@, build),
        reply.body matches ReplyBody::Version(body) && (match build.git_sha {
            Some(_) => body.git_sha == build.git_sha,
            None => body.git_sha == build.github_sha,
        }),
{
    let git_sha = match build.git_sha {
        Some(sha) => Some(sha),
        None => build.github_sha,
    };
    Reply {
        status: STATUS_OK,
        no_store: true,
        content_type: None,
        body: ReplyBody::Version(
            VersionBody {
                schema_version: "ores.service-version/v1",
                service: SERVICE_NAME,
                surface: SERVICE_SURFACE,
                package_version: build.package_version,
                revision: lifecycle.revision().to_owned(),
                git_sha,
                contract_version: CONTRACT_VERSION,
            },
        ),
    }
}

/// A gauge's value for a flag.
pub open spec fn gauge(flag: bool) -> Seq<char> {
    if flag {
        "1"@
    } else {
        "0"@
    }
}

/// One labelled gauge sample, ending the line.
pub open spec fn gauge_sample(metric: Seq<char>, flag: bool) -> Seq<char> {
    metric + "{service=\""@ + SERVICE_NAME@ + "\",surface=\""@ + SERVICE_SURFACE@ + "\"} "@
        + gauge(flag) + "\n"@
}

/// The metrics exposition for a readiness and a startup flag.
pub open spec fn metrics_text(ready: bool, started: bool) -> Seq<char> {
    "# HELP ores_service_ready Whether the service is accepting traffic.\n"@
        + "# TYPE ores_service_ready gauge\n"@
        + gauge_sample("ores_service_ready"@, ready)
        + "# HELP ores_service_started Whether startup completed.\n"@
        + "# TYPE ores_service_started gauge\n"@
        + gauge_sample("ores_service_started"@, started)
}

/// Appends one labelled gauge sample.
fn push_gauge_sample(text: &mut String, metric: &str, flag: bool)
    ensures
        final(text)@ == old(text)@ + gauge_sample(metric@, flag),
{
    text.append(metric);
    text.append("{service=\"");
    text.append(SERVICE_NAME);
    text.append("\",surface=\"");
    text.append(SERVICE_SURFACE);
    text.append("\"} ");
    if flag {
        text.append("1");
    } else {
        text.append("0");
    }
    text.append("\n");
    assert(final(text)@ =~= old(text)@ + gauge_sample(metric@, flag));
}

/// The metrics exposition: one gauge for readiness, one for startup.
pub fn metrics(lifecycle: &LifecycleState) -> (reply: Reply)
    ensures
        metrics_reply(reply, lifecycle@),
{
    let mut text = "# HELP ores_service_ready Whether the service is accepting traffic.\n".to_owned();
    text.append("# TYPE ores_service_ready gauge\n");
    push_gauge_sample(&mut text, "ores_service_ready", lifecycle.is_ready());
    text.append("# HELP ores_service_started Whether startup completed.\n");
    text.append("# TYPE ores_service_started gauge\n");
    push_gauge_sample(&mut text, "ores_service_started", lifecycle.is_started());
    assert(text@ =~= metrics_text(lifecycle@.ready(), lifecycle@.started));
    Reply {
        status: STATUS_OK,
        no_store: true,
        content_type: Some(METRICS_CONTENT_TYPE),
        body: ReplyBody::Metrics(text),
    }
}

/// Answers a request that the router resolved to `route`.
pub fn respond(route: Route, lifecycle: &LifecycleState, build: BuildInfo) -> (reply: Reply)
    ensures
        route_reply(route, reply, lifecycle@, build),
{
    match route {
        Route::Root => root(),
        Route::Catalog => catalog(),
        Route::Healthz => healthz(lifecycle),
        Route::Livez => healthz(lifecycle),
        Route::Readyz => readyz(lifecycle),
        Route::Startupz => startupz(lifecycle),
        Route::Version => version(lifecycle, build),
        Route::Metrics => metrics(lifecycle),
    }
}

/// Each route is found again at its own path, so no two routes share a
/// path: liveness, readiness and startup probes are separate endpoints.
pub proof fn lemma_route_paths_resolve(route: Route)
    ensures
        route_at(route_path(route)) == Some(route),
        all_routes().contains(route),
{
    reveal_strlit("/");
    reveal_strlit("/v1/catalog");
    reveal_strlit("/healthz");
    reveal_strlit("/livez");
    reveal_strlit("/readyz");
    reveal_strlit("/startupz");
    reveal_strlit("/version");
    reveal_strlit("/metrics");
    assert("/"@.len() == 1);
    assert("/v1/catalog"@.len() == 11);
    assert("/healthz"@.len() == 8 && "/healthz"@[1] == 'h');
    assert("/livez"@.len() == 6);
    assert("/readyz"@.len() == 7);
    assert("/startupz"@.len() == 9);
    assert("/version"@.len() == 8 && "/version"@[1] == 'v');
    assert("/metrics"@.len() == 8 && "/metrics"@[1] == 'm');
    assert(route_at("/"@) == Some(Route::Root));
    assert(route_at("/v1/catalog"@) == Some(Route::Catalog));
    assert(route_at("/healthz"@) == Some(Route::Healthz));
    assert(route_at("/livez"@) == Some(Route::Livez));
    assert(route_at("/readyz"@) == Some(Route::Readyz));
    assert(route_at("/startupz"@) == Some(Route::Startupz));
    assert(route_at("/version"@) == Some(Route::Version));
    assert(route_at("/metrics"@) == Some(Route::Metrics));
    assert(all_routes().contains(route)) by {
        let i: int = match route {
            Route::Root => 0,
            Route::Catalog => 1,
            Route::Healthz => 2,
            Route::Livez => 3,
            Route::Readyz => 4,
            Route::Startupz => 5,
            Route::Version => 6,
            Route::Metrics => 7,
        };
        assert(all_routes()[i] == route);
    }
}

/// Liveness never depends on the lifecycle, readiness and startup each
/// answer 200 exactly when their condition holds and 503 otherwise, and
/// every operational reply (all but the catalog) is marked `no-store`; the
/// catalog answers the same in every lifecycle state.
pub proof fn lemma_route_reply_properties(
    route: Route,
    reply: Reply,
    lifecycle: LifecycleView,
    build: BuildInfo,
)
    requires
        route_reply(route, reply, lifecycle, build),
    ensures
        (route == Route::Healthz || route == Route::Livez) ==> reply.status == STATUS_OK,
        route == Route::Readyz ==> (reply.status == STATUS_OK <==> lifecycle.ready()),
        route == Route::Readyz ==> (reply.status == STATUS_SERVICE_UNAVAILABLE <==> !lifecycle.ready()),
        route == Route::Startupz ==> (reply.status == STATUS_OK <==> lifecycle.started),
        route == Route::Startupz ==> (reply.status == STATUS_SERVICE_UNAVAILABLE <==> !lifecycle.started),
        route != Route::Catalog ==> reply.no_store,
        route == Route::Catalog ==> reply.status == STATUS_OK && !reply.no_store
            && reply.content_type is None && reply.body is Catalog,
{
}

/// A service that answers readiness with 200 also answers startup with 200.
pub proof fn lemma_ready_reply_implies_started_reply(
    ready_reply: Reply,
    startup_reply: Reply,
    lifecycle: LifecycleView,
)
    requires
        readyz_reply(ready_reply, lifecycle),
        startupz_reply(startup_reply, lifecycle),
        ready_reply.status == STATUS_OK,
    ensures
        startup_reply.status == STATUS_OK,
{
}

/// Once a drain has begun, readiness answers 503 whatever lifecycle events
/// follow, while liveness still answers 200.
pub proof fn lemma_drain_fails_readiness_closed(
    lifecycle: LifecycleView,
    events: Seq<LifecycleEvent>,
    ready_reply: Reply,
    health_reply: Reply,
)
    requires
        lifecycle.draining || events.contains(LifecycleEvent::DrainBegun),
        readyz_reply(ready_reply, apply_events(lifecycle, events)),
        healthz_reply(health_reply, apply_events(lifecycle, events)),
    ensures
        ready_reply.status == STATUS_SERVICE_UNAVAILABLE,
        health_reply.status == STATUS_OK,
{
    lemma_ready_after_events(lifecycle, events);
}

/// A path resolves only to the route registered at exactly that path, and
/// every registered path resolves to its route: no path outside the route
/// table (a trailing slash, another case, a prefix) finds a route.
pub proof fn lemma_route_lookup_is_exact(path: Seq<char>)
    ensures
        route_at(path) matches Some(route) ==> path == route_path(route),
        forall|route: Route| path == route_path(route) ==> route_at(path) == Some(route),
        route_at(path) is None <==> forall|route: Route| path != route_path(route),
{
    assert forall|route: Route| path == route_path(route) implies route_at(path) == Some(route) by {
        lemma_route_paths_resolve(route);
    }
    if let Some(route) = route_at(path) {
        assert(path == route_path(route));
    }
}

/// The readiness body names the state that its status code reports: its
/// status is "ready" exactly when the service is started and not draining,
/// and "not_ready" otherwise, in particular whenever the code is 503. The
/// schema is the readiness schema and the revision the lifecycle's.
pub proof fn lemma_readiness_body_matches_state(reply: Reply, lifecycle: LifecycleView)
    requires
        readyz_reply(reply, lifecycle),
    ensures
        reply.body matches ReplyBody::Probe(body) && {
            &&& (body.status@ == "ready"@ <==> lifecycle.started && !lifecycle.draining)
            &&& (body.status@ == "not_ready"@ <==> !(lifecycle.started && !lifecycle.draining))
            &&& (reply.status == STATUS_SERVICE_UNAVAILABLE ==> body.status@ == "not_ready"@)
            &&& (reply.status == STATUS_OK ==> body.status@ == "ready"@)
            &&& body.schema_version@ == "ores.service-readiness/v1"@
            &&& body.revision@ == lifecycle.revision
        },
        reply.status == STATUS_OK || reply.status == STATUS_SERVICE_UNAVAILABLE,
        reply.status == STATUS_OK <==> lifecycle.started && !lifecycle.draining,
{
    reveal_strlit("ready");
    reveal_strlit("not_ready");
    assert("ready"@.len() == 5);
    assert("not_ready"@.len() == 9);
}

/// The startup body names the state that its status code reports: its
/// status is "started" exactly when startup completed, and "starting"
/// otherwise, in particular whenever the code is 503.
pub proof fn lemma_startup_body_matches_state(reply: Reply, lifecycle: LifecycleView)
    requires
        startupz_reply(reply, lifecycle),
    ensures
        reply.body matches ReplyBody::Probe(body) && {
            &&& (body.status@ == "started"@ <==> lifecycle.started)
            &&& (body.status@ == "starting"@ <==> !lifecycle.started)
            &&& (reply.status == STATUS_SERVICE_UNAVAILABLE ==> body.status@ == "starting"@)
            &&& (reply.status == STATUS_OK ==> body.status@ == "started"@)
            &&& body.schema_version@ == "ores.service-startup/v1"@
            &&& body.revision@ == lifecycle.revision
        },
        reply.status == STATUS_OK || reply.status == STATUS_SERVICE_UNAVAILABLE,
        reply.status == STATUS_OK <==> lifecycle.started,
{
    reveal_strlit("started");
    reveal_strlit("starting");
    assert("started"@.len() == 7);
    assert("starting"@.len() == 8);
}

/// Liveness answers 200 "alive" under the health schema in every lifecycle
/// state, for both of its paths.
pub proof fn lemma_liveness_is_unconditional(
    route: Route,
    reply: Reply,
    lifecycle: LifecycleView,
    build: BuildInfo,
)
    requires
        route == Route::Healthz || route == Route::Livez,
        route_reply(route, reply, lifecycle, build),
    ensures
        reply.status == STATUS_OK,
        reply.no_store,
        reply.body matches ReplyBody::Probe(body) && body.status@ == "alive"@
            && body.schema_version@ == "ores.service-health/v1"@ && body.revision@
            == lifecycle.revision,
{
}

/// The version document names the build's commit: `GIT_SHA` whenever the
/// build recorded it, and `GITHUB_SHA` (which may be absent) otherwise. It
/// also names the build's package version, the lifecycle's revision and the
/// lifecycle contract.
pub proof fn lemma_version_names_the_build(reply: Reply, lifecycle: LifecycleView, build: BuildInfo)
    requires
        version_reply(reply, lifecycle, build),
    ensures
        reply.body matches ReplyBody::Version(body) && {
            &&& (build.git_sha is Some ==> body.git_sha == build.git_sha)
            &&& (build.git_sha is None ==> body.git_sha == build.github_sha)
            &&& (body.git_sha is None <==> build.git_sha is None && build.github_sha is None)
            &&& body.package_version == build.package_version
            &&& body.revision@ == lifecycle.revision
            &&& body.contract_version@ == "ores.service-lifecycle/v1"@
        },
        reply.status == STATUS_OK,
        reply.no_store,
{
}

} // verus!
