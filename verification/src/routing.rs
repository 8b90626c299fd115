//! The router and the layers around its routes.

use crate::pattern::{compatible, get_on, post_on, well_formed, RouteKey};
use crate::reply::{timeout_reply, unhandled_reply, INTERNAL_SERVER_ERROR, REQUEST_TIMEOUT};
use crate::runtime::keeps_time;
use axum::error_handling::HandleErrorLayer;
use axum::http::StatusCode;
use axum::routing::{get, post, MethodRouter};
use axum::{BoxError, Extension, Router};
use std::future::ready;
use std::time::Duration;
use tokio::runtime::Handle;
use tower::buffer::BufferLayer;
use tower::limit::RateLimitLayer;
use tower::timeout::TimeoutLayer;
use tower::ServiceBuilder;
use tower_http::limit::RequestBodyLimitLayer;
use vstd::prelude::*;

verus! {

/// `axum::Router`: a table of routes.
#[verifier::external_type_specification]
#[verifier::external_body]
#[verifier::reject_recursive_types(S)]
pub struct ExRouter<S>(Router<S>);

/// `axum::routing::MethodRouter`: here a handler, which answers whatever reaches it.
#[verifier::external_type_specification]
#[verifier::external_body]
#[verifier::reject_recursive_types(S)]
#[verifier::reject_recursive_types(E)]
pub struct ExMethodRouter<S, E>(MethodRouter<S, E>);

/// One layer around a route. A request passes the layers from the outermost to the innermost, a
/// response from the innermost to the outermost.
#[derive(Clone, Copy, Debug, PartialEq, Eq, Structural)]
pub enum Layering {
    /// Requests with a body of more than `bytes` bytes are refused.
    BodyLimit { bytes: usize },
    /// A shared value is put at the handler's disposal.
    Extension,
    /// Of the requests that arrive in `seconds` seconds, `requests` are let through; the others
    /// wait.
    RateLimit { requests: u64, seconds: u64 },
    /// Up to `waiting` requests wait in line.
    Buffer { waiting: usize },
    /// What fails below is answered with `status` and the body of `unhandled_reply`.
    AnswerErrors { status: u16 },
    /// A request that takes longer than `seconds` seconds fails.
    Timeout { seconds: u64 },
    /// What fails below is answered with `status`, as `timeout_reply` gives it.
    AnswerTimeouts { status: u16 },
}

/// What stands behind a route: its handler, and the layers around it from the innermost to the
/// outermost.
#[verifier::ext_equal]
pub struct Mount {
    pub handler: MethodRouter,
    pub layers: Seq<Layering>,
}

/// Routes, each with what stands behind it.
pub type RouteTable = Map<RouteKey, Mount>;

/// What a router holds: for each of its routes the handler and the layers.
pub uninterp spec fn routes(router: Router) -> Map<RouteKey, Mount>;

/// What a router does with the requests that none of its routes answers.
pub type RefusalTable = Map<Option<Seq<char>>, Seq<Layering>>;

/// The layers around the refusals of a router, from the innermost to the outermost: at `None` those
/// around the `404 Not Found` of a request that no pattern matches, and for each pattern those
/// around the `405 Method Not Allowed` of a request whose method no route on it answers.
pub uninterp spec fn refusals(router: Router) -> Map<Option<Seq<char>>, Seq<Layering>>;

/// The table without routes.
pub open spec fn no_routes() -> RouteTable {
    Map::empty()
}

/// `table` with `layers` put around each of its routes, the first of them innermost.
pub open spec fn wrapped(table: RouteTable, layers: Seq<Layering>) -> RouteTable {
    table.map_values(|mount: Mount| Mount { handler: mount.handler, layers: mount.layers + layers })
}

/// The refusals of a router without routes.
pub open spec fn only_not_found() -> RefusalTable {
    map![None => Seq::empty()]
}

/// `table` with `layers` put around each refusal, the first of them innermost.
pub open spec fn wrapped_refusals(table: RefusalTable, layers: Seq<Layering>) -> RefusalTable {
    table.map_values(|inner: Seq<Layering>| inner + layers)
}

/// The refusals of a router that has the routes `keys`, where `layers` are around all of them.
pub open spec fn refusals_within(keys: Seq<RouteKey>, layers: Seq<Layering>) -> RefusalTable {
    Map::new(
        |spot: Option<Seq<char>>|
            spot matches Some(path) ==> exists|i: int|
                0 <= i < keys.len() && (#[trigger] keys[i]).path == path,
        |spot: Option<Seq<char>>| layers,
    )
}

/// `key` can be added to `table`.
pub open spec fn admits(table: RouteTable, key: RouteKey) -> bool {
    &&& well_formed(key.path)
    &&& forall|other: RouteKey| #[trigger] table.contains_key(other) ==> compatible(other, key)
}

/// `handler` without any layer around it.
pub open spec fn bare(handler: MethodRouter) -> Mount {
    Mount { handler, layers: Seq::empty() }
}

/// `axum::Router::new` makes a router without routes, which answers `404 Not Found` to every
/// request.
#[verifier::external_body]
pub(crate) fn new_router() -> (r: Router)
    ensures
        routes(r) == no_routes(),
        refusals(r) == only_not_found(),
{
    Router::new()
}

/// `axum::Router::route` with `axum::routing::get` adds a route: `handler` then answers `GET` on
/// `path`, without a layer around it, other methods on `path` are refused without one, and the
/// other routes stay as they were. `axum` panics on a pattern that is not well formed, on one that
/// clashes with a pattern of the router, and on a method that the pattern answers already.
#[verifier::external_body]
pub(crate) fn route_get(router: Router, path: &str, handler: MethodRouter) -> (r: Router)
    requires
        admits(routes(router), get_on(path@)),
    ensures
        routes(r) == routes(router).insert(get_on(path@), bare(handler)),
        refusals(r) == refusals(router).insert(Some(path@), Seq::empty()),
{
    router.route(path, get(handler))
}

/// `axum::Router::route` with `axum::routing::post` adds a route: `handler` then answers `POST`
/// on `path`, without a layer around it, other methods on `path` are refused without one, and the
/// other routes stay as they were. It panics where `route_get` would.
#[verifier::external_body]
pub(crate) fn route_post(router: Router, path: &str, handler: MethodRouter) -> (r: Router)
    requires
        admits(routes(router), post_on(path@)),
    ensures
        routes(r) == routes(router).insert(post_on(path@), bare(handler)),
        refusals(r) == refusals(router).insert(Some(path@), Seq::empty()),
{
    router.route(path, post(handler))
}

/// `axum::Router::layer` with `tower_http::limit::RequestBodyLimitLayer` puts a body limit around
/// every route that the router holds by now, and around its refusals.
#[verifier::external_body]
pub(crate) fn limit_bodies(router: Router, bytes: usize) -> (r: Router)
    ensures
        routes(r) == wrapped(routes(router), seq![Layering::BodyLimit { bytes }]),
        refusals(r) == wrapped_refusals(refusals(router), seq![Layering::BodyLimit { bytes }]),
{
    router.layer(RequestBodyLimitLayer::new(bytes))
}

/// `axum::Router::layer` with `axum::Extension` puts `value` at the disposal of every handler that
/// the router holds by now, and puts that layer around its refusals too. Which value it was is
/// told by [`shared`].
#[verifier::external_body]
fn layer_extension<T: Clone + Send + Sync + 'static>(router: Router, value: T) -> (r: Router)
    ensures
        routes(r) == wrapped(routes(router), seq![Layering::Extension]),
        refusals(r) == wrapped_refusals(refusals(router), seq![Layering::Extension]),
{
    router.layer(Extension(value))
}

/// `outer` is `inner` with the extension `value` put around all that it held.
pub closed spec fn shared<T: Clone + Send + Sync + 'static>(
    inner: Router,
    value: T,
    outer: Router,
) -> bool {
    call_ensures(layer_extension::<T>, (inner, value), outer)
}

/// A shared value adds one layer around every route and every refusal, and changes nothing else.
pub proof fn law_shared<T: Clone + Send + Sync + 'static>(inner: Router, value: T, outer: Router)
    requires
        shared(inner, value, outer),
    ensures
        routes(outer) == wrapped(routes(inner), seq![Layering::Extension]),
        refusals(outer) == wrapped_refusals(refusals(inner), seq![Layering::Extension]),
{
}

/// What is shared is `value` itself, by a layer around all that `inner` held.
proof fn law_shared_value<T: Clone + Send + Sync + 'static>(inner: Router, value: T, outer: Router)
    ensures
        shared(inner, value, outer) <==> call_ensures(
            layer_extension::<T>,
            (inner, value),
            outer,
        ),
{
}

/// Puts `value` at the disposal of every handler that the router holds by now.
pub(crate) fn share<T: Clone + Send + Sync + 'static>(router: Router, value: T) -> (r: Router)
    ensures
        shared(router, value, r),
        routes(r) == wrapped(routes(router), seq![Layering::Extension]),
        refusals(r) == wrapped_refusals(refusals(router), seq![Layering::Extension]),
{
    layer_extension(router, value)
}

/// The layers that [`guard`] puts around a route.
pub open spec fn guard_layers(
    timeout_seconds: u64,
    buffered: usize,
    requests: u64,
    seconds: u64,
) -> Seq<Layering> {
    seq![
        Layering::RateLimit { requests, seconds },
        Layering::Buffer { waiting: buffered },
        Layering::AnswerErrors { status: INTERNAL_SERVER_ERROR },
        Layering::Timeout { seconds: timeout_seconds },
        Layering::AnswerTimeouts { status: REQUEST_TIMEOUT },
    ]
}

/// `axum::Router::layer` with a `tower::ServiceBuilder` puts five layers around every route that
/// the router holds by now, around each on its own, and around its refusals:
/// `tower::limit::RateLimitLayer` innermost, then `tower::buffer::BufferLayer`, an
/// `axum::error_handling::HandleErrorLayer` that answers what `unhandled_reply` says,
/// `tower::timeout::TimeoutLayer`, and a `HandleErrorLayer` that answers what `timeout_reply` says.
/// The rate and the buffer have to be positive, the buffer can take at most an eighth of
/// `usize::MAX`, and the runtime has to keep time: the layers around the refusals are set up within
/// the call, with a task for each buffer and a timer for each rate limit, and the call panics where
/// `runtime` has its timers switched off. The layers of a route are set up when `axum` turns the
/// handler into a service, which is once where the router gets its state before it is served, and
/// else for each request.
#[verifier::external_body]
fn layer_guard(
    router: Router,
    runtime: &Handle,
    timeout_seconds: u64,
    buffered: usize,
    requests: u64,
    seconds: u64,
) -> (r: Router)
    requires
        keeps_time(*runtime),
        0 < buffered <= usize::MAX / 8,
        0 < requests,
        0 < seconds,
    ensures
        routes(r) == wrapped(
            routes(router),
            guard_layers(timeout_seconds, buffered, requests, seconds),
        ),
        refusals(r) == wrapped_refusals(
            refusals(router),
            guard_layers(timeout_seconds, buffered, requests, seconds),
        ),
{
    let _context = runtime.enter();
    let timed_out = |_: BoxError| ready(StatusCode::from_u16(timeout_reply()).unwrap());
    let unhandled = |error: BoxError| {
        let (status, body) = unhandled_reply(&error.to_string());
        ready((StatusCode::from_u16(status).unwrap(), body))
    };
    let stack = ServiceBuilder::new()
        .layer(HandleErrorLayer::new(timed_out))
        .layer(TimeoutLayer::new(Duration::from_secs(timeout_seconds)))
        .layer(HandleErrorLayer::new(unhandled))
        .layer(BufferLayer::new(buffered))
        .layer(RateLimitLayer::new(requests, Duration::from_secs(seconds)));
    router.layer(stack)
}

/// `outer` is `inner` with the layers of [`guard`] put around all that it held, set up on `runtime`.
pub closed spec fn guarded(
    inner: Router,
    runtime: &Handle,
    timeout_seconds: u64,
    buffered: usize,
    requests: u64,
    seconds: u64,
    outer: Router,
) -> bool {
    call_ensures(
        layer_guard,
        (inner, runtime, timeout_seconds, buffered, requests, seconds),
        outer,
    )
}

/// A guard adds its layers around every route and every refusal, and changes nothing else.
pub proof fn law_guarded(
    inner: Router,
    runtime: &Handle,
    timeout_seconds: u64,
    buffered: usize,
    requests: u64,
    seconds: u64,
    outer: Router,
)
    requires
        guarded(inner, runtime, timeout_seconds, buffered, requests, seconds, outer),
    ensures
        routes(outer) == wrapped(
            routes(inner),
            guard_layers(timeout_seconds, buffered, requests, seconds),
        ),
        refusals(outer) == wrapped_refusals(
            refusals(inner),
            guard_layers(timeout_seconds, buffered, requests, seconds),
        ),
{
}

/// A guard is set up by one call, with these numbers and on this runtime.
proof fn law_guarded_numbers(
    inner: Router,
    runtime: &Handle,
    timeout_seconds: u64,
    buffered: usize,
    requests: u64,
    seconds: u64,
    outer: Router,
)
    ensures
        guarded(inner, runtime, timeout_seconds, buffered, requests, seconds, outer)
            <==> call_ensures(
            layer_guard,
            (inner, runtime, timeout_seconds, buffered, requests, seconds),
            outer,
        ),
{
}

/// Limits the rate and the time of the requests to every route that the router holds by now, and
/// answers those that fail on that account.
pub(crate) fn guard(
    router: Router,
    runtime: &Handle,
    timeout_seconds: u64,
    buffered: usize,
    requests: u64,
    seconds: u64,
) -> (r: Router)
    requires
        keeps_time(*runtime),
        0 < buffered <= usize::MAX / 8,
        0 < requests,
        0 < seconds,
    ensures
        guarded(router, runtime, timeout_seconds, buffered, requests, seconds, r),
        routes(r) == wrapped(
            routes(router),
            guard_layers(timeout_seconds, buffered, requests, seconds),
        ),
        refusals(r) == wrapped_refusals(
            refusals(router),
            guard_layers(timeout_seconds, buffered, requests, seconds),
        ),
{
    layer_guard(router, runtime, timeout_seconds, buffered, requests, seconds)
}

} // verus!
