//! The builder API: what builders ask of the relay, and what they submit to it.

use crate::channels::{opened, BUILDER_GOSSIP_CAPACITY, SLOT_UPDATE_CAPACITY};
use crate::pattern::{
    get_endpoint, get_on, is_mountable, mountable, post_endpoint, post_on, Endpoint, RouteKey,
};
use crate::routing::{
    guard, guard_layers, guarded, limit_bodies, new_router, refusals, refusals_within, route_get,
    route_post, routes, share, shared, Layering, Mount, RouteTable,
};
use crate::runtime::{keeps_time, refused, started, timed_runtime};
use axum::routing::MethodRouter;
use axum::Router;
use std::sync::Arc;
use tokio::runtime::{Handle, Runtime};
use tokio::sync::mpsc::{Receiver, Sender};
use vstd::prelude::*;

verus! {

/// How long a request to the builder API may take.
pub const TIMEOUT_SECONDS: u64 = 5;

/// How many requests wait in line for a handler of the builder API.
pub const BUFFERED_REQUESTS: usize = 4096;

/// How many requests a handler of the builder API takes in [`RATE_SECONDS`] seconds.
pub const RATE_REQUESTS: u64 = 100;

/// The span of time over which the requests to a handler of the builder API are counted.
pub const RATE_SECONDS: u64 = 1;

/// Where the builder API and the constraints API are found.
#[derive(Debug)]
pub struct RelayPaths {
    pub get_validators: String,
    pub submit_block: String,
    pub get_top_bid: String,
    pub get_builder_constraints: String,
    pub get_builder_constraints_stream: String,
    pub get_builder_delegations: String,
    pub submit_builder_constraints: String,
    pub delegate_submission_rights: String,
    pub revoke_submission_rights: String,
}

/// The handlers of the builder API.
pub struct BuilderHandlers {
    pub get_validators: MethodRouter,
    pub submit_block: MethodRouter,
    pub get_top_bid: MethodRouter,
    pub constraints: MethodRouter,
    pub constraints_stream: MethodRouter,
    pub delegations: MethodRouter,
}

/// The routes of the builder API on its own, in the order in which they are added.
pub open spec fn builder_keys(paths: RelayPaths) -> Seq<RouteKey> {
    seq![
        get_on(paths.get_validators@),
        post_on(paths.submit_block@),
        get_on(paths.get_top_bid@),
        get_on(paths.get_builder_constraints_stream@),
        get_on(paths.get_builder_constraints@),
    ]
}

/// The layers around every route of the builder API.
pub open spec fn builder_layers(max_payload_length: usize) -> Seq<Layering> {
    seq![Layering::BodyLimit { bytes: max_payload_length }, Layering::Extension] + guard_layers(
        TIMEOUT_SECONDS,
        BUFFERED_REQUESTS,
        RATE_REQUESTS,
        RATE_SECONDS,
    )
}

/// The table of the builder API on its own, with `layers` around each route.
pub open spec fn builder_routes(
    paths: RelayPaths,
    handlers: BuilderHandlers,
    layers: Seq<Layering>,
) -> RouteTable {
    map![
        get_on(paths.get_validators@) => Mount { handler: handlers.get_validators, layers },
        post_on(paths.submit_block@) => Mount { handler: handlers.submit_block, layers },
        get_on(paths.get_top_bid@) => Mount { handler: handlers.get_top_bid, layers },
        get_on(paths.get_builder_constraints_stream@) => Mount {
            handler: handlers.constraints_stream,
            layers,
        },
        get_on(paths.get_builder_constraints@) => Mount { handler: handlers.constraints, layers },
    ]
}

/// Whether a router takes the routes of [`builder_api_app`].
pub fn builder_api_mountable(paths: &RelayPaths) -> (r: bool)
    ensures
        r == mountable(builder_keys(*paths)),
{
    let endpoints: Vec<Endpoint> = vec![
        get_endpoint(paths.get_validators.as_str()),
        post_endpoint(paths.submit_block.as_str()),
        get_endpoint(paths.get_top_bid.as_str()),
        get_endpoint(paths.get_builder_constraints_stream.as_str()),
        get_endpoint(paths.get_builder_constraints.as_str()),
    ];
    assert(endpoints@.map_values(|e: Endpoint| e@) =~= builder_keys(*paths));
    is_mountable(&endpoints)
}

/// `served` is the builder API on its own: a router, with the table of the API, around the service
/// in `served.1`; the service, as `new_service` makes it of the ends of two new channels, together
/// with the handle in `served.3`; and in `served.2` the other end of the first of them. The layers
/// that limit time and rate were set up on the runtime of `runtime`.
pub open spec fn serves_builder_api<U, G, B, H, F>(
    paths: RelayPaths,
    handlers: BuilderHandlers,
    max_payload_length: usize,
    runtime: Handle,
    new_service: F,
    served: (Router, Arc<B>, Receiver<Sender<U>>, H),
) -> bool where
    B: Send + Sync + 'static,
    F: FnOnce(Sender<Sender<U>>, Receiver<G>) -> (B, H),
 {
    &&& exists|slot_updates: Sender<Sender<U>>, gossip_source: Sender<G>, gossip: Receiver<G>|
        {
            &&& #[trigger] opened(SLOT_UPDATE_CAPACITY, slot_updates, served.2)
            &&& #[trigger] opened(BUILDER_GOSSIP_CAPACITY, gossip_source, gossip)
            &&& call_ensures(new_service, (slot_updates, gossip), (*served.1, served.3))
        }
    &&& routes(served.0) == builder_routes(paths, handlers, builder_layers(max_payload_length))
    &&& refusals(served.0) == refusals_within(
        builder_keys(paths),
        builder_layers(max_payload_length),
    )
    &&& exists|inner: Router, outer: Router|
        {
            &&& #[trigger] shared(inner, served.1, outer)
            &&& #[trigger] guarded(
                outer,
                &runtime,
                TIMEOUT_SECONDS,
                BUFFERED_REQUESTS,
                RATE_REQUESTS,
                RATE_SECONDS,
                served.0,
            )
        }
}

/// Serves the builder API of the relay from one service, at a limited rate and in limited time.
/// The service takes subscriptions to the updates of the chain from the channel whose other end
/// the caller gets, and hears no gossip, since nobody holds the other end of that channel. The
/// caller also gets the handle on constraints that comes with the service. The runtime has to keep
/// time; [`builder_api_app_on_own_runtime`] brings one that does.
pub fn builder_api_app<U, G, B, H, F>(
    paths: &RelayPaths,
    handlers: BuilderHandlers,
    max_payload_length: usize,
    runtime: &Handle,
    new_service: F,
) -> (r: (Router, Arc<B>, Receiver<Sender<U>>, H)) where
    B: Send + Sync + 'static,
    F: FnOnce(Sender<Sender<U>>, Receiver<G>) -> (B, H),

    requires
        mountable(builder_keys(*paths)),
        keeps_time(*runtime),
        forall|slot_updates: Sender<Sender<U>>, gossip: Receiver<G>|
            call_requires(new_service, (slot_updates, gossip)),
    ensures
        serves_builder_api::<U, G, B, H, F>(
            *paths,
            handlers,
            max_payload_length,
            *runtime,
            new_service,
            r,
        ),
{
    let (slot_update_sender, slot_update_receiver) = tokio::sync::mpsc::channel::<Sender<U>>(
        SLOT_UPDATE_CAPACITY,
    );
    let (_gossip_sender, gossip_receiver) = tokio::sync::mpsc::channel::<G>(
        BUILDER_GOSSIP_CAPACITY,
    );
    assert(opened(BUILDER_GOSSIP_CAPACITY, _gossip_sender, gossip_receiver));
    let (service, handle) = new_service(slot_update_sender.clone(), gossip_receiver);
    let service = Arc::new(service);
    let ghost keys = builder_keys(*paths);
    assert(keys[0].path == paths.get_validators@);
    assert(keys[1].path == paths.submit_block@);
    assert(keys[2].path == paths.get_top_bid@);
    assert(keys[3].path == paths.get_builder_constraints_stream@);
    assert(keys[4].path == paths.get_builder_constraints@);
    let router = new_router();
    let router = route_get(router, paths.get_validators.as_str(), handlers.get_validators);
    let router = route_post(router, paths.submit_block.as_str(), handlers.submit_block);
    let router = route_get(router, paths.get_top_bid.as_str(), handlers.get_top_bid);
    let router = route_get(
        router,
        paths.get_builder_constraints_stream.as_str(),
        handlers.constraints_stream,
    );
    let router = route_get(router, paths.get_builder_constraints.as_str(), handlers.constraints);
    let router = limit_bodies(router, max_payload_length);
    let ghost inner = router;
    let router = share(router, service.clone());
    let ghost outer = router;
    let router = guard(
        router,
        runtime,
        TIMEOUT_SECONDS,
        BUFFERED_REQUESTS,
        RATE_REQUESTS,
        RATE_SECONDS,
    );
    assert(routes(router) =~~= builder_routes(
        *paths,
        handlers,
        builder_layers(max_payload_length),
    ));
    assert(refusals(router) =~~= refusals_within(keys, builder_layers(max_payload_length)));
    let r = (router, service, slot_update_receiver, handle);
    assert(opened(SLOT_UPDATE_CAPACITY, slot_update_sender, r.2));
    assert(shared(inner, r.1, outer));
    assert(guarded(
        outer,
        runtime,
        TIMEOUT_SECONDS,
        BUFFERED_REQUESTS,
        RATE_REQUESTS,
        RATE_SECONDS,
        r.0,
    ));
    r
}

/// Serves the builder API as [`builder_api_app`] does, on a runtime of its own, which the caller
/// gets and drives. Where the system refuses a runtime there is no application, and no service is
/// made.
pub fn builder_api_app_on_own_runtime<U, G, B, H, F>(
    paths: &RelayPaths,
    handlers: BuilderHandlers,
    max_payload_length: usize,
    new_service: F,
) -> (r: Option<(Runtime, (Router, Arc<B>, Receiver<Sender<U>>, H))>) where
    B: Send + Sync + 'static,
    F: FnOnce(Sender<Sender<U>>, Receiver<G>) -> (B, H),

    requires
        mountable(builder_keys(*paths)),
        forall|slot_updates: Sender<Sender<U>>, gossip: Receiver<G>|
            call_requires(new_service, (slot_updates, gossip)),
    ensures
        r matches Some(pair) ==> exists|handle: Handle|
            #[trigger] started(pair.0, handle) && serves_builder_api::<U, G, B, H, F>(
                *paths,
                handlers,
                max_payload_length,
                handle,
                new_service,
                pair.1,
            ),
        r is None ==> refused(),
{
    match timed_runtime() {
        Some((runtime, handle)) => {
            let served = builder_api_app(
                paths,
                handlers,
                max_payload_length,
                &handle,
                new_service,
            );
            let r = Some((runtime, served));
            assert(r matches Some(pair) && started(pair.0, handle) && serves_builder_api::<
                U,
                G,
                B,
                H,
                F,
            >(*paths, handlers, max_payload_length, handle, new_service, pair.1));
            r
        },
        None => None,
    }
}

} // verus!
