//! The constraints API, which is served together with the builder API.

use crate::builder::{BuilderHandlers, RelayPaths};
use crate::channels::{opened, BUILDER_GOSSIP_CAPACITY, SLOT_UPDATE_CAPACITY};
use crate::pattern::{
    get_endpoint, get_on, is_mountable, mountable, post_endpoint, post_on, Endpoint, RouteKey,
};
use crate::routing::{
    limit_bodies, new_router, refusals, refusals_within, route_get, route_post, routes, share,
    shared, Layering, Mount, RouteTable,
};
use axum::routing::MethodRouter;
use axum::Router;
use std::sync::Arc;
use tokio::sync::mpsc::{Receiver, Sender};
use vstd::prelude::*;

verus! {

/// The handlers of the constraints API.
pub struct ConstraintsHandlers {
    pub submit_constraints: MethodRouter,
    pub delegate: MethodRouter,
    pub revoke: MethodRouter,
}

/// The routes of the builder API and the constraints API together, in the order in which they are
/// added.
pub open spec fn constraints_keys(paths: RelayPaths) -> Seq<RouteKey> {
    seq![
        get_on(paths.get_validators@),
        post_on(paths.submit_block@),
        get_on(paths.get_top_bid@),
        get_on(paths.get_builder_constraints@),
        get_on(paths.get_builder_constraints_stream@),
        get_on(paths.get_builder_delegations@),
        post_on(paths.submit_builder_constraints@),
        post_on(paths.delegate_submission_rights@),
        post_on(paths.revoke_submission_rights@),
    ]
}

/// The layers around every route of the builder API and the constraints API together.
pub open spec fn constraints_layers(max_payload_length: usize) -> Seq<Layering> {
    seq![
        Layering::BodyLimit { bytes: max_payload_length },
        Layering::Extension,
        Layering::Extension,
    ]
}

/// The table of the builder API and the constraints API together, with `layers` around each route.
pub open spec fn constraints_routes(
    paths: RelayPaths,
    builder: BuilderHandlers,
    constraints: ConstraintsHandlers,
    layers: Seq<Layering>,
) -> RouteTable {
    map![
        get_on(paths.get_validators@) => Mount { handler: builder.get_validators, layers },
        post_on(paths.submit_block@) => Mount { handler: builder.submit_block, layers },
        get_on(paths.get_top_bid@) => Mount { handler: builder.get_top_bid, layers },
        get_on(paths.get_builder_constraints@) => Mount { handler: builder.constraints, layers },
        get_on(paths.get_builder_constraints_stream@) => Mount {
            handler: builder.constraints_stream,
            layers,
        },
        get_on(paths.get_builder_delegations@) => Mount { handler: builder.delegations, layers },
        post_on(paths.submit_builder_constraints@) => Mount {
            handler: constraints.submit_constraints,
            layers,
        },
        post_on(paths.delegate_submission_rights@) => Mount {
            handler: constraints.delegate,
            layers,
        },
        post_on(paths.revoke_submission_rights@) => Mount {
            handler: constraints.revoke,
            layers,
        },
    ]
}

/// Whether a router takes the routes of [`constraints_api_app`].
pub fn constraints_api_mountable(paths: &RelayPaths) -> (r: bool)
    ensures
        r == mountable(constraints_keys(*paths)),
{
    let endpoints: Vec<Endpoint> = vec![
        get_endpoint(paths.get_validators.as_str()),
        post_endpoint(paths.submit_block.as_str()),
        get_endpoint(paths.get_top_bid.as_str()),
        get_endpoint(paths.get_builder_constraints.as_str()),
        get_endpoint(paths.get_builder_constraints_stream.as_str()),
        get_endpoint(paths.get_builder_delegations.as_str()),
        post_endpoint(paths.submit_builder_constraints.as_str()),
        post_endpoint(paths.delegate_submission_rights.as_str()),
        post_endpoint(paths.revoke_submission_rights.as_str()),
    ];
    assert(endpoints@.map_values(|e: Endpoint| e@) =~= constraints_keys(*paths));
    is_mountable(&endpoints)
}

/// Serves the builder API and the constraints API of the relay from two services. They share
/// `auctioneer`; both take subscriptions to the updates of the chain from the channel whose other
/// end the caller gets; and the handle on constraints that comes with the builder service goes to
/// the constraints service. Nobody holds the other end of the channel on which the builder service
/// hears gossip.
pub fn constraints_api_app<U, G, A, B, H, C, F, K>(
    paths: &RelayPaths,
    builder: BuilderHandlers,
    constraints: ConstraintsHandlers,
    max_payload_length: usize,
    auctioneer: A,
    new_builder: F,
    new_constraints: K,
) -> (r: (Router, Arc<C>, Arc<B>, Receiver<Sender<U>>)) where
    B: Send + Sync + 'static,
    C: Send + Sync + 'static,
    F: FnOnce(Arc<A>, Sender<Sender<U>>, Receiver<G>) -> (B, H),
    K: FnOnce(Arc<A>, Sender<Sender<U>>, H) -> C,

    requires
        mountable(constraints_keys(*paths)),
        forall|shared_auctioneer: Arc<A>, slot_updates: Sender<Sender<U>>, gossip: Receiver<G>|
            *shared_auctioneer == auctioneer ==> call_requires(
                new_builder,
                (shared_auctioneer, slot_updates, gossip),
            ),
        forall|shared_auctioneer: Arc<A>, slot_updates: Sender<Sender<U>>, handle: H|
            *shared_auctioneer == auctioneer ==> call_requires(
                new_constraints,
                (shared_auctioneer, slot_updates, handle),
            ),
    ensures
        exists|
            shared_auctioneer: Arc<A>,
            slot_updates: Sender<Sender<U>>,
            gossip_source: Sender<G>,
            gossip: Receiver<G>,
            handle: H,
        |
            {
                &&& *shared_auctioneer == auctioneer
                &&& #[trigger] opened(SLOT_UPDATE_CAPACITY, slot_updates, r.3)
                &&& #[trigger] opened(BUILDER_GOSSIP_CAPACITY, gossip_source, gossip)
                &&& call_ensures(
                    new_builder,
                    (shared_auctioneer, slot_updates, gossip),
                    (*r.2, handle),
                )
                &&& #[trigger] call_ensures(
                    new_constraints,
                    (shared_auctioneer, slot_updates, handle),
                    *r.1,
                )
            },
        routes(r.0) == constraints_routes(
            *paths,
            builder,
            constraints,
            constraints_layers(max_payload_length),
        ),
        refusals(r.0) == refusals_within(
            constraints_keys(*paths),
            constraints_layers(max_payload_length),
        ),
        exists|inner: Router, outer: Router|
            #[trigger] shared(inner, r.2, outer) && #[trigger] shared(outer, r.1, r.0),
{
    let auctioneer = Arc::new(auctioneer);
    let (slot_update_sender, slot_update_receiver) = tokio::sync::mpsc::channel::<Sender<U>>(
        SLOT_UPDATE_CAPACITY,
    );
    let (_gossip_sender, gossip_receiver) = tokio::sync::mpsc::channel::<G>(
        BUILDER_GOSSIP_CAPACITY,
    );
    assert(opened(BUILDER_GOSSIP_CAPACITY, _gossip_sender, gossip_receiver));
    let (builder_service, handle) = new_builder(
        auctioneer.clone(),
        slot_update_sender.clone(),
        gossip_receiver,
    );
    let builder_service = Arc::new(builder_service);
    let ghost slot_updates = slot_update_sender;
    let constraints_service = Arc::new(
        new_constraints(auctioneer.clone(), slot_update_sender, handle),
    );
    assert(call_ensures(
        new_constraints,
        (auctioneer, slot_updates, handle),
        *constraints_service,
    ));
    let ghost keys = constraints_keys(*paths);
    assert(keys[0].path == paths.get_validators@);
    assert(keys[1].path == paths.submit_block@);
    assert(keys[2].path == paths.get_top_bid@);
    assert(keys[3].path == paths.get_builder_constraints@);
    assert(keys[4].path == paths.get_builder_constraints_stream@);
    assert(keys[5].path == paths.get_builder_delegations@);
    assert(keys[6].path == paths.submit_builder_constraints@);
    assert(keys[7].path == paths.delegate_submission_rights@);
    assert(keys[8].path == paths.revoke_submission_rights@);
    let router = new_router();
    let router = route_get(router, paths.get_validators.as_str(), builder.get_validators);
    let router = route_post(router, paths.submit_block.as_str(), builder.submit_block);
    let router = route_get(router, paths.get_top_bid.as_str(), builder.get_top_bid);
    let router = route_get(router, paths.get_builder_constraints.as_str(), builder.constraints);
    let router = route_get(
        router,
        paths.get_builder_constraints_stream.as_str(),
        builder.constraints_stream,
    );
    let router = route_get(router, paths.get_builder_delegations.as_str(), builder.delegations);
    let router = route_post(
        router,
        paths.submit_builder_constraints.as_str(),
        constraints.submit_constraints,
    );
    let router = route_post(
        router,
        paths.delegate_submission_rights.as_str(),
        constraints.delegate,
    );
    let router = route_post(router, paths.revoke_submission_rights.as_str(), constraints.revoke);
    let router = limit_bodies(router, max_payload_length);
    let ghost inner = router;
    let router = share(router, builder_service.clone());
    let ghost outer = router;
    let router = share(router, constraints_service.clone());
    assert(routes(router) =~~= constraints_routes(
        *paths,
        builder,
        constraints,
        constraints_layers(max_payload_length),
    ));
    assert(refusals(router) =~~= refusals_within(keys, constraints_layers(max_payload_length)));
    let r = (router, constraints_service, builder_service, slot_update_receiver);
    assert(opened(SLOT_UPDATE_CAPACITY, slot_updates, r.3));
    assert(shared(inner, r.2, outer));
    assert(shared(outer, r.1, r.0));
    r
}

} // verus!
