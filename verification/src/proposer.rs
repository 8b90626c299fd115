//! The proposer API: what proposers ask of the relay.

use crate::channels::{opened, PROPOSER_GOSSIP_CAPACITY, SLOT_UPDATE_CAPACITY};
use crate::pattern::{
    get_endpoint, get_on, is_mountable, join, mountable, post_endpoint, post_on, Endpoint, RouteKey,
};
use crate::routing::{
    limit_bodies, new_router, refusals, route_get, route_post, routes, share, shared, Layering,
    Mount, RefusalTable, RouteTable,
};
use axum::routing::MethodRouter;
use axum::Router;
use std::sync::Arc;
use tokio::sync::mpsc::{Receiver, Sender};
use vstd::prelude::*;

verus! {

/// Where the proposer API is found: the path of the API, and the paths below it.
#[derive(Debug)]
pub struct ProposerPaths {
    pub api: String,
    pub status: String,
    pub register_validators: String,
    pub get_header: String,
    pub get_header_with_proofs: String,
    pub get_payload: String,
}

/// The handlers of the proposer API.
pub struct ProposerHandlers {
    pub status: MethodRouter,
    pub register_validators: MethodRouter,
    pub get_header: MethodRouter,
    pub get_header_with_proofs: MethodRouter,
    pub get_payload: MethodRouter,
}

/// The routes of the proposer API on its own, in the order in which they are added.
pub open spec fn proposer_keys(paths: ProposerPaths) -> Seq<RouteKey> {
    seq![
        get_on(paths.api@ + paths.get_header@),
        get_on(paths.api@ + paths.get_header_with_proofs@),
        post_on(paths.api@ + paths.get_payload@),
        post_on(paths.api@ + paths.register_validators@),
    ]
}

/// The layers of the proposer API around the routes on headers and payloads. Their bodies have to
/// keep within the limit on registrations too, since its layer is put around the whole API.
pub open spec fn block_layers(
    max_blinded_block_length: usize,
    max_val_registrations_length: usize,
) -> Seq<Layering> {
    seq![
        Layering::BodyLimit { bytes: max_blinded_block_length },
        Layering::BodyLimit { bytes: max_val_registrations_length },
        Layering::Extension,
    ]
}

/// The layers of the proposer API around the registration of validators.
pub open spec fn registration_layers(max_val_registrations_length: usize) -> Seq<Layering> {
    seq![Layering::BodyLimit { bytes: max_val_registrations_length }, Layering::Extension]
}

/// The table of the proposer API on its own.
pub open spec fn proposer_routes(
    paths: ProposerPaths,
    handlers: ProposerHandlers,
    max_blinded_block_length: usize,
    max_val_registrations_length: usize,
) -> RouteTable {
    let block = block_layers(max_blinded_block_length, max_val_registrations_length);
    map![
        get_on(paths.api@ + paths.get_header@) => Mount {
            handler: handlers.get_header,
            layers: block,
        },
        get_on(paths.api@ + paths.get_header_with_proofs@) => Mount {
            handler: handlers.get_header_with_proofs,
            layers: block,
        },
        post_on(paths.api@ + paths.get_payload@) => Mount {
            handler: handlers.get_payload,
            layers: block,
        },
        post_on(paths.api@ + paths.register_validators@) => Mount {
            handler: handlers.register_validators,
            layers: registration_layers(max_val_registrations_length),
        },
    ]
}

/// The refusals of the proposer API on its own.
pub open spec fn proposer_refusals(
    paths: ProposerPaths,
    max_blinded_block_length: usize,
    max_val_registrations_length: usize,
) -> RefusalTable {
    let block = block_layers(max_blinded_block_length, max_val_registrations_length);
    map![
        None => block,
        Some(paths.api@ + paths.get_header@) => block,
        Some(paths.api@ + paths.get_header_with_proofs@) => block,
        Some(paths.api@ + paths.get_payload@) => block,
        Some(paths.api@ + paths.register_validators@) => registration_layers(
            max_val_registrations_length,
        ),
    ]
}

/// Whether a router takes the routes of [`proposer_api_app`].
pub fn proposer_api_mountable(paths: &ProposerPaths) -> (r: bool)
    ensures
        r == mountable(proposer_keys(*paths)),
{
    let endpoints: Vec<Endpoint> = vec![
        get_endpoint(join(&paths.api, &paths.get_header).as_str()),
        get_endpoint(join(&paths.api, &paths.get_header_with_proofs).as_str()),
        post_endpoint(join(&paths.api, &paths.get_payload).as_str()),
        post_endpoint(join(&paths.api, &paths.register_validators).as_str()),
    ];
    assert(endpoints@.map_values(|e: Endpoint| e@) =~= proposer_keys(*paths));
    is_mountable(&endpoints)
}

/// Serves the proposer API of the relay from one service. The service shares `auctioneer` with
/// the caller, takes subscriptions to the updates of the chain from the channel whose other end
/// the caller gets, and hears no gossip, since nobody holds the other end of that channel.
pub fn proposer_api_app<U, G, A, P, F>(
    paths: &ProposerPaths,
    handlers: ProposerHandlers,
    max_blinded_block_length: usize,
    max_val_registrations_length: usize,
    auctioneer: A,
    new_service: F,
) -> (r: (Router, Arc<P>, Receiver<Sender<U>>, Arc<A>)) where
    P: Send + Sync + 'static,
    F: FnOnce(Arc<A>, Sender<Sender<U>>, Receiver<G>) -> P,

    requires
        mountable(proposer_keys(*paths)),
        forall|shared_auctioneer: Arc<A>, slot_updates: Sender<Sender<U>>, gossip: Receiver<G>|
            *shared_auctioneer == auctioneer ==> call_requires(
                new_service,
                (shared_auctioneer, slot_updates, gossip),
            ),
    ensures
        *r.3 == auctioneer,
        exists|slot_updates: Sender<Sender<U>>, gossip_source: Sender<G>, gossip: Receiver<G>|
            {
                &&& #[trigger] opened(SLOT_UPDATE_CAPACITY, slot_updates, r.2)
                &&& #[trigger] opened(PROPOSER_GOSSIP_CAPACITY, gossip_source, gossip)
                &&& call_ensures(new_service, (r.3, slot_updates, gossip), *r.1)
            },
        routes(r.0) == proposer_routes(
            *paths,
            handlers,
            max_blinded_block_length,
            max_val_registrations_length,
        ),
        refusals(r.0) == proposer_refusals(
            *paths,
            max_blinded_block_length,
            max_val_registrations_length,
        ),
        exists|inner: Router| shared(inner, r.1, r.0),
{
    let (slot_update_sender, slot_update_receiver) = tokio::sync::mpsc::channel::<Sender<U>>(
        SLOT_UPDATE_CAPACITY,
    );
    let (_gossip_sender, gossip_receiver) = tokio::sync::mpsc::channel::<G>(
        PROPOSER_GOSSIP_CAPACITY,
    );
    assert(opened(PROPOSER_GOSSIP_CAPACITY, _gossip_sender, gossip_receiver));
    let auctioneer = Arc::new(auctioneer);
    let service = Arc::new(
        new_service(auctioneer.clone(), slot_update_sender.clone(), gossip_receiver),
    );
    let ghost keys = proposer_keys(*paths);
    assert(keys[0].path == paths.api@ + paths.get_header@);
    assert(keys[1].path == paths.api@ + paths.get_header_with_proofs@);
    assert(keys[2].path == paths.api@ + paths.get_payload@);
    assert(keys[3].path == paths.api@ + paths.register_validators@);
    let router = new_router();
    let router = route_get(
        router,
        join(&paths.api, &paths.get_header).as_str(),
        handlers.get_header,
    );
    let router = route_get(
        router,
        join(&paths.api, &paths.get_header_with_proofs).as_str(),
        handlers.get_header_with_proofs,
    );
    let router = route_post(
        router,
        join(&paths.api, &paths.get_payload).as_str(),
        handlers.get_payload,
    );
    let router = limit_bodies(router, max_blinded_block_length);
    let router = route_post(
        router,
        join(&paths.api, &paths.register_validators).as_str(),
        handlers.register_validators,
    );
    let router = limit_bodies(router, max_val_registrations_length);
    let ghost inner = router;
    let router = share(router, service.clone());
    assert(routes(router) =~~= proposer_routes(
        *paths,
        handlers,
        max_blinded_block_length,
        max_val_registrations_length,
    ));
    assert(refusals(router) =~~= proposer_refusals(
        *paths,
        max_blinded_block_length,
        max_val_registrations_length,
    ));
    let r = (router, service, slot_update_receiver, auctioneer);
    assert(opened(SLOT_UPDATE_CAPACITY, slot_update_sender, r.2));
    assert(shared(inner, r.1, r.0));
    r
}

} // verus!
