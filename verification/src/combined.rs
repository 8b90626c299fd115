//! The proposer API and the data API in one application.

use crate::channels::{opened, PROPOSER_GOSSIP_CAPACITY, SLOT_UPDATE_CAPACITY};
use crate::data::{DataHandlers, DataPaths};
use crate::pattern::{
    get_endpoint, get_on, is_mountable, join, mountable, post_endpoint, post_on, Endpoint, RouteKey,
};
use crate::proposer::{ProposerHandlers, ProposerPaths};
use crate::routing::{
    new_router, refusals, refusals_within, route_get, route_post, routes, share, shared, Layering,
    Mount, RouteTable,
};
use axum::Router;
use std::sync::Arc;
use tokio::sync::mpsc::{Receiver, Sender};
use vstd::prelude::*;

verus! {

/// The routes of the proposer API and the data API together, in the order in which they are added.
pub open spec fn app_keys(proposer: ProposerPaths, data: DataPaths) -> Seq<RouteKey> {
    seq![
        get_on(proposer.api@ + proposer.status@),
        post_on(proposer.api@ + proposer.register_validators@),
        get_on(proposer.api@ + proposer.get_header@),
        get_on(proposer.api@ + proposer.get_header_with_proofs@),
        post_on(proposer.api@ + proposer.get_payload@),
        get_on(data.api@ + data.proposer_payload_delivered@),
        get_on(data.api@ + data.builder_bids_received@),
        get_on(data.api@ + data.validator_registration@),
    ]
}

/// The layers around every route of the proposer API and the data API together: one for each of
/// the two services, and no limit on the bodies of requests.
pub open spec fn app_layers() -> Seq<Layering> {
    seq![Layering::Extension, Layering::Extension]
}

/// The table of the proposer API and the data API together, with `layers` around each route.
pub open spec fn app_routes(
    proposer: ProposerPaths,
    data: DataPaths,
    proposer_handlers: ProposerHandlers,
    data_handlers: DataHandlers,
    layers: Seq<Layering>,
) -> RouteTable {
    map![
        get_on(proposer.api@ + proposer.status@) => Mount {
            handler: proposer_handlers.status,
            layers,
        },
        post_on(proposer.api@ + proposer.register_validators@) => Mount {
            handler: proposer_handlers.register_validators,
            layers,
        },
        get_on(proposer.api@ + proposer.get_header@) => Mount {
            handler: proposer_handlers.get_header,
            layers,
        },
        get_on(proposer.api@ + proposer.get_header_with_proofs@) => Mount {
            handler: proposer_handlers.get_header_with_proofs,
            layers,
        },
        post_on(proposer.api@ + proposer.get_payload@) => Mount {
            handler: proposer_handlers.get_payload,
            layers,
        },
        get_on(data.api@ + data.proposer_payload_delivered@) => Mount {
            handler: data_handlers.proposer_payload_delivered,
            layers,
        },
        get_on(data.api@ + data.builder_bids_received@) => Mount {
            handler: data_handlers.builder_bids_received,
            layers,
        },
        get_on(data.api@ + data.validator_registration@) => Mount {
            handler: data_handlers.validator_registration,
            layers,
        },
    ]
}

/// Whether a router takes the routes of [`app`].
pub fn app_mountable(proposer: &ProposerPaths, data: &DataPaths) -> (r: bool)
    ensures
        r == mountable(app_keys(*proposer, *data)),
{
    let endpoints: Vec<Endpoint> = vec![
        get_endpoint(join(&proposer.api, &proposer.status).as_str()),
        post_endpoint(join(&proposer.api, &proposer.register_validators).as_str()),
        get_endpoint(join(&proposer.api, &proposer.get_header).as_str()),
        get_endpoint(join(&proposer.api, &proposer.get_header_with_proofs).as_str()),
        post_endpoint(join(&proposer.api, &proposer.get_payload).as_str()),
        get_endpoint(join(&data.api, &data.proposer_payload_delivered).as_str()),
        get_endpoint(join(&data.api, &data.builder_bids_received).as_str()),
        get_endpoint(join(&data.api, &data.validator_registration).as_str()),
    ];
    assert(endpoints@.map_values(|e: Endpoint| e@) =~= app_keys(*proposer, *data));
    is_mountable(&endpoints)
}

/// Serves the proposer API and the data API of the relay, each from a service of its own. The
/// proposer service gets the ends of two channels whose other ends nobody holds: its
/// subscriptions to the updates of the chain go nowhere, and it hears no gossip.
pub fn app<U, G, P, D, F>(
    proposer: &ProposerPaths,
    data: &DataPaths,
    proposer_handlers: ProposerHandlers,
    data_handlers: DataHandlers,
    new_proposer: F,
    data_service: D,
) -> (r: Router) where
    P: Send + Sync + 'static,
    D: Send + Sync + 'static,
    F: FnOnce(Sender<Sender<U>>, Receiver<G>) -> P,

    requires
        mountable(app_keys(*proposer, *data)),
        forall|slot_updates: Sender<Sender<U>>, gossip: Receiver<G>|
            call_requires(new_proposer, (slot_updates, gossip)),
    ensures
        routes(r) == app_routes(*proposer, *data, proposer_handlers, data_handlers, app_layers()),
        refusals(r) == refusals_within(app_keys(*proposer, *data), app_layers()),
        exists|
            slot_updates: Sender<Sender<U>>,
            subscriptions: Receiver<Sender<U>>,
            gossip_source: Sender<G>,
            gossip: Receiver<G>,
            proposer_service: Arc<P>,
            shared_data: Arc<D>,
            inner: Router,
            outer: Router,
        |
            {
                &&& #[trigger] opened(SLOT_UPDATE_CAPACITY, slot_updates, subscriptions)
                &&& #[trigger] opened(PROPOSER_GOSSIP_CAPACITY, gossip_source, gossip)
                &&& call_ensures(new_proposer, (slot_updates, gossip), *proposer_service)
                &&& *shared_data == data_service
                &&& #[trigger] shared(inner, proposer_service, outer)
                &&& #[trigger] shared(outer, shared_data, r)
            },
{
    let (slot_update_sender, _slot_update_receiver) = tokio::sync::mpsc::channel::<Sender<U>>(
        SLOT_UPDATE_CAPACITY,
    );
    let (_gossip_sender, gossip_receiver) = tokio::sync::mpsc::channel::<G>(
        PROPOSER_GOSSIP_CAPACITY,
    );
    assert(opened(SLOT_UPDATE_CAPACITY, slot_update_sender, _slot_update_receiver));
    assert(opened(PROPOSER_GOSSIP_CAPACITY, _gossip_sender, gossip_receiver));
    let proposer_service = Arc::new(new_proposer(slot_update_sender, gossip_receiver));
    let data_service = Arc::new(data_service);
    let ghost keys = app_keys(*proposer, *data);
    assert(keys[0].path == proposer.api@ + proposer.status@);
    assert(keys[1].path == proposer.api@ + proposer.register_validators@);
    assert(keys[2].path == proposer.api@ + proposer.get_header@);
    assert(keys[3].path == proposer.api@ + proposer.get_header_with_proofs@);
    assert(keys[4].path == proposer.api@ + proposer.get_payload@);
    assert(keys[5].path == data.api@ + data.proposer_payload_delivered@);
    assert(keys[6].path == data.api@ + data.builder_bids_received@);
    assert(keys[7].path == data.api@ + data.validator_registration@);
    let router = new_router();
    let router = route_get(
        router,
        join(&proposer.api, &proposer.status).as_str(),
        proposer_handlers.status,
    );
    let router = route_post(
        router,
        join(&proposer.api, &proposer.register_validators).as_str(),
        proposer_handlers.register_validators,
    );
    let router = route_get(
        router,
        join(&proposer.api, &proposer.get_header).as_str(),
        proposer_handlers.get_header,
    );
    let router = route_get(
        router,
        join(&proposer.api, &proposer.get_header_with_proofs).as_str(),
        proposer_handlers.get_header_with_proofs,
    );
    let router = route_post(
        router,
        join(&proposer.api, &proposer.get_payload).as_str(),
        proposer_handlers.get_payload,
    );
    let router = route_get(
        router,
        join(&data.api, &data.proposer_payload_delivered).as_str(),
        data_handlers.proposer_payload_delivered,
    );
    let router = route_get(
        router,
        join(&data.api, &data.builder_bids_received).as_str(),
        data_handlers.builder_bids_received,
    );
    let router = route_get(
        router,
        join(&data.api, &data.validator_registration).as_str(),
        data_handlers.validator_registration,
    );
    let ghost inner = router;
    let router = share(router, proposer_service);
    let ghost outer = router;
    let router = share(router, data_service);
    assert(shared(inner, proposer_service, outer));
    assert(shared(outer, data_service, router));
    assert(routes(router) =~~= app_routes(
        *proposer,
        *data,
        proposer_handlers,
        data_handlers,
        app_layers(),
    ));
    assert(refusals(router) =~~= refusals_within(keys, app_layers()));
    router
}

} // verus!
