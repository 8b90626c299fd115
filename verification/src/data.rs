//! The data API: what the relay has delivered, received and registered.

use crate::pattern::{get_endpoint, get_on, is_mountable, join, mountable, Endpoint, RouteKey};
use crate::routing::{
    new_router, refusals, refusals_within, route_get, routes, share, shared, Layering, Mount,
    RouteTable,
};
use axum::routing::MethodRouter;
use axum::Router;
use std::sync::Arc;
use vstd::prelude::*;

verus! {

/// Where the data API is found: the path of the API, and the paths below it.
#[derive(Debug)]
pub struct DataPaths {
    pub api: String,
    pub proposer_payload_delivered: String,
    pub builder_bids_received: String,
    pub validator_registration: String,
}

/// The handlers of the data API.
pub struct DataHandlers {
    pub proposer_payload_delivered: MethodRouter,
    pub builder_bids_received: MethodRouter,
    pub validator_registration: MethodRouter,
}

/// The routes of the data API.
pub open spec fn data_keys(paths: DataPaths) -> Seq<RouteKey> {
    seq![
        get_on(paths.api@ + paths.proposer_payload_delivered@),
        get_on(paths.api@ + paths.builder_bids_received@),
        get_on(paths.api@ + paths.validator_registration@),
    ]
}

/// The table of the data API, with `layers` around each route.
pub open spec fn data_routes(
    paths: DataPaths,
    handlers: DataHandlers,
    layers: Seq<Layering>,
) -> RouteTable {
    map![
        get_on(paths.api@ + paths.proposer_payload_delivered@) => Mount {
            handler: handlers.proposer_payload_delivered,
            layers,
        },
        get_on(paths.api@ + paths.builder_bids_received@) => Mount {
            handler: handlers.builder_bids_received,
            layers,
        },
        get_on(paths.api@ + paths.validator_registration@) => Mount {
            handler: handlers.validator_registration,
            layers,
        },
    ]
}

/// Whether a router takes the routes of [`data_api_app`].
pub fn data_api_mountable(paths: &DataPaths) -> (r: bool)
    ensures
        r == mountable(data_keys(*paths)),
{
    let endpoints: Vec<Endpoint> = vec![
        get_endpoint(join(&paths.api, &paths.proposer_payload_delivered).as_str()),
        get_endpoint(join(&paths.api, &paths.builder_bids_received).as_str()),
        get_endpoint(join(&paths.api, &paths.validator_registration).as_str()),
    ];
    assert(endpoints@.map_values(|e: Endpoint| e@) =~= data_keys(*paths));
    is_mountable(&endpoints)
}

/// Serves the data API of the relay from one service, which shares `database` with the caller.
pub fn data_api_app<M, D, F>(
    paths: &DataPaths,
    handlers: DataHandlers,
    database: M,
    new_service: F,
) -> (r: (Router, Arc<D>, Arc<M>)) where D: Send + Sync + 'static, F: FnOnce(Arc<M>) -> D
    requires
        mountable(data_keys(*paths)),
        forall|shared_database: Arc<M>|
            *shared_database == database ==> call_requires(new_service, (shared_database,)),
    ensures
        *r.2 == database,
        call_ensures(new_service, (r.2,), *r.1),
        routes(r.0) == data_routes(*paths, handlers, seq![Layering::Extension]),
        refusals(r.0) == refusals_within(data_keys(*paths), seq![Layering::Extension]),
        exists|inner: Router| shared(inner, r.1, r.0),
{
    let database = Arc::new(database);
    let service = Arc::new(new_service(database.clone()));
    let ghost keys = data_keys(*paths);
    assert(keys[0].path == paths.api@ + paths.proposer_payload_delivered@);
    assert(keys[1].path == paths.api@ + paths.builder_bids_received@);
    assert(keys[2].path == paths.api@ + paths.validator_registration@);
    let router = new_router();
    let router = route_get(
        router,
        join(&paths.api, &paths.proposer_payload_delivered).as_str(),
        handlers.proposer_payload_delivered,
    );
    let router = route_get(
        router,
        join(&paths.api, &paths.builder_bids_received).as_str(),
        handlers.builder_bids_received,
    );
    let router = route_get(
        router,
        join(&paths.api, &paths.validator_registration).as_str(),
        handlers.validator_registration,
    );
    let ghost inner = router;
    let router = share(router, service.clone());
    assert(routes(router) =~~= data_routes(*paths, handlers, seq![Layering::Extension]));
    assert(refusals(router) =~~= refusals_within(keys, seq![Layering::Extension]));
    let r = (router, service, database);
    assert(shared(inner, r.1, r.0));
    r
}

} // verus!
