//! What a call of each application promises, said of its arguments and its result alone.
//!
//! The numbers and the patterns are written out here, and a law asks of the patterns only that no
//! route is there twice.

use crate::builder::{
    builder_api_app, builder_api_app_on_own_runtime, builder_api_mountable, serves_builder_api,
    BuilderHandlers, RelayPaths,
};
use crate::channels::{opened, PROPOSER_GOSSIP_CAPACITY, SLOT_UPDATE_CAPACITY};
use crate::combined::{app, app_mountable};
use crate::constraints::{
    constraints_api_app, constraints_api_mountable, ConstraintsHandlers,
};
use crate::data::{data_api_app, data_api_mountable, DataHandlers, DataPaths};
use crate::pattern::{mountable, RouteKey, Verb};
use crate::proposer::{
    proposer_api_app, proposer_api_mountable, ProposerHandlers, ProposerPaths,
};
use crate::reply::{timeout_reply, unhandled_reply};
use crate::routing::{guarded, law_guarded, law_shared, refusals, routes, shared, Layering};
use crate::runtime::{keeps_time, refused, started, timed_runtime};
use axum::routing::MethodRouter;
use axum::Router;
use std::sync::Arc;
use tokio::runtime::{Handle, Runtime};
use tokio::sync::mpsc::{Receiver, Sender};
use vstd::prelude::*;

verus! {

/// `handler` is what answers `verb` on `path` in `router`.
pub open spec fn answers(
    router: Router,
    verb: Verb,
    path: Seq<char>,
    handler: MethodRouter,
) -> bool {
    &&& routes(router).contains_key(RouteKey { path, verb })
    &&& routes(router)[RouteKey { path, verb }].handler == handler
}

/// `GET` on each of the three paths of the data API is answered by the handler of that name, and
/// nothing else is answered. No body is limited. Every handler finds the service at its disposal,
/// since the router that the service was shared into held all routes already, and the service has
/// the caller's database.
pub proof fn law_data_api_app<M, D, F>(
    paths: &DataPaths,
    handlers: DataHandlers,
    database: M,
    new_service: F,
    r: (Router, Arc<D>, Arc<M>),
) where D: Send + Sync + 'static, F: FnOnce(Arc<M>) -> D
    requires
        call_ensures(data_api_app::<M, D, F>, (paths, handlers, database, new_service), r),
        seq![
            paths.api@ + paths.proposer_payload_delivered@,
            paths.api@ + paths.builder_bids_received@,
            paths.api@ + paths.validator_registration@,
        ].no_duplicates(),
    ensures
        answers(
            r.0,
            Verb::Get,
            paths.api@ + paths.proposer_payload_delivered@,
            handlers.proposer_payload_delivered,
        ),
        answers(
            r.0,
            Verb::Get,
            paths.api@ + paths.builder_bids_received@,
            handlers.builder_bids_received,
        ),
        answers(
            r.0,
            Verb::Get,
            paths.api@ + paths.validator_registration@,
            handlers.validator_registration,
        ),
        forall|key: RouteKey| #[trigger]
            routes(r.0).contains_key(key) ==> match key.verb {
                Verb::Get => {
                    ||| key.path == paths.api@ + paths.proposer_payload_delivered@
                    ||| key.path == paths.api@ + paths.builder_bids_received@
                    ||| key.path == paths.api@ + paths.validator_registration@
                },
                Verb::Post => false,
            },
        forall|spot: Option<Seq<char>>| #[trigger]
            refusals(r.0).contains_key(spot) <==> match spot {
                None => true,
                Some(path) => {
                    ||| path == paths.api@ + paths.proposer_payload_delivered@
                    ||| path == paths.api@ + paths.builder_bids_received@
                    ||| path == paths.api@ + paths.validator_registration@
                },
            },
        forall|key: RouteKey| #[trigger]
            routes(r.0).contains_key(key) ==> routes(r.0)[key].layers == seq![Layering::Extension],
        forall|spot: Option<Seq<char>>| #[trigger]
            refusals(r.0).contains_key(spot) ==> refusals(r.0)[spot] == seq![Layering::Extension],
        *r.2 == database,
        call_ensures(new_service, (r.2,), *r.1),
        exists|inner: Router|
            #[trigger] shared(inner, r.1, r.0) && routes(inner).dom() == routes(r.0).dom(),
{
    let inner = choose|inner: Router| shared(inner, r.1, r.0);
    law_shared(inner, r.1, r.0);
    assert(routes(inner).dom() =~= routes(r.0).dom());
}

/// The data API can be served on all paths that a router takes.
pub proof fn law_data_api_app_takes_all_mountable_paths<M, D, F>(
    paths: &DataPaths,
    handlers: DataHandlers,
    database: M,
    new_service: F,
) where D: Send + Sync + 'static, F: FnOnce(Arc<M>) -> D
    requires
        mountable(seq![
            RouteKey { path: paths.api@ + paths.proposer_payload_delivered@, verb: Verb::Get },
            RouteKey { path: paths.api@ + paths.builder_bids_received@, verb: Verb::Get },
            RouteKey { path: paths.api@ + paths.validator_registration@, verb: Verb::Get },
        ]),
        forall|shared_database: Arc<M>|
            *shared_database == database ==> call_requires(new_service, (shared_database,)),
    ensures
        call_requires(data_api_app::<M, D, F>, (paths, handlers, database, new_service)),
{
}

/// [`data_api_mountable`] tells whether a router takes the three routes of the data API.
pub proof fn law_data_api_mountable(paths: &DataPaths, r: bool)
    requires
        call_ensures(data_api_mountable, (paths,), r),
    ensures
        r == mountable(seq![
            RouteKey { path: paths.api@ + paths.proposer_payload_delivered@, verb: Verb::Get },
            RouteKey { path: paths.api@ + paths.builder_bids_received@, verb: Verb::Get },
            RouteKey { path: paths.api@ + paths.validator_registration@, verb: Verb::Get },
        ]),
{
}

/// The proposer API answers headers, headers with proofs, payloads and registrations by the handler
/// of that name, and nothing else. Bodies are held to the limit on registrations and, except on the
/// route of the registrations, to the limit on blinded blocks. Every handler finds the service at
/// its disposal, since the router that the service was shared into held all routes already. The
/// service has the caller's auctioneer, the sending end of the caller's channel of 32, and the
/// receiving end of another channel of 32.
pub proof fn law_proposer_api_app<U, G, A, P, F>(
    paths: &ProposerPaths,
    handlers: ProposerHandlers,
    max_blinded_block_length: usize,
    max_val_registrations_length: usize,
    auctioneer: A,
    new_service: F,
    r: (Router, Arc<P>, Receiver<Sender<U>>, Arc<A>),
) where
    P: Send + Sync + 'static,
    F: FnOnce(Arc<A>, Sender<Sender<U>>, Receiver<G>) -> P,

    requires
        call_ensures(
            proposer_api_app::<U, G, A, P, F>,
            (
                paths,
                handlers,
                max_blinded_block_length,
                max_val_registrations_length,
                auctioneer,
                new_service,
            ),
            r,
        ),
        seq![
            paths.api@ + paths.get_header@,
            paths.api@ + paths.get_header_with_proofs@,
        ].no_duplicates(),
        seq![
            paths.api@ + paths.get_payload@,
            paths.api@ + paths.register_validators@,
        ].no_duplicates(),
    ensures
        answers(r.0, Verb::Get, paths.api@ + paths.get_header@, handlers.get_header),
        answers(
            r.0,
            Verb::Get,
            paths.api@ + paths.get_header_with_proofs@,
            handlers.get_header_with_proofs,
        ),
        answers(r.0, Verb::Post, paths.api@ + paths.get_payload@, handlers.get_payload),
        answers(
            r.0,
            Verb::Post,
            paths.api@ + paths.register_validators@,
            handlers.register_validators,
        ),
        forall|key: RouteKey| #[trigger]
            routes(r.0).contains_key(key) ==> match key.verb {
                Verb::Get => {
                    ||| key.path == paths.api@ + paths.get_header@
                    ||| key.path == paths.api@ + paths.get_header_with_proofs@
                },
                Verb::Post => {
                    ||| key.path == paths.api@ + paths.get_payload@
                    ||| key.path == paths.api@ + paths.register_validators@
                },
            },
        forall|spot: Option<Seq<char>>| #[trigger]
            refusals(r.0).contains_key(spot) <==> match spot {
                None => true,
                Some(path) => {
                    ||| path == paths.api@ + paths.get_header@
                    ||| path == paths.api@ + paths.get_header_with_proofs@
                    ||| path == paths.api@ + paths.get_payload@
                    ||| path == paths.api@ + paths.register_validators@
                },
            },
        forall|key: RouteKey| #[trigger]
            routes(r.0).contains_key(key) ==> routes(r.0)[key].layers == if key == (RouteKey {
                path: paths.api@ + paths.register_validators@,
                verb: Verb::Post,
            }) {
                seq![
                    Layering::BodyLimit { bytes: max_val_registrations_length },
                    Layering::Extension,
                ]
            } else {
                seq![
                    Layering::BodyLimit { bytes: max_blinded_block_length },
                    Layering::BodyLimit { bytes: max_val_registrations_length },
                    Layering::Extension,
                ]
            },
        forall|spot: Option<Seq<char>>| #[trigger]
            refusals(r.0).contains_key(spot) ==> refusals(r.0)[spot] == if spot == Some(
                paths.api@ + paths.register_validators@,
            ) {
                seq![
                    Layering::BodyLimit { bytes: max_val_registrations_length },
                    Layering::Extension,
                ]
            } else {
                seq![
                    Layering::BodyLimit { bytes: max_blinded_block_length },
                    Layering::BodyLimit { bytes: max_val_registrations_length },
                    Layering::Extension,
                ]
            },
        *r.3 == auctioneer,
        exists|slot_updates: Sender<Sender<U>>, gossip_source: Sender<G>, gossip: Receiver<G>|
            {
                &&& #[trigger] call_ensures(
                    tokio::sync::mpsc::channel::<Sender<U>>,
                    (32usize,),
                    (slot_updates, r.2),
                )
                &&& #[trigger] call_ensures(
                    tokio::sync::mpsc::channel::<G>,
                    (32usize,),
                    (gossip_source, gossip),
                )
                &&& call_ensures(new_service, (r.3, slot_updates, gossip), *r.1)
            },
        exists|inner: Router|
            #[trigger] shared(inner, r.1, r.0) && routes(inner).dom() == routes(r.0).dom(),
{
    let inner = choose|inner: Router| shared(inner, r.1, r.0);
    law_shared(inner, r.1, r.0);
    assert(routes(inner).dom() =~= routes(r.0).dom());
}

/// The proposer API can be served on all paths that a router takes.
pub proof fn law_proposer_api_app_takes_all_mountable_paths<U, G, A, P, F>(
    paths: &ProposerPaths,
    handlers: ProposerHandlers,
    max_blinded_block_length: usize,
    max_val_registrations_length: usize,
    auctioneer: A,
    new_service: F,
) where
    P: Send + Sync + 'static,
    F: FnOnce(Arc<A>, Sender<Sender<U>>, Receiver<G>) -> P,

    requires
        mountable(seq![
            RouteKey { path: paths.api@ + paths.get_header@, verb: Verb::Get },
            RouteKey { path: paths.api@ + paths.get_header_with_proofs@, verb: Verb::Get },
            RouteKey { path: paths.api@ + paths.get_payload@, verb: Verb::Post },
            RouteKey { path: paths.api@ + paths.register_validators@, verb: Verb::Post },
        ]),
        forall|shared_auctioneer: Arc<A>, slot_updates: Sender<Sender<U>>, gossip: Receiver<G>|
            *shared_auctioneer == auctioneer ==> call_requires(
                new_service,
                (shared_auctioneer, slot_updates, gossip),
            ),
    ensures
        call_requires(
            proposer_api_app::<U, G, A, P, F>,
            (
                paths,
                handlers,
                max_blinded_block_length,
                max_val_registrations_length,
                auctioneer,
                new_service,
            ),
        ),
{
}

/// [`proposer_api_mountable`] tells whether a router takes the four routes of the proposer API.
pub proof fn law_proposer_api_mountable(paths: &ProposerPaths, r: bool)
    requires
        call_ensures(proposer_api_mountable, (paths,), r),
    ensures
        r == mountable(seq![
            RouteKey { path: paths.api@ + paths.get_header@, verb: Verb::Get },
            RouteKey { path: paths.api@ + paths.get_header_with_proofs@, verb: Verb::Get },
            RouteKey { path: paths.api@ + paths.get_payload@, verb: Verb::Post },
            RouteKey { path: paths.api@ + paths.register_validators@, verb: Verb::Post },
        ]),
{
}

/// The application of both APIs answers the status, the registrations, headers, headers with proofs
/// and payloads below the path of the proposer API, and the three records below the path of the
/// data API, each by the handler of that name, and nothing else. No body is limited. Every handler
/// finds both services at its disposal, since the router that they were shared into held all routes
/// already. The proposer service has the ends of two channels of 32, and the data service is the
/// caller's.
pub proof fn law_app<U, G, P, D, F>(
    proposer: &ProposerPaths,
    data: &DataPaths,
    proposer_handlers: ProposerHandlers,
    data_handlers: DataHandlers,
    new_proposer: F,
    data_service: D,
    r: Router,
) where
    P: Send + Sync + 'static,
    D: Send + Sync + 'static,
    F: FnOnce(Sender<Sender<U>>, Receiver<G>) -> P,

    requires
        call_ensures(
            app::<U, G, P, D, F>,
            (proposer, data, proposer_handlers, data_handlers, new_proposer, data_service),
            r,
        ),
        seq![
            proposer.api@ + proposer.status@,
            proposer.api@ + proposer.get_header@,
            proposer.api@ + proposer.get_header_with_proofs@,
            data.api@ + data.proposer_payload_delivered@,
            data.api@ + data.builder_bids_received@,
            data.api@ + data.validator_registration@,
        ].no_duplicates(),
        seq![
            proposer.api@ + proposer.register_validators@,
            proposer.api@ + proposer.get_payload@,
        ].no_duplicates(),
    ensures
        answers(r, Verb::Get, proposer.api@ + proposer.status@, proposer_handlers.status),
        answers(
            r,
            Verb::Post,
            proposer.api@ + proposer.register_validators@,
            proposer_handlers.register_validators,
        ),
        answers(r, Verb::Get, proposer.api@ + proposer.get_header@, proposer_handlers.get_header),
        answers(
            r,
            Verb::Get,
            proposer.api@ + proposer.get_header_with_proofs@,
            proposer_handlers.get_header_with_proofs,
        ),
        answers(
            r,
            Verb::Post,
            proposer.api@ + proposer.get_payload@,
            proposer_handlers.get_payload,
        ),
        answers(
            r,
            Verb::Get,
            data.api@ + data.proposer_payload_delivered@,
            data_handlers.proposer_payload_delivered,
        ),
        answers(
            r,
            Verb::Get,
            data.api@ + data.builder_bids_received@,
            data_handlers.builder_bids_received,
        ),
        answers(
            r,
            Verb::Get,
            data.api@ + data.validator_registration@,
            data_handlers.validator_registration,
        ),
        forall|key: RouteKey| #[trigger]
            routes(r).contains_key(key) ==> match key.verb {
                Verb::Get => {
                    ||| key.path == proposer.api@ + proposer.status@
                    ||| key.path == proposer.api@ + proposer.get_header@
                    ||| key.path == proposer.api@ + proposer.get_header_with_proofs@
                    ||| key.path == data.api@ + data.proposer_payload_delivered@
                    ||| key.path == data.api@ + data.builder_bids_received@
                    ||| key.path == data.api@ + data.validator_registration@
                },
                Verb::Post => {
                    ||| key.path == proposer.api@ + proposer.register_validators@
                    ||| key.path == proposer.api@ + proposer.get_payload@
                },
            },
        forall|spot: Option<Seq<char>>| #[trigger]
            refusals(r).contains_key(spot) <==> match spot {
                None => true,
                Some(path) => {
                    ||| path == proposer.api@ + proposer.status@
                    ||| path == proposer.api@ + proposer.register_validators@
                    ||| path == proposer.api@ + proposer.get_header@
                    ||| path == proposer.api@ + proposer.get_header_with_proofs@
                    ||| path == proposer.api@ + proposer.get_payload@
                    ||| path == data.api@ + data.proposer_payload_delivered@
                    ||| path == data.api@ + data.builder_bids_received@
                    ||| path == data.api@ + data.validator_registration@
                },
            },
        forall|key: RouteKey| #[trigger]
            routes(r).contains_key(key) ==> routes(r)[key].layers == seq![
                Layering::Extension,
                Layering::Extension,
            ],
        forall|spot: Option<Seq<char>>| #[trigger]
            refusals(r).contains_key(spot) ==> refusals(r)[spot] == seq![
                Layering::Extension,
                Layering::Extension,
            ],
        exists|
            slot_updates: Sender<Sender<U>>,
            subscriptions: Receiver<Sender<U>>,
            gossip_source: Sender<G>,
            gossip: Receiver<G>,
            proposer_service: Arc<P>,
            shared_data: Arc<D>,
            inner: Router,
            outer: Router,
        |
            {
                &&& #[trigger] call_ensures(
                    tokio::sync::mpsc::channel::<Sender<U>>,
                    (32usize,),
                    (slot_updates, subscriptions),
                )
                &&& #[trigger] call_ensures(
                    tokio::sync::mpsc::channel::<G>,
                    (32usize,),
                    (gossip_source, gossip),
                )
                &&& call_ensures(new_proposer, (slot_updates, gossip), *proposer_service)
                &&& *shared_data == data_service
                &&& #[trigger] shared(inner, proposer_service, outer)
                &&& #[trigger] shared(outer, shared_data, r)
                &&& routes(inner).dom() == routes(r).dom()
                &&& routes(outer).dom() == routes(r).dom()
            },
{
    let (
        slot_updates,
        subscriptions,
        gossip_source,
        gossip,
        proposer_service,
        shared_data,
        inner,
        outer,
    ) = choose|
        slot_updates: Sender<Sender<U>>,
        subscriptions: Receiver<Sender<U>>,
        gossip_source: Sender<G>,
        gossip: Receiver<G>,
        proposer_service: Arc<P>,
        shared_data: Arc<D>,
        inner: Router,
        outer: Router,
    |
        {
            &&& #[trigger] opened(SLOT_UPDATE_CAPACITY, slot_updates, subscriptions)
            &&& #[trigger] opened(PROPOSER_GOSSIP_CAPACITY, gossip_source, gossip)
            &&& call_ensures(new_proposer, (slot_updates, gossip), *proposer_service)
            &&& *shared_data == data_service
            &&& #[trigger] shared(inner, proposer_service, outer)
            &&& #[trigger] shared(outer, shared_data, r)
        };
    law_shared(inner, proposer_service, outer);
    law_shared(outer, shared_data, r);
    assert(routes(inner).dom() =~= routes(r).dom());
    assert(routes(outer).dom() =~= routes(r).dom());
    assert(call_ensures(
        tokio::sync::mpsc::channel::<Sender<U>>,
        (32usize,),
        (slot_updates, subscriptions),
    ));
    assert(call_ensures(
        tokio::sync::mpsc::channel::<G>,
        (32usize,),
        (gossip_source, gossip),
    ));
}

/// Both APIs can be served together on all paths that a router takes.
pub proof fn law_app_takes_all_mountable_paths<U, G, P, D, F>(
    proposer: &ProposerPaths,
    data: &DataPaths,
    proposer_handlers: ProposerHandlers,
    data_handlers: DataHandlers,
    new_proposer: F,
    data_service: D,
) where
    P: Send + Sync + 'static,
    D: Send + Sync + 'static,
    F: FnOnce(Sender<Sender<U>>, Receiver<G>) -> P,

    requires
        mountable(seq![
            RouteKey { path: proposer.api@ + proposer.status@, verb: Verb::Get },
            RouteKey { path: proposer.api@ + proposer.register_validators@, verb: Verb::Post },
            RouteKey { path: proposer.api@ + proposer.get_header@, verb: Verb::Get },
            RouteKey { path: proposer.api@ + proposer.get_header_with_proofs@, verb: Verb::Get },
            RouteKey { path: proposer.api@ + proposer.get_payload@, verb: Verb::Post },
            RouteKey { path: data.api@ + data.proposer_payload_delivered@, verb: Verb::Get },
            RouteKey { path: data.api@ + data.builder_bids_received@, verb: Verb::Get },
            RouteKey { path: data.api@ + data.validator_registration@, verb: Verb::Get },
        ]),
        forall|slot_updates: Sender<Sender<U>>, gossip: Receiver<G>|
            call_requires(new_proposer, (slot_updates, gossip)),
    ensures
        call_requires(
            app::<U, G, P, D, F>,
            (proposer, data, proposer_handlers, data_handlers, new_proposer, data_service),
        ),
{
}

/// [`app_mountable`] tells whether a router takes the eight routes of both APIs together.
pub proof fn law_app_mountable(proposer: &ProposerPaths, data: &DataPaths, r: bool)
    requires
        call_ensures(app_mountable, (proposer, data), r),
    ensures
        r == mountable(seq![
            RouteKey { path: proposer.api@ + proposer.status@, verb: Verb::Get },
            RouteKey { path: proposer.api@ + proposer.register_validators@, verb: Verb::Post },
            RouteKey { path: proposer.api@ + proposer.get_header@, verb: Verb::Get },
            RouteKey { path: proposer.api@ + proposer.get_header_with_proofs@, verb: Verb::Get },
            RouteKey { path: proposer.api@ + proposer.get_payload@, verb: Verb::Post },
            RouteKey { path: data.api@ + data.proposer_payload_delivered@, verb: Verb::Get },
            RouteKey { path: data.api@ + data.builder_bids_received@, verb: Verb::Get },
            RouteKey { path: data.api@ + data.validator_registration@, verb: Verb::Get },
        ]),
{
}

proof fn lemma_serves_builder_api<U, G, B, H, F>(
    paths: &RelayPaths,
    handlers: BuilderHandlers,
    max_payload_length: usize,
    runtime: &Handle,
    new_service: F,
    r: (Router, Arc<B>, Receiver<Sender<U>>, H),
) where
    B: Send + Sync + 'static,
    F: FnOnce(Sender<Sender<U>>, Receiver<G>) -> (B, H),

    requires
        serves_builder_api::<U, G, B, H, F>(
            *paths,
            handlers,
            max_payload_length,
            *runtime,
            new_service,
            r,
        ),
        seq![
            paths.get_validators@,
            paths.get_top_bid@,
            paths.get_builder_constraints_stream@,
            paths.get_builder_constraints@,
        ].no_duplicates(),
    ensures
        answers(r.0, Verb::Get, paths.get_validators@, handlers.get_validators),
        answers(r.0, Verb::Post, paths.submit_block@, handlers.submit_block),
        answers(r.0, Verb::Get, paths.get_top_bid@, handlers.get_top_bid),
        answers(r.0, Verb::Get, paths.get_builder_constraints_stream@, handlers.constraints_stream),
        answers(r.0, Verb::Get, paths.get_builder_constraints@, handlers.constraints),
        forall|key: RouteKey| #[trigger]
            routes(r.0).contains_key(key) ==> match key.verb {
                Verb::Get => {
                    ||| key.path == paths.get_validators@
                    ||| key.path == paths.get_top_bid@
                    ||| key.path == paths.get_builder_constraints_stream@
                    ||| key.path == paths.get_builder_constraints@
                },
                Verb::Post => {
                    ||| key.path == paths.submit_block@
                },
            },
        forall|spot: Option<Seq<char>>| #[trigger]
            refusals(r.0).contains_key(spot) <==> match spot {
                None => true,
                Some(path) => {
                    ||| path == paths.get_validators@
                    ||| path == paths.submit_block@
                    ||| path == paths.get_top_bid@
                    ||| path == paths.get_builder_constraints_stream@
                    ||| path == paths.get_builder_constraints@
                },
            },
        forall|key: RouteKey| #[trigger]
            routes(r.0).contains_key(key) ==> routes(r.0)[key].layers == seq![
                Layering::BodyLimit { bytes: max_payload_length },
                Layering::Extension,
                Layering::RateLimit { requests: 100, seconds: 1 },
                Layering::Buffer { waiting: 4096 },
                Layering::AnswerErrors { status: 500 },
                Layering::Timeout { seconds: 5 },
                Layering::AnswerTimeouts { status: 408 },
            ],
        forall|spot: Option<Seq<char>>| #[trigger]
            refusals(r.0).contains_key(spot) ==> refusals(r.0)[spot] == seq![
                Layering::BodyLimit { bytes: max_payload_length },
                Layering::Extension,
                Layering::RateLimit { requests: 100, seconds: 1 },
                Layering::Buffer { waiting: 4096 },
                Layering::AnswerErrors { status: 500 },
                Layering::Timeout { seconds: 5 },
                Layering::AnswerTimeouts { status: 408 },
            ],
        exists|slot_updates: Sender<Sender<U>>, gossip_source: Sender<G>, gossip: Receiver<G>|
            {
                &&& #[trigger] call_ensures(
                    tokio::sync::mpsc::channel::<Sender<U>>,
                    (32usize,),
                    (slot_updates, r.2),
                )
                &&& #[trigger] call_ensures(
                    tokio::sync::mpsc::channel::<G>,
                    (10usize,),
                    (gossip_source, gossip),
                )
                &&& call_ensures(new_service, (slot_updates, gossip), (*r.1, r.3))
            },
        exists|inner: Router, outer: Router|
            {
                &&& #[trigger] shared(inner, r.1, outer)
                &&& #[trigger] guarded(outer, runtime, 5, 4096, 100, 1, r.0)
                &&& routes(inner).dom() == routes(r.0).dom()
                &&& routes(outer).dom() == routes(r.0).dom()
            },
{
    let (inner, outer) = choose|inner: Router, outer: Router|
        #[trigger] shared(inner, r.1, outer) && #[trigger] guarded(
            outer,
            runtime,
            5,
            4096,
            100,
            1,
            r.0,
        );
    law_shared(inner, r.1, outer);
    law_guarded(outer, runtime, 5, 4096, 100, 1, r.0);
    assert(routes(inner).dom() =~= routes(r.0).dom());
    assert(routes(outer).dom() =~= routes(r.0).dom());
}

/// The builder API answers validators, blocks, the top bid, the stream of constraints and the
/// constraints by the handler of that name, and nothing else. Around every route stand, from the
/// inside out, the limit on payloads, the service, a rate of 100 requests in a second, a line of
/// 4096, the answer to failures with 500, a time limit of 5 seconds, and the answer to those that
/// exceed it with 408. Every handler finds the service at its disposal, since the router that the
/// service was shared into held all routes already. The service has the sending end of the caller's
/// channel of 32, and the receiving end of a channel of 10.
pub proof fn law_builder_api_app<U, G, B, H, F>(
    paths: &RelayPaths,
    handlers: BuilderHandlers,
    max_payload_length: usize,
    runtime: &Handle,
    new_service: F,
    r: (Router, Arc<B>, Receiver<Sender<U>>, H),
) where
    B: Send + Sync + 'static,
    F: FnOnce(Sender<Sender<U>>, Receiver<G>) -> (B, H),

    requires
        call_ensures(
            builder_api_app::<U, G, B, H, F>,
            (paths, handlers, max_payload_length, runtime, new_service),
            r,
        ),
        seq![
            paths.get_validators@,
            paths.get_top_bid@,
            paths.get_builder_constraints_stream@,
            paths.get_builder_constraints@,
        ].no_duplicates(),
    ensures
        answers(r.0, Verb::Get, paths.get_validators@, handlers.get_validators),
        answers(r.0, Verb::Post, paths.submit_block@, handlers.submit_block),
        answers(r.0, Verb::Get, paths.get_top_bid@, handlers.get_top_bid),
        answers(r.0, Verb::Get, paths.get_builder_constraints_stream@, handlers.constraints_stream),
        answers(r.0, Verb::Get, paths.get_builder_constraints@, handlers.constraints),
        forall|key: RouteKey| #[trigger]
            routes(r.0).contains_key(key) ==> match key.verb {
                Verb::Get => {
                    ||| key.path == paths.get_validators@
                    ||| key.path == paths.get_top_bid@
                    ||| key.path == paths.get_builder_constraints_stream@
                    ||| key.path == paths.get_builder_constraints@
                },
                Verb::Post => {
                    ||| key.path == paths.submit_block@
                },
            },
        forall|spot: Option<Seq<char>>| #[trigger]
            refusals(r.0).contains_key(spot) <==> match spot {
                None => true,
                Some(path) => {
                    ||| path == paths.get_validators@
                    ||| path == paths.submit_block@
                    ||| path == paths.get_top_bid@
                    ||| path == paths.get_builder_constraints_stream@
                    ||| path == paths.get_builder_constraints@
                },
            },
        forall|key: RouteKey| #[trigger]
            routes(r.0).contains_key(key) ==> routes(r.0)[key].layers == seq![
                Layering::BodyLimit { bytes: max_payload_length },
                Layering::Extension,
                Layering::RateLimit { requests: 100, seconds: 1 },
                Layering::Buffer { waiting: 4096 },
                Layering::AnswerErrors { status: 500 },
                Layering::Timeout { seconds: 5 },
                Layering::AnswerTimeouts { status: 408 },
            ],
        forall|spot: Option<Seq<char>>| #[trigger]
            refusals(r.0).contains_key(spot) ==> refusals(r.0)[spot] == seq![
                Layering::BodyLimit { bytes: max_payload_length },
                Layering::Extension,
                Layering::RateLimit { requests: 100, seconds: 1 },
                Layering::Buffer { waiting: 4096 },
                Layering::AnswerErrors { status: 500 },
                Layering::Timeout { seconds: 5 },
                Layering::AnswerTimeouts { status: 408 },
            ],
        exists|slot_updates: Sender<Sender<U>>, gossip_source: Sender<G>, gossip: Receiver<G>|
            {
                &&& #[trigger] call_ensures(
                    tokio::sync::mpsc::channel::<Sender<U>>,
                    (32usize,),
                    (slot_updates, r.2),
                )
                &&& #[trigger] call_ensures(
                    tokio::sync::mpsc::channel::<G>,
                    (10usize,),
                    (gossip_source, gossip),
                )
                &&& call_ensures(new_service, (slot_updates, gossip), (*r.1, r.3))
            },
        exists|inner: Router, outer: Router|
            {
                &&& #[trigger] shared(inner, r.1, outer)
                &&& #[trigger] guarded(outer, runtime, 5, 4096, 100, 1, r.0)
                &&& routes(inner).dom() == routes(r.0).dom()
                &&& routes(outer).dom() == routes(r.0).dom()
            },
{
    lemma_serves_builder_api::<U, G, B, H, F>(
        paths,
        handlers,
        max_payload_length,
        runtime,
        new_service,
        r,
    );
}

/// The builder API can be served on all paths that a router takes and on every runtime that keeps
/// time, and it can bring a runtime itself.
pub proof fn law_builder_api_app_takes_all_mountable_paths<U, G, B, H, F>(
    paths: &RelayPaths,
    handlers: BuilderHandlers,
    max_payload_length: usize,
    runtime: &Handle,
    new_service: F,
) where
    B: Send + Sync + 'static,
    F: FnOnce(Sender<Sender<U>>, Receiver<G>) -> (B, H),

    requires
        mountable(seq![
            RouteKey { path: paths.get_validators@, verb: Verb::Get },
            RouteKey { path: paths.submit_block@, verb: Verb::Post },
            RouteKey { path: paths.get_top_bid@, verb: Verb::Get },
            RouteKey { path: paths.get_builder_constraints_stream@, verb: Verb::Get },
            RouteKey { path: paths.get_builder_constraints@, verb: Verb::Get },
        ]),
        forall|slot_updates: Sender<Sender<U>>, gossip: Receiver<G>|
            call_requires(new_service, (slot_updates, gossip)),
    ensures
        keeps_time(*runtime) ==> call_requires(
            builder_api_app::<U, G, B, H, F>,
            (paths, handlers, max_payload_length, runtime, new_service),
        ),
        call_requires(
            builder_api_app_on_own_runtime::<U, G, B, H, F>,
            (paths, handlers, max_payload_length, new_service),
        ),
{
}

/// On a runtime of its own, which keeps time, the builder API is what it is on any other; and only
/// where no runtime could be had is there none.
pub proof fn law_builder_api_app_on_own_runtime<U, G, B, H, F>(
    paths: &RelayPaths,
    handlers: BuilderHandlers,
    max_payload_length: usize,
    new_service: F,
    r: Option<(Runtime, (Router, Arc<B>, Receiver<Sender<U>>, H))>,
) -> (handle: Handle) where
    B: Send + Sync + 'static,
    F: FnOnce(Sender<Sender<U>>, Receiver<G>) -> (B, H),

    requires
        call_ensures(
            builder_api_app_on_own_runtime::<U, G, B, H, F>,
            (paths, handlers, max_payload_length, new_service),
            r,
        ),
        seq![
            paths.get_validators@,
            paths.get_top_bid@,
            paths.get_builder_constraints_stream@,
            paths.get_builder_constraints@,
        ].no_duplicates(),
    ensures
        r is None ==> refused(),
        r matches Some(pair) ==> {
            &&& started(pair.0, handle)
            &&& answers(pair.1.0, Verb::Get, paths.get_validators@, handlers.get_validators)
            &&& answers(pair.1.0, Verb::Post, paths.submit_block@, handlers.submit_block)
            &&& answers(pair.1.0, Verb::Get, paths.get_top_bid@, handlers.get_top_bid)
            &&& answers(
                pair.1.0,
                Verb::Get,
                paths.get_builder_constraints_stream@,
                handlers.constraints_stream,
            )
            &&& answers(pair.1.0, Verb::Get, paths.get_builder_constraints@, handlers.constraints)
            &&& (forall|key: RouteKey| #[trigger]
                routes(pair.1.0).contains_key(key) ==> match key.verb {
                    Verb::Get => {
                        ||| key.path == paths.get_validators@
                        ||| key.path == paths.get_top_bid@
                        ||| key.path == paths.get_builder_constraints_stream@
                        ||| key.path == paths.get_builder_constraints@
                    },
                    Verb::Post => {
                        ||| key.path == paths.submit_block@
                    },
                })
            &&& (forall|spot: Option<Seq<char>>| #[trigger]
                refusals(pair.1.0).contains_key(spot) <==> match spot {
                    None => true,
                    Some(path) => {
                        ||| path == paths.get_validators@
                        ||| path == paths.submit_block@
                        ||| path == paths.get_top_bid@
                        ||| path == paths.get_builder_constraints_stream@
                        ||| path == paths.get_builder_constraints@
                    },
                })
            &&& (forall|key: RouteKey| #[trigger]
                routes(pair.1.0).contains_key(key) ==> routes(pair.1.0)[key].layers == seq![
                    Layering::BodyLimit { bytes: max_payload_length },
                    Layering::Extension,
                    Layering::RateLimit { requests: 100, seconds: 1 },
                    Layering::Buffer { waiting: 4096 },
                    Layering::AnswerErrors { status: 500 },
                    Layering::Timeout { seconds: 5 },
                    Layering::AnswerTimeouts { status: 408 },
                ])
            &&& (forall|spot: Option<Seq<char>>| #[trigger]
                refusals(pair.1.0).contains_key(spot) ==> refusals(pair.1.0)[spot] == seq![
                    Layering::BodyLimit { bytes: max_payload_length },
                    Layering::Extension,
                    Layering::RateLimit { requests: 100, seconds: 1 },
                    Layering::Buffer { waiting: 4096 },
                    Layering::AnswerErrors { status: 500 },
                    Layering::Timeout { seconds: 5 },
                    Layering::AnswerTimeouts { status: 408 },
                ])
            &&& (exists|
                slot_updates: Sender<Sender<U>>,
                gossip_source: Sender<G>,
                gossip: Receiver<G>,
            |
                {
                    &&& #[trigger] call_ensures(
                        tokio::sync::mpsc::channel::<Sender<U>>,
                        (32usize,),
                        (slot_updates, pair.1.2),
                    )
                    &&& #[trigger] call_ensures(
                        tokio::sync::mpsc::channel::<G>,
                        (10usize,),
                        (gossip_source, gossip),
                    )
                    &&& call_ensures(new_service, (slot_updates, gossip), (*pair.1.1, pair.1.3))
                })
            &&& (exists|inner: Router, outer: Router|
                {
                    &&& #[trigger] shared(inner, pair.1.1, outer)
                    &&& #[trigger] guarded(outer, &handle, 5, 4096, 100, 1, pair.1.0)
                    &&& routes(inner).dom() == routes(pair.1.0).dom()
                    &&& routes(outer).dom() == routes(pair.1.0).dom()
                })
        },
{
    match r {
        Some(pair) => {
            let handle = choose|handle: Handle|
                #[trigger] started(pair.0, handle) && serves_builder_api::<U, G, B, H, F>(
                    *paths,
                    handlers,
                    max_payload_length,
                    handle,
                    new_service,
                    pair.1,
                );
            lemma_serves_builder_api::<U, G, B, H, F>(
                paths,
                handlers,
                max_payload_length,
                &handle,
                new_service,
                pair.1,
            );
            handle
        },
        None => arbitrary(),
    }
}

/// [`builder_api_mountable`] tells whether a router takes the five routes of the builder API.
pub proof fn law_builder_api_mountable(paths: &RelayPaths, r: bool)
    requires
        call_ensures(builder_api_mountable, (paths,), r),
    ensures
        r == mountable(seq![
            RouteKey { path: paths.get_validators@, verb: Verb::Get },
            RouteKey { path: paths.submit_block@, verb: Verb::Post },
            RouteKey { path: paths.get_top_bid@, verb: Verb::Get },
            RouteKey { path: paths.get_builder_constraints_stream@, verb: Verb::Get },
            RouteKey { path: paths.get_builder_constraints@, verb: Verb::Get },
        ]),
{
}

/// The builder API and the constraints API together answer validators, blocks, the top bid, the
/// constraints, their stream and the delegations by the builder's handler of that name, and
/// submitted constraints, delegations of rights and their revocation by the handler of that name,
/// and nothing else. Bodies are held to the limit on payloads. Every handler finds both services at
/// its disposal, since the router that they were shared into held all routes already. The services
/// share the auctioneer and the sending end of the caller's channel of 32; the handle that comes
/// with the builder service goes to the constraints service; and the builder service has the
/// receiving end of a channel of 10.
pub proof fn law_constraints_api_app<U, G, A, B, H, C, F, K>(
    paths: &RelayPaths,
    builder: BuilderHandlers,
    constraints: ConstraintsHandlers,
    max_payload_length: usize,
    auctioneer: A,
    new_builder: F,
    new_constraints: K,
    r: (Router, Arc<C>, Arc<B>, Receiver<Sender<U>>),
) where
    B: Send + Sync + 'static,
    C: Send + Sync + 'static,
    F: FnOnce(Arc<A>, Sender<Sender<U>>, Receiver<G>) -> (B, H),
    K: FnOnce(Arc<A>, Sender<Sender<U>>, H) -> C,

    requires
        call_ensures(
            constraints_api_app::<U, G, A, B, H, C, F, K>,
            (
                paths,
                builder,
                constraints,
                max_payload_length,
                auctioneer,
                new_builder,
                new_constraints,
            ),
            r,
        ),
        seq![
            paths.get_validators@,
            paths.get_top_bid@,
            paths.get_builder_constraints@,
            paths.get_builder_constraints_stream@,
            paths.get_builder_delegations@,
        ].no_duplicates(),
        seq![
            paths.submit_block@,
            paths.submit_builder_constraints@,
            paths.delegate_submission_rights@,
            paths.revoke_submission_rights@,
        ].no_duplicates(),
    ensures
        answers(r.0, Verb::Get, paths.get_validators@, builder.get_validators),
        answers(r.0, Verb::Post, paths.submit_block@, builder.submit_block),
        answers(r.0, Verb::Get, paths.get_top_bid@, builder.get_top_bid),
        answers(r.0, Verb::Get, paths.get_builder_constraints@, builder.constraints),
        answers(r.0, Verb::Get, paths.get_builder_constraints_stream@, builder.constraints_stream),
        answers(r.0, Verb::Get, paths.get_builder_delegations@, builder.delegations),
        answers(r.0, Verb::Post, paths.submit_builder_constraints@, constraints.submit_constraints),
        answers(r.0, Verb::Post, paths.delegate_submission_rights@, constraints.delegate),
        answers(r.0, Verb::Post, paths.revoke_submission_rights@, constraints.revoke),
        forall|key: RouteKey| #[trigger]
            routes(r.0).contains_key(key) ==> match key.verb {
                Verb::Get => {
                    ||| key.path == paths.get_validators@
                    ||| key.path == paths.get_top_bid@
                    ||| key.path == paths.get_builder_constraints@
                    ||| key.path == paths.get_builder_constraints_stream@
                    ||| key.path == paths.get_builder_delegations@
                },
                Verb::Post => {
                    ||| key.path == paths.submit_block@
                    ||| key.path == paths.submit_builder_constraints@
                    ||| key.path == paths.delegate_submission_rights@
                    ||| key.path == paths.revoke_submission_rights@
                },
            },
        forall|spot: Option<Seq<char>>| #[trigger]
            refusals(r.0).contains_key(spot) <==> match spot {
                None => true,
                Some(path) => {
                    ||| path == paths.get_validators@
                    ||| path == paths.submit_block@
                    ||| path == paths.get_top_bid@
                    ||| path == paths.get_builder_constraints@
                    ||| path == paths.get_builder_constraints_stream@
                    ||| path == paths.get_builder_delegations@
                    ||| path == paths.submit_builder_constraints@
                    ||| path == paths.delegate_submission_rights@
                    ||| path == paths.revoke_submission_rights@
                },
            },
        forall|key: RouteKey| #[trigger]
            routes(r.0).contains_key(key) ==> routes(r.0)[key].layers == seq![
                Layering::BodyLimit { bytes: max_payload_length },
                Layering::Extension,
                Layering::Extension,
            ],
        forall|spot: Option<Seq<char>>| #[trigger]
            refusals(r.0).contains_key(spot) ==> refusals(r.0)[spot] == seq![
                Layering::BodyLimit { bytes: max_payload_length },
                Layering::Extension,
                Layering::Extension,
            ],
        exists|
            shared_auctioneer: Arc<A>,
            slot_updates: Sender<Sender<U>>,
            gossip_source: Sender<G>,
            gossip: Receiver<G>,
            handle: H,
        |
            {
                &&& *shared_auctioneer == auctioneer
                &&& #[trigger] call_ensures(
                    tokio::sync::mpsc::channel::<Sender<U>>,
                    (32usize,),
                    (slot_updates, r.3),
                )
                &&& #[trigger] call_ensures(
                    tokio::sync::mpsc::channel::<G>,
                    (10usize,),
                    (gossip_source, gossip),
                )
                &&& call_ensures(
                    new_builder,
                    (shared_auctioneer, slot_updates, gossip),
                    (*r.2, handle),
                )
                &&& #[trigger] call_ensures(
                    new_constraints,
                    (shared_auctioneer, slot_updates, handle),
                    *r.1,
                )
            },
        exists|inner: Router, outer: Router|
            {
                &&& #[trigger] shared(inner, r.2, outer)
                &&& #[trigger] shared(outer, r.1, r.0)
                &&& routes(inner).dom() == routes(r.0).dom()
                &&& routes(outer).dom() == routes(r.0).dom()
            },
{
    let (inner, outer) = choose|inner: Router, outer: Router|
        #[trigger] shared(inner, r.2, outer) && #[trigger] shared(outer, r.1, r.0);
    law_shared(inner, r.2, outer);
    law_shared(outer, r.1, r.0);
    assert(routes(inner).dom() =~= routes(r.0).dom());
    assert(routes(outer).dom() =~= routes(r.0).dom());
}

/// The builder API and the constraints API can be served together on all paths that a router takes.
pub proof fn law_constraints_api_app_takes_all_mountable_paths<U, G, A, B, H, C, F, K>(
    paths: &RelayPaths,
    builder: BuilderHandlers,
    constraints: ConstraintsHandlers,
    max_payload_length: usize,
    auctioneer: A,
    new_builder: F,
    new_constraints: K,
) where
    B: Send + Sync + 'static,
    C: Send + Sync + 'static,
    F: FnOnce(Arc<A>, Sender<Sender<U>>, Receiver<G>) -> (B, H),
    K: FnOnce(Arc<A>, Sender<Sender<U>>, H) -> C,

    requires
        mountable(seq![
            RouteKey { path: paths.get_validators@, verb: Verb::Get },
            RouteKey { path: paths.submit_block@, verb: Verb::Post },
            RouteKey { path: paths.get_top_bid@, verb: Verb::Get },
            RouteKey { path: paths.get_builder_constraints@, verb: Verb::Get },
            RouteKey { path: paths.get_builder_constraints_stream@, verb: Verb::Get },
            RouteKey { path: paths.get_builder_delegations@, verb: Verb::Get },
            RouteKey { path: paths.submit_builder_constraints@, verb: Verb::Post },
            RouteKey { path: paths.delegate_submission_rights@, verb: Verb::Post },
            RouteKey { path: paths.revoke_submission_rights@, verb: Verb::Post },
        ]),
        forall|shared_auctioneer: Arc<A>, slot_updates: Sender<Sender<U>>, gossip: Receiver<G>|
            *shared_auctioneer == auctioneer ==> call_requires(
                new_builder,
                (shared_auctioneer, slot_updates, gossip),
            ),
        forall|shared_auctioneer: Arc<A>, slot_updates: Sender<Sender<U>>, handle: H|
            *shared_auctioneer == auctioneer ==> call_requires(
                new_constraints,
                (shared_auctioneer, slot_updates, handle),
            ),
    ensures
        call_requires(
            constraints_api_app::<U, G, A, B, H, C, F, K>,
            (
                paths,
                builder,
                constraints,
                max_payload_length,
                auctioneer,
                new_builder,
                new_constraints,
            ),
        ),
{
}

/// [`constraints_api_mountable`] tells whether a router takes the nine routes of the builder API
/// and the constraints API together.
pub proof fn law_constraints_api_mountable(paths: &RelayPaths, r: bool)
    requires
        call_ensures(constraints_api_mountable, (paths,), r),
    ensures
        r == mountable(seq![
            RouteKey { path: paths.get_validators@, verb: Verb::Get },
            RouteKey { path: paths.submit_block@, verb: Verb::Post },
            RouteKey { path: paths.get_top_bid@, verb: Verb::Get },
            RouteKey { path: paths.get_builder_constraints@, verb: Verb::Get },
            RouteKey { path: paths.get_builder_constraints_stream@, verb: Verb::Get },
            RouteKey { path: paths.get_builder_delegations@, verb: Verb::Get },
            RouteKey { path: paths.submit_builder_constraints@, verb: Verb::Post },
            RouteKey { path: paths.delegate_submission_rights@, verb: Verb::Post },
            RouteKey { path: paths.revoke_submission_rights@, verb: Verb::Post },
        ]),
{
}

/// A request that takes too long is answered with `408 Request Timeout`.
pub proof fn law_timeout_reply(status: u16)
    requires
        call_ensures(timeout_reply, (), status),
    ensures
        status == 408,
{
}

/// A request that fails otherwise is answered with `500 Internal Server Error`, and the body tells
/// the error, whatever it is, behind a fixed start.
pub proof fn law_unhandled_reply(error: &str, r: (u16, String))
    requires
        call_ensures(unhandled_reply, (error,), r),
    ensures
        r.0 == 500,
        r.1@.len() == 17 + error@.len(),
        r.1@.take(17) == "Unhandled error: "@,
        r.1@.skip(17) == error@,
{
    reveal_strlit("Unhandled error: ");
    assert(r.1@.take(17) =~= "Unhandled error: "@);
    assert(r.1@.skip(17) =~= error@);
}

/// Every failure has its reply.
pub proof fn law_every_failure_is_answered(error: &str)
    ensures
        call_requires(timeout_reply, ()),
        call_requires(unhandled_reply, (error,)),
{
}

/// A runtime that is handed out keeps time, and there is none only where none could be had.
pub proof fn law_timed_runtime(r: Option<(Runtime, Handle)>)
    requires
        call_ensures(timed_runtime, (), r),
    ensures
        r matches Some(pair) ==> started(pair.0, pair.1) && keeps_time(pair.1),
        r is None ==> refused(),
{
}

/// Whether a router takes the routes of an application can be asked of all paths.
pub proof fn law_every_path_can_be_tested(
    proposer: &ProposerPaths,
    data: &DataPaths,
    relay: &RelayPaths,
)
    ensures
        call_requires(app_mountable, (proposer, data)),
        call_requires(proposer_api_mountable, (proposer,)),
        call_requires(data_api_mountable, (data,)),
        call_requires(builder_api_mountable, (relay,)),
        call_requires(constraints_api_mountable, (relay,)),
{
}

} // verus!
