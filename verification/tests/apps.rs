use axum::body::{to_bytes, Body};
use axum::http::Request;
use axum::routing::{any, MethodRouter};
use axum::{Extension, Router};
use relay_apps::builder::{BuilderHandlers, RelayPaths};
use relay_apps::channels::{
    BUILDER_GOSSIP_CAPACITY, PROPOSER_GOSSIP_CAPACITY, SLOT_UPDATE_CAPACITY,
};
use relay_apps::constraints::ConstraintsHandlers;
use relay_apps::data::{DataHandlers, DataPaths};
use relay_apps::proposer::{ProposerHandlers, ProposerPaths};
use relay_apps::reply::{timeout_reply, unhandled_reply};
use relay_apps::{
    app, builder_api_app, builder_api_app_on_own_runtime, constraints_api_app, data_api_app,
    proposer_api_app,
};
use relay_apps::runtime::timed_runtime;
use std::sync::{Arc, Mutex};
use std::time::{Duration, Instant};
use tokio::runtime::Runtime;
use tokio::sync::mpsc::error::TryRecvError;
use tokio::sync::mpsc::{channel, Receiver, Sender};
use tower::ServiceExt;

type Update = u64;
type Gossip = String;

struct Auctioneer(u64);

struct Database(u64);

struct Proposer {
    auctioneer: Option<Arc<Auctioneer>>,
    slot_updates: Sender<Sender<Update>>,
    gossip: Mutex<Receiver<Gossip>>,
}

struct Builder {
    auctioneer: Option<Arc<Auctioneer>>,
    slot_updates: Sender<Sender<Update>>,
    gossip: Mutex<Receiver<Gossip>>,
}

struct Constraints {
    auctioneer: Arc<Auctioneer>,
    slot_updates: Sender<Sender<Update>>,
    handle: u8,
}

struct Data {
    database: Arc<Database>,
}

fn runtime() -> Runtime {
    tokio::runtime::Builder::new_multi_thread().worker_threads(1).enable_all().build().unwrap()
}

fn named(name: &'static str) -> MethodRouter {
    any(move || async move { name })
}

fn reading(name: &'static str) -> MethodRouter {
    any(move |body: axum::body::Bytes| async move { format!("{name} {}", body.len()) })
}

fn proposer_paths() -> ProposerPaths {
    ProposerPaths {
        api: "/proposer".to_string(),
        status: "/status".to_string(),
        register_validators: "/validators".to_string(),
        get_header: "/header/:slot".to_string(),
        get_header_with_proofs: "/header_with_proofs/:slot".to_string(),
        get_payload: "/blinded_blocks".to_string(),
    }
}

fn proposer_handlers() -> ProposerHandlers {
    ProposerHandlers {
        status: named("status"),
        register_validators: reading("register_validators"),
        get_header: reading("get_header"),
        get_header_with_proofs: reading("get_header_with_proofs"),
        get_payload: reading("get_payload"),
    }
}

fn data_paths() -> DataPaths {
    DataPaths {
        api: "/data".to_string(),
        proposer_payload_delivered: "/delivered".to_string(),
        builder_bids_received: "/received".to_string(),
        validator_registration: "/registration".to_string(),
    }
}

fn data_handlers() -> DataHandlers {
    DataHandlers {
        proposer_payload_delivered: named("proposer_payload_delivered"),
        builder_bids_received: named("builder_bids_received"),
        validator_registration: named("validator_registration"),
    }
}

fn relay_paths() -> RelayPaths {
    RelayPaths {
        get_validators: "/validators".to_string(),
        submit_block: "/blocks".to_string(),
        get_top_bid: "/top_bid".to_string(),
        get_builder_constraints: "/constraints".to_string(),
        get_builder_constraints_stream: "/constraints_stream".to_string(),
        get_builder_delegations: "/delegations".to_string(),
        submit_builder_constraints: "/builder/constraints".to_string(),
        delegate_submission_rights: "/builder/delegate".to_string(),
        revoke_submission_rights: "/builder/revoke".to_string(),
    }
}

fn builder_handlers() -> BuilderHandlers {
    BuilderHandlers {
        get_validators: named("get_validators"),
        submit_block: reading("submit_block"),
        get_top_bid: named("get_top_bid"),
        constraints: named("constraints"),
        constraints_stream: named("constraints_stream"),
        delegations: named("delegations"),
    }
}

fn constraints_handlers() -> ConstraintsHandlers {
    ConstraintsHandlers {
        submit_constraints: reading("submit_constraints"),
        delegate: named("delegate"),
        revoke: named("revoke"),
    }
}

fn ask_with(runtime: &Runtime, router: &Router, method: &str, path: &str, length: usize) -> (u16, String) {
    let request = Request::builder()
        .method(method)
        .uri(path)
        .header("content-length", length)
        .body(Body::from(vec![7u8; length]))
        .unwrap();
    let router = router.clone();
    runtime.block_on(async move {
        let response = router.oneshot(request).await.unwrap();
        let status = response.status().as_u16();
        let body = to_bytes(response.into_body(), 1 << 20).await.unwrap();
        (status, String::from_utf8(body.to_vec()).unwrap())
    })
}

fn ask(runtime: &Runtime, router: &Router, method: &str, path: &str) -> (u16, String) {
    ask_with(runtime, router, method, path, 0)
}

fn ok(body: &str) -> (u16, String) {
    (200, body.to_string())
}

fn plain_proposer(slot_updates: Sender<Sender<Update>>, gossip: Receiver<Gossip>) -> Proposer {
    Proposer { auctioneer: None, slot_updates, gossip: Mutex::new(gossip) }
}

fn sharing_proposer(
    auctioneer: Arc<Auctioneer>,
    slot_updates: Sender<Sender<Update>>,
    gossip: Receiver<Gossip>,
) -> Proposer {
    Proposer { auctioneer: Some(auctioneer), slot_updates, gossip: Mutex::new(gossip) }
}

fn plain_builder(slot_updates: Sender<Sender<Update>>, gossip: Receiver<Gossip>) -> (Builder, u8) {
    (Builder { auctioneer: None, slot_updates, gossip: Mutex::new(gossip) }, 42)
}

fn sharing_builder(
    auctioneer: Arc<Auctioneer>,
    slot_updates: Sender<Sender<Update>>,
    gossip: Receiver<Gossip>,
) -> (Builder, u8) {
    (Builder { auctioneer: Some(auctioneer), slot_updates, gossip: Mutex::new(gossip) }, 42)
}

#[test]
fn app_serves_both_apis() {
    let runtime = runtime();
    let router = app(
        &proposer_paths(),
        &data_paths(),
        proposer_handlers(),
        data_handlers(),
        plain_proposer,
        Data { database: Arc::new(Database(1)) },
    );
    assert_eq!(ask(&runtime, &router, "GET", "/proposer/status"), ok("status"));
    assert_eq!(ask(&runtime, &router, "HEAD", "/proposer/status"), ok(""));
    assert_eq!(
        ask(&runtime, &router, "POST", "/proposer/validators"),
        ok("register_validators 0")
    );
    assert_eq!(ask(&runtime, &router, "GET", "/proposer/header/1"), ok("get_header 0"));
    assert_eq!(
        ask(&runtime, &router, "GET", "/proposer/header_with_proofs/1"),
        ok("get_header_with_proofs 0")
    );
    assert_eq!(ask(&runtime, &router, "POST", "/proposer/blinded_blocks"), ok("get_payload 0"));
    assert_eq!(ask(&runtime, &router, "GET", "/data/delivered"), ok("proposer_payload_delivered"));
    assert_eq!(ask(&runtime, &router, "GET", "/data/received"), ok("builder_bids_received"));
    assert_eq!(ask(&runtime, &router, "GET", "/data/registration"), ok("validator_registration"));
    assert_eq!(ask(&runtime, &router, "POST", "/proposer/status").0, 405);
    assert_eq!(ask(&runtime, &router, "GET", "/proposer/validators").0, 405);
    assert_eq!(ask(&runtime, &router, "GET", "/status").0, 404);
}

#[test]
fn app_puts_no_limit_on_bodies() {
    let runtime = runtime();
    let router = app(
        &proposer_paths(),
        &data_paths(),
        proposer_handlers(),
        data_handlers(),
        plain_proposer,
        Data { database: Arc::new(Database(1)) },
    );
    assert_eq!(
        ask_with(&runtime, &router, "POST", "/proposer/validators", 1_000_000),
        ok("register_validators 1000000")
    );
}

#[test]
fn app_puts_both_services_at_the_disposal_of_its_handlers() {
    let runtime = runtime();
    let mut handlers = proposer_handlers();
    handlers.status = any(
        |Extension(proposer): Extension<Arc<Proposer>>, Extension(data): Extension<Arc<Data>>| async move {
            let mut gossip = proposer.gossip.lock().unwrap();
            format!(
                "{} {} {} {} {}",
                data.database.0,
                proposer.slot_updates.max_capacity(),
                proposer.slot_updates.is_closed(),
                gossip.max_capacity(),
                gossip.try_recv() == Err(TryRecvError::Disconnected)
            )
        },
    );
    let router = app(
        &proposer_paths(),
        &data_paths(),
        handlers,
        data_handlers(),
        plain_proposer,
        Data { database: Arc::new(Database(17)) },
    );
    assert_eq!(ask(&runtime, &router, "GET", "/proposer/status"), ok("17 32 true 32 true"));
}

#[test]
fn data_api_app_shares_its_database() {
    let runtime = runtime();
    let mut handlers = data_handlers();
    handlers.validator_registration =
        any(|Extension(data): Extension<Arc<Data>>| async move { data.database.0.to_string() });
    let (router, service, database) =
        data_api_app(&data_paths(), handlers, Database(23), |database| Data { database });
    assert_eq!(database.0, 23);
    assert!(Arc::ptr_eq(&service.database, &database));
    assert_eq!(ask(&runtime, &router, "GET", "/data/delivered"), ok("proposer_payload_delivered"));
    assert_eq!(ask(&runtime, &router, "GET", "/data/received"), ok("builder_bids_received"));
    assert_eq!(ask(&runtime, &router, "GET", "/data/registration"), ok("23"));
    assert_eq!(ask(&runtime, &router, "POST", "/data/received").0, 405);
    assert_eq!(ask(&runtime, &router, "GET", "/proposer/status").0, 404);
}

#[test]
fn proposer_api_app_limits_bodies() {
    let runtime = runtime();
    let (router, _, _, _) = proposer_api_app(
        &proposer_paths(),
        proposer_handlers(),
        10,
        100,
        Auctioneer(1),
        sharing_proposer,
    );
    for (method, path, name) in [
        ("GET", "/proposer/header/1", "get_header"),
        ("GET", "/proposer/header_with_proofs/1", "get_header_with_proofs"),
        ("POST", "/proposer/blinded_blocks", "get_payload"),
    ] {
        assert_eq!(ask_with(&runtime, &router, method, path, 10), ok(&format!("{name} 10")));
        assert_eq!(ask_with(&runtime, &router, method, path, 11).0, 413);
    }
    let path = "/proposer/validators";
    assert_eq!(ask_with(&runtime, &router, "POST", path, 100), ok("register_validators 100"));
    assert_eq!(ask_with(&runtime, &router, "POST", path, 101).0, 413);
    assert_eq!(ask_with(&runtime, &router, "GET", path, 100).0, 405);
    assert_eq!(ask_with(&runtime, &router, "GET", path, 101).0, 413);
    assert_eq!(ask_with(&runtime, &router, "POST", "/proposer/header/1", 10).0, 405);
    assert_eq!(ask_with(&runtime, &router, "POST", "/proposer/header/1", 11).0, 413);
    assert_eq!(ask_with(&runtime, &router, "POST", "/unknown", 10).0, 404);
    assert_eq!(ask_with(&runtime, &router, "POST", "/unknown", 11).0, 413);
    assert_eq!(ask(&runtime, &router, "GET", "/proposer/status").0, 404);
}

#[test]
fn proposer_api_app_keeps_blocks_within_the_limit_on_registrations() {
    let runtime = runtime();
    let (router, _, _, _) = proposer_api_app(
        &proposer_paths(),
        proposer_handlers(),
        100,
        10,
        Auctioneer(1),
        sharing_proposer,
    );
    let path = "/proposer/blinded_blocks";
    assert_eq!(ask_with(&runtime, &router, "POST", path, 10), ok("get_payload 10"));
    assert_eq!(ask_with(&runtime, &router, "POST", path, 11).0, 413);
}

#[test]
fn proposer_api_app_takes_two_methods_on_one_pattern() {
    let runtime = runtime();
    let mut paths = proposer_paths();
    paths.register_validators = paths.get_header.clone();
    let (router, _, _, _) = proposer_api_app(
        &paths,
        proposer_handlers(),
        10,
        100,
        Auctioneer(1),
        sharing_proposer,
    );
    let path = "/proposer/header/1";
    assert_eq!(ask_with(&runtime, &router, "GET", path, 10), ok("get_header 10"));
    assert_eq!(ask_with(&runtime, &router, "GET", path, 11).0, 413);
    assert_eq!(ask_with(&runtime, &router, "POST", path, 100), ok("register_validators 100"));
    assert_eq!(ask_with(&runtime, &router, "POST", path, 101).0, 413);
    assert_eq!(ask_with(&runtime, &router, "PUT", path, 100).0, 405);
    assert_eq!(ask_with(&runtime, &router, "PUT", path, 101).0, 413);
}

#[test]
fn proposer_api_app_wires_its_service() {
    let runtime = runtime();
    let mut handlers = proposer_handlers();
    handlers.register_validators = any(|Extension(proposer): Extension<Arc<Proposer>>| async move {
        proposer.auctioneer.as_ref().unwrap().0.to_string()
    });
    handlers.get_header = any(|Extension(proposer): Extension<Arc<Proposer>>| async move {
        format!("{:p}", Arc::as_ptr(&proposer))
    });
    let (router, service, mut slot_updates, auctioneer) = proposer_api_app(
        &proposer_paths(),
        handlers,
        10,
        100,
        Auctioneer(99),
        sharing_proposer,
    );
    assert_eq!(ask(&runtime, &router, "POST", "/proposer/validators"), ok("99"));
    assert_eq!(
        ask(&runtime, &router, "GET", "/proposer/header/1"),
        ok(&format!("{:p}", Arc::as_ptr(&service)))
    );
    assert!(Arc::ptr_eq(service.auctioneer.as_ref().unwrap(), &auctioneer));
    assert_eq!(slot_updates.max_capacity(), SLOT_UPDATE_CAPACITY);
    assert_eq!(SLOT_UPDATE_CAPACITY, 32);
    assert_eq!(slot_updates.try_recv().err(), Some(TryRecvError::Empty));
    let (update_sender, _update_receiver) = channel::<Update>(1);
    service.slot_updates.try_send(update_sender.clone()).unwrap();
    assert!(slot_updates.try_recv().unwrap().same_channel(&update_sender));
    let mut gossip = service.gossip.lock().unwrap();
    assert_eq!(gossip.max_capacity(), PROPOSER_GOSSIP_CAPACITY);
    assert_eq!(PROPOSER_GOSSIP_CAPACITY, 32);
    assert_eq!(gossip.try_recv(), Err(TryRecvError::Disconnected));
}

#[test]
fn builder_api_app_serves_its_routes() {
    let runtime = runtime();
    let (router, service, mut slot_updates, handle) = builder_api_app(
        &relay_paths(),
        builder_handlers(),
        50,
        runtime.handle(),
        plain_builder,
    );
    assert_eq!(ask(&runtime, &router, "GET", "/validators"), ok("get_validators"));
    assert_eq!(ask(&runtime, &router, "GET", "/top_bid"), ok("get_top_bid"));
    assert_eq!(ask(&runtime, &router, "GET", "/constraints"), ok("constraints"));
    assert_eq!(ask(&runtime, &router, "GET", "/constraints_stream"), ok("constraints_stream"));
    assert_eq!(ask_with(&runtime, &router, "POST", "/blocks", 50), ok("submit_block 50"));
    assert_eq!(ask_with(&runtime, &router, "POST", "/blocks", 51).0, 413);
    assert_eq!(ask(&runtime, &router, "GET", "/delegations").0, 404);
    assert_eq!(handle, 42);
    assert!(service.auctioneer.is_none());
    assert_eq!(slot_updates.max_capacity(), SLOT_UPDATE_CAPACITY);
    let (update_sender, _update_receiver) = channel::<Update>(1);
    service.slot_updates.try_send(update_sender.clone()).unwrap();
    assert!(slot_updates.try_recv().unwrap().same_channel(&update_sender));
    let mut gossip = service.gossip.lock().unwrap();
    assert_eq!(gossip.max_capacity(), BUILDER_GOSSIP_CAPACITY);
    assert_eq!(BUILDER_GOSSIP_CAPACITY, 10);
    assert_eq!(gossip.try_recv(), Err(TryRecvError::Disconnected));
}

#[test]
fn builder_api_app_on_own_runtime_keeps_time() {
    let mut handlers = builder_handlers();
    handlers.get_top_bid = any(|Extension(service): Extension<Arc<Builder>>| async move {
        tokio::time::sleep(Duration::from_millis(10)).await;
        format!("{:p}", Arc::as_ptr(&service))
    });
    let (runtime, (router, service, slot_updates, handle)) =
        builder_api_app_on_own_runtime(&relay_paths(), handlers, 50, plain_builder).unwrap();
    assert_eq!(
        ask(&runtime, &router, "GET", "/top_bid"),
        ok(&format!("{:p}", Arc::as_ptr(&service)))
    );
    assert_eq!(ask(&runtime, &router, "GET", "/unknown").0, 404);
    assert_eq!(ask_with(&runtime, &router, "POST", "/blocks", 51).0, 413);
    assert_eq!(slot_updates.max_capacity(), SLOT_UPDATE_CAPACITY);
    assert_eq!(handle, 42);
}

#[test]
fn timed_runtimes_start_tasks_and_timers() {
    let (runtime, handle) = timed_runtime().unwrap();
    let task = handle.spawn(async {
        tokio::time::sleep(Duration::from_millis(10)).await;
        7
    });
    assert_eq!(runtime.block_on(task).unwrap(), 7);
}

#[test]
fn builder_api_app_answers_slow_requests_with_a_timeout() {
    let runtime = runtime();
    let mut handlers = builder_handlers();
    handlers.get_top_bid = any(|Extension(_): Extension<Arc<Builder>>| async {
        tokio::time::sleep(Duration::from_secs(15)).await;
        "late"
    });
    let (router, _, _, _) =
        builder_api_app(&relay_paths(), handlers, 50, runtime.handle(), plain_builder);
    let start = Instant::now();
    assert_eq!(ask(&runtime, &router, "GET", "/top_bid"), (408, String::new()));
    let taken = start.elapsed();
    assert!(taken >= Duration::from_secs(5) && taken < Duration::from_secs(10));
}

#[test]
fn builder_api_app_limits_the_rate() {
    let runtime = runtime();
    let (router, _, _, _) = builder_api_app(
        &relay_paths(),
        builder_handlers(),
        50,
        runtime.handle(),
        plain_builder,
    );
    let guard = runtime.enter();
    let router: Router = router.with_state(());
    drop(guard);
    assert_eq!(ask(&runtime, &router, "GET", "/top_bid"), ok("get_top_bid"));
    let start = Instant::now();
    for _ in 1..100 {
        assert_eq!(ask(&runtime, &router, "GET", "/top_bid"), ok("get_top_bid"));
    }
    let first = start.elapsed();
    assert_eq!(ask(&runtime, &router, "GET", "/top_bid"), ok("get_top_bid"));
    let next = start.elapsed();
    assert!(next >= Duration::from_millis(900));
    assert!(first < next);
}

#[test]
fn builder_api_app_can_be_set_up_on_a_runtime_that_is_gone() {
    let (gone, handle) = timed_runtime().unwrap();
    drop(gone);
    let (router, _, _, _) =
        builder_api_app(&relay_paths(), builder_handlers(), 50, &handle, plain_builder);
    let runtime = runtime();
    assert_eq!(ask(&runtime, &router, "GET", "/unknown").0, 500);
    assert_eq!(ask(&runtime, &router, "GET", "/top_bid"), ok("get_top_bid"));
}

#[test]
fn builder_api_app_answers_other_failures() {
    let gone = runtime();
    let (router, _, _, _) =
        builder_api_app(&relay_paths(), builder_handlers(), 50, gone.handle(), plain_builder);
    drop(gone);
    let runtime = runtime();
    let (status, body) = ask(&runtime, &router, "GET", "/unknown");
    assert_eq!(status, 500);
    assert!(body.starts_with("Unhandled error: "));
    assert!(body.len() > "Unhandled error: ".len());
}

#[test]
fn replies_to_failures() {
    assert_eq!(timeout_reply(), 408);
    assert_eq!(unhandled_reply("closed"), (500, "Unhandled error: closed".to_string()));
    assert_eq!(unhandled_reply(""), (500, "Unhandled error: ".to_string()));
}

#[test]
fn constraints_api_app_serves_its_routes() {
    let runtime = runtime();
    let (router, _, _, _) = constraints_api_app(
        &relay_paths(),
        builder_handlers(),
        constraints_handlers(),
        50,
        Auctioneer(5),
        sharing_builder,
        |auctioneer, slot_updates, handle| Constraints { auctioneer, slot_updates, handle },
    );
    assert_eq!(ask(&runtime, &router, "GET", "/validators"), ok("get_validators"));
    assert_eq!(ask(&runtime, &router, "GET", "/top_bid"), ok("get_top_bid"));
    assert_eq!(ask(&runtime, &router, "GET", "/constraints"), ok("constraints"));
    assert_eq!(ask(&runtime, &router, "GET", "/constraints_stream"), ok("constraints_stream"));
    assert_eq!(ask(&runtime, &router, "GET", "/delegations"), ok("delegations"));
    assert_eq!(ask(&runtime, &router, "POST", "/builder/delegate"), ok("delegate"));
    assert_eq!(ask(&runtime, &router, "POST", "/builder/revoke"), ok("revoke"));
    for (path, name) in [("/blocks", "submit_block"), ("/builder/constraints", "submit_constraints")] {
        assert_eq!(ask_with(&runtime, &router, "POST", path, 50), ok(&format!("{name} 50")));
        assert_eq!(ask_with(&runtime, &router, "POST", path, 51).0, 413);
    }
    assert_eq!(ask(&runtime, &router, "GET", "/builder/revoke").0, 405);
}

#[test]
fn constraints_api_app_wires_its_services() {
    let runtime = runtime();
    let mut handlers = constraints_handlers();
    handlers.revoke = any(
        |Extension(builder): Extension<Arc<Builder>>,
         Extension(constraints): Extension<Arc<Constraints>>| async move {
            format!(
                "{} {} {}",
                builder.auctioneer.as_ref().unwrap().0,
                constraints.auctioneer.0,
                constraints.handle
            )
        },
    );
    let (router, constraints, builder, mut slot_updates) = constraints_api_app(
        &relay_paths(),
        builder_handlers(),
        handlers,
        50,
        Auctioneer(5),
        sharing_builder,
        |auctioneer, slot_updates, handle| Constraints { auctioneer, slot_updates, handle },
    );
    assert_eq!(ask(&runtime, &router, "POST", "/builder/revoke"), ok("5 5 42"));
    assert!(Arc::ptr_eq(builder.auctioneer.as_ref().unwrap(), &constraints.auctioneer));
    assert!(builder.slot_updates.same_channel(&constraints.slot_updates));
    assert_eq!(slot_updates.max_capacity(), SLOT_UPDATE_CAPACITY);
    let (update_sender, _update_receiver) = channel::<Update>(1);
    constraints.slot_updates.try_send(update_sender.clone()).unwrap();
    assert!(slot_updates.try_recv().unwrap().same_channel(&update_sender));
    let mut gossip = builder.gossip.lock().unwrap();
    assert_eq!(gossip.max_capacity(), BUILDER_GOSSIP_CAPACITY);
    assert_eq!(gossip.try_recv(), Err(TryRecvError::Disconnected));
}
