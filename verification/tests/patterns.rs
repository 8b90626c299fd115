use axum::routing::{any, get, post};
use axum::Router;
use relay_apps::builder::{builder_api_mountable, RelayPaths};
use relay_apps::combined::app_mountable;
use relay_apps::constraints::constraints_api_mountable;
use relay_apps::data::{data_api_mountable, DataPaths};
use relay_apps::pattern::{is_mountable, parse, Endpoint, Verb, MAX_PARAMETERS};
use relay_apps::proposer::{proposer_api_mountable, ProposerPaths};

fn shape(path: &str) -> Option<String> {
    parse(path).map(|shape| shape.into_iter().collect())
}

fn endpoint(path: &str, verb: Verb) -> Endpoint {
    Endpoint { path: path.to_string(), verb }
}

fn mountable(endpoints: &[(&str, Verb)]) -> bool {
    is_mountable(&endpoints.iter().map(|(path, verb)| endpoint(path, *verb)).collect())
}

/// Whether axum takes the routes, in this order, without a panic.
fn axum_takes(endpoints: &[(&str, Verb)]) -> bool {
    let owned: Vec<(String, Verb)> =
        endpoints.iter().map(|(path, verb)| (path.to_string(), *verb)).collect();
    let runtime = tokio::runtime::Builder::new_current_thread().build().unwrap();
    let task = async move {
        let mut router: Router = Router::new();
        for (path, verb) in &owned {
            let handler = any(|| async {});
            let method_router = match verb {
                Verb::Get => get(handler),
                Verb::Post => post(handler),
            };
            router = router.route(path, method_router);
        }
        router.has_routes()
    };
    runtime.block_on(async { tokio::spawn(task).await.is_ok() })
}

fn patterns_up_to(length: usize) -> Vec<String> {
    let mut all: Vec<String> = vec![String::new()];
    let mut last: Vec<String> = vec![String::new()];
    for _ in 0..length {
        let mut next = Vec::new();
        for start in &last {
            for c in ['/', 'a', ':', '*'] {
                next.push(format!("{start}{c}"));
            }
        }
        all.extend(next.iter().cloned());
        last = next;
    }
    all
}

#[test]
fn names_of_wildcards_do_not_count() {
    assert_eq!(shape("/status"), Some("/status".to_string()));
    assert_eq!(
        shape("/header/:slot/:parent_hash/:pubkey"),
        Some("/header/:/:/:".to_string())
    );
    assert_eq!(shape("/files/*rest"), Some("/files/*".to_string()));
    assert_eq!(shape("/a:b/c"), Some("/a:/c".to_string()));
}

#[test]
fn ill_formed_patterns_have_no_shape() {
    for path in ["", "status", ":slot", "/:", "/:/a", "/:a:b", "/:a*b", "/*", "/*a/b", "/a*b"] {
        assert_eq!(shape(path), None, "{path}");
    }
}

#[test]
fn parameters_are_limited() {
    let most = "/:p".repeat(MAX_PARAMETERS);
    assert_eq!(shape(&most), Some("/:".repeat(MAX_PARAMETERS)));
    assert!(axum_takes(&[(&most, Verb::Get)]));
    let more = "/:p".repeat(MAX_PARAMETERS + 1);
    assert_eq!(shape(&more), None);
    assert!(!axum_takes(&[(&more, Verb::Get)]));
}

#[test]
fn one_pattern_answers_each_method_once() {
    assert!(mountable(&[("/a", Verb::Get), ("/a", Verb::Post)]));
    assert!(!mountable(&[("/a", Verb::Get), ("/a", Verb::Get)]));
    assert!(!mountable(&[("/a", Verb::Post), ("/b", Verb::Get), ("/a", Verb::Post)]));
}

#[test]
fn patterns_of_one_shape_clash() {
    assert!(!mountable(&[("/a/:x", Verb::Get), ("/a/:y", Verb::Post)]));
    assert!(mountable(&[("/a/:x", Verb::Get), ("/a/:y/b", Verb::Get)]));
    assert!(mountable(&[("/a/:x", Verb::Get), ("/a/b", Verb::Get)]));
    assert!(!mountable(&[("/a/*x", Verb::Get), ("/a/:y/b", Verb::Get)]));
    assert!(mountable(&[("/a/*x", Verb::Get), ("/a/b/:y", Verb::Get)]));
}

#[test]
fn order_does_not_matter() {
    let routes = [
        ("/a/:x", Verb::Get),
        ("/a/:x", Verb::Post),
        ("/a/b", Verb::Get),
        ("/*rest", Verb::Get),
    ];
    assert!(mountable(&routes));
    assert!(axum_takes(&routes));
    let reversed: Vec<(&str, Verb)> = routes.iter().rev().copied().collect();
    assert!(mountable(&reversed));
    assert!(axum_takes(&reversed));
    assert!(mountable(&reversed[1..3]));
}

#[test]
fn single_patterns_are_judged_as_by_axum() {
    for path in patterns_up_to(4) {
        assert_eq!(parse(&path).is_some(), axum_takes(&[(&path, Verb::Get)]), "{path}");
    }
}

#[test]
fn pairs_of_patterns_are_judged_as_by_axum() {
    let paths: Vec<String> =
        patterns_up_to(4).into_iter().filter(|path| parse(path).is_some()).collect();
    for a in &paths {
        for b in &paths {
            for verb in [Verb::Get, Verb::Post] {
                let pair = [(a.as_str(), Verb::Get), (b.as_str(), verb)];
                assert_eq!(mountable(&pair), axum_takes(&pair), "{a} {b}");
            }
        }
    }
}

fn proposer_paths() -> ProposerPaths {
    ProposerPaths {
        api: "/proposer".to_string(),
        status: "/status".to_string(),
        register_validators: "/validators".to_string(),
        get_header: "/header/:slot/:parent/:key".to_string(),
        get_header_with_proofs: "/header_with_proofs/:slot/:parent/:key".to_string(),
        get_payload: "/blinded_blocks".to_string(),
    }
}

fn data_paths() -> DataPaths {
    DataPaths {
        api: "/data".to_string(),
        proposer_payload_delivered: "/delivered".to_string(),
        builder_bids_received: "/received".to_string(),
        validator_registration: "/registration".to_string(),
    }
}

fn relay_paths() -> RelayPaths {
    RelayPaths {
        get_validators: "/validators".to_string(),
        submit_block: "/blocks".to_string(),
        get_top_bid: "/top_bid".to_string(),
        get_builder_constraints: "/constraints".to_string(),
        get_builder_constraints_stream: "/constraints_stream".to_string(),
        get_builder_delegations: "/delegations".to_string(),
        submit_builder_constraints: "/constraints".to_string(),
        delegate_submission_rights: "/delegate".to_string(),
        revoke_submission_rights: "/revoke".to_string(),
    }
}

#[test]
fn applications_are_mountable_and_so_are_their_parts() {
    assert!(app_mountable(&proposer_paths(), &data_paths()));
    assert!(proposer_api_mountable(&proposer_paths()));
    assert!(data_api_mountable(&data_paths()));
    assert!(constraints_api_mountable(&relay_paths()));
    assert!(builder_api_mountable(&relay_paths()));
}

#[test]
fn applications_with_clashing_routes_are_not_mountable() {
    let mut proposer = proposer_paths();
    proposer.get_payload = proposer.register_validators.clone();
    assert!(!proposer_api_mountable(&proposer));
    assert!(!app_mountable(&proposer, &data_paths()));

    let mut data = data_paths();
    data.builder_bids_received = data.validator_registration.clone();
    assert!(!data_api_mountable(&data));
    assert!(!app_mountable(&proposer_paths(), &data));

    let mut data = data_paths();
    data.api = "data".to_string();
    assert!(!data_api_mountable(&data));

    let mut relay = relay_paths();
    relay.revoke_submission_rights = relay.delegate_submission_rights.clone();
    assert!(!constraints_api_mountable(&relay));
    assert!(builder_api_mountable(&relay));
    relay.get_builder_constraints_stream = relay.get_builder_constraints.clone();
    assert!(!builder_api_mountable(&relay));
}
