//! What holds of the applications as a whole.

use crate::builder::{builder_keys, builder_layers, builder_routes, BuilderHandlers, RelayPaths};
use crate::combined::{app_keys, app_layers, app_routes};
use crate::constraints::{
    constraints_keys, constraints_layers, constraints_routes, ConstraintsHandlers,
};
use crate::data::{data_keys, data_routes, DataHandlers, DataPaths};
use crate::pattern::{
    clash, compatible, in_wildcard, is_mark, mountable, parameters, post_on, shape, well_formed,
    RouteKey,
};
use crate::proposer::{
    block_layers, proposer_keys, proposer_routes, registration_layers, ProposerHandlers,
    ProposerPaths,
};
use crate::reply::REQUEST_TIMEOUT;
use crate::routing::{Layering, RouteTable};
use vstd::prelude::*;

verus! {

/// A body of `length` bytes keeps within every limit among `layers`.
pub open spec fn within_limits(layers: Seq<Layering>, length: nat) -> bool {
    forall|i: int|
        #![trigger layers[i]]
        0 <= i < layers.len() ==> (layers[i] matches Layering::BodyLimit { bytes } ==> length
            <= bytes)
}

/// Every route of `part` is a route of `whole` and has the same handler there.
pub open spec fn serves_all_of(whole: RouteTable, part: RouteTable) -> bool {
    forall|key: RouteKey| #[trigger]
        part.contains_key(key) ==> whole.contains_key(key) && whole[key].handler
            == part[key].handler
}

/// Whether two routes are compatible does not depend on which of them comes first.
pub proof fn law_compatible_both_ways(a: RouteKey, b: RouteKey)
    ensures
        compatible(a, b) == compatible(b, a),
{
}

/// A list of routes that a router takes holds no route twice.
pub proof fn law_mountable_holds_no_route_twice(keys: Seq<RouteKey>)
    requires
        mountable(keys),
    ensures
        keys.no_duplicates(),
{
}

/// Of routes that a router takes, it takes any selection, in any order.
pub proof fn law_mountable_in_any_order(keys: Seq<RouteKey>, chosen: Seq<RouteKey>)
    requires
        mountable(keys),
        chosen.no_duplicates(),
        forall|k: int| #![trigger chosen[k]] 0 <= k < chosen.len() ==> keys.contains(chosen[k]),
    ensures
        mountable(chosen),
{
    assert forall|i: int| #![trigger chosen[i]] 0 <= i < chosen.len() implies well_formed(
        chosen[i].path,
    ) by {
        let k = choose|k: int| 0 <= k < keys.len() && keys[k] == chosen[i];
        assert(well_formed(keys[k].path));
    }
    assert forall|i: int, j: int|
        #![trigger chosen[i], chosen[j]]
        0 <= i < j < chosen.len() implies compatible(chosen[i], chosen[j]) by {
        let k = choose|k: int| 0 <= k < keys.len() && keys[k] == chosen[i];
        let l = choose|l: int| 0 <= l < keys.len() && keys[l] == chosen[j];
        law_compatible_both_ways(chosen[i], chosen[j]);
        if k < l {
            assert(compatible(keys[k], keys[l]));
        } else {
            assert(compatible(keys[l], keys[k]));
        }
    }
}

/// Where one router takes the proposer API and the data API together, it takes each of them alone.
pub proof fn law_parts_of_the_app_are_mountable(proposer: ProposerPaths, data: DataPaths)
    requires
        mountable(app_keys(proposer, data)),
    ensures
        mountable(proposer_keys(proposer)),
        mountable(data_keys(data)),
{
    let keys = app_keys(proposer, data);
    let headers = proposer_keys(proposer);
    assert(headers[0] == keys[2] && headers[1] == keys[3] && headers[2] == keys[4] && headers[3]
        == keys[1]);
    assert(headers.no_duplicates());
    law_mountable_in_any_order(keys, headers);
    let records = data_keys(data);
    assert(records[0] == keys[5] && records[1] == keys[6] && records[2] == keys[7]);
    assert(records.no_duplicates());
    law_mountable_in_any_order(keys, records);
}

/// Where a router takes the builder API and the constraints API together, it takes the builder API
/// alone.
pub proof fn law_the_builder_part_is_mountable(paths: RelayPaths)
    requires
        mountable(constraints_keys(paths)),
    ensures
        mountable(builder_keys(paths)),
{
    let keys = constraints_keys(paths);
    let part = builder_keys(paths);
    assert(part[0] == keys[0] && part[1] == keys[1] && part[2] == keys[2] && part[3] == keys[4]
        && part[4] == keys[3]);
    assert(part.no_duplicates());
    law_mountable_in_any_order(keys, part);
}

/// The application that serves the proposer API and the data API has all routes of the two, with
/// the handlers that they have when they are served alone.
pub proof fn law_the_app_serves_its_parts(
    proposer: ProposerPaths,
    data: DataPaths,
    proposer_handlers: ProposerHandlers,
    data_handlers: DataHandlers,
    max_blinded_block_length: usize,
    max_val_registrations_length: usize,
)
    requires
        mountable(app_keys(proposer, data)),
    ensures
        serves_all_of(
            app_routes(proposer, data, proposer_handlers, data_handlers, app_layers()),
            proposer_routes(
                proposer,
                proposer_handlers,
                max_blinded_block_length,
                max_val_registrations_length,
            ),
        ),
        serves_all_of(
            app_routes(proposer, data, proposer_handlers, data_handlers, app_layers()),
            data_routes(data, data_handlers, seq![Layering::Extension]),
        ),
{
    let keys = app_keys(proposer, data);
    law_mountable_holds_no_route_twice(keys);
}

/// The application that serves the builder API and the constraints API has all routes of the
/// builder API, with the handlers that they have when it is served alone.
pub proof fn law_the_constraints_app_serves_the_builder_api(
    paths: RelayPaths,
    builder: BuilderHandlers,
    constraints: ConstraintsHandlers,
    max_payload_length: usize,
)
    requires
        mountable(constraints_keys(paths)),
    ensures
        serves_all_of(
            constraints_routes(
                paths,
                builder,
                constraints,
                constraints_layers(max_payload_length),
            ),
            builder_routes(paths, builder, builder_layers(max_payload_length)),
        ),
{
    let keys = constraints_keys(paths);
    law_mountable_holds_no_route_twice(keys);
}

/// Each application has the routes that it lists, and no others.
pub proof fn law_applications_serve_what_they_list(
    proposer: ProposerPaths,
    data: DataPaths,
    relay: RelayPaths,
    proposer_handlers: ProposerHandlers,
    data_handlers: DataHandlers,
    builder: BuilderHandlers,
    constraints: ConstraintsHandlers,
    layers: Seq<Layering>,
    max_blinded_block_length: usize,
    max_val_registrations_length: usize,
)
    ensures
        app_routes(proposer, data, proposer_handlers, data_handlers, layers).dom()
            == app_keys(proposer, data).to_set(),
        proposer_routes(
            proposer,
            proposer_handlers,
            max_blinded_block_length,
            max_val_registrations_length,
        ).dom() == proposer_keys(proposer).to_set(),
        data_routes(data, data_handlers, layers).dom() == data_keys(data).to_set(),
        builder_routes(relay, builder, layers).dom() == builder_keys(relay).to_set(),
        constraints_routes(relay, builder, constraints, layers).dom()
            == constraints_keys(relay).to_set(),
{
}

/// In the proposer API, the body of a request keeps within the limits where it is no longer than
/// a set of registrations may be and, unless validators are registered, no longer than a blinded
/// block may be.
pub proof fn law_proposer_body_limits(
    paths: ProposerPaths,
    handlers: ProposerHandlers,
    max_blinded_block_length: usize,
    max_val_registrations_length: usize,
    key: RouteKey,
    length: nat,
)
    requires
        mountable(proposer_keys(paths)),
        proposer_routes(
            paths,
            handlers,
            max_blinded_block_length,
            max_val_registrations_length,
        ).contains_key(key),
    ensures
        within_limits(
            proposer_routes(
                paths,
                handlers,
                max_blinded_block_length,
                max_val_registrations_length,
            )[key].layers,
            length,
        ) <==> {
            &&& length <= max_val_registrations_length
            &&& key != post_on(paths.api@ + paths.register_validators@) ==> length
                <= max_blinded_block_length
        },
{
    let block = block_layers(max_blinded_block_length, max_val_registrations_length);
    let registration = registration_layers(max_val_registrations_length);
    assert(block[0] == Layering::BodyLimit { bytes: max_blinded_block_length });
    assert(block[1] == Layering::BodyLimit { bytes: max_val_registrations_length });
    assert(registration[0] == Layering::BodyLimit { bytes: max_val_registrations_length });
}

/// With and without the constraints API, the body of a request to the builder API keeps within the
/// limits where it is no longer than a payload may be.
pub proof fn law_builder_body_limits(max_payload_length: usize, length: nat)
    ensures
        within_limits(builder_layers(max_payload_length), length) <==> length
            <= max_payload_length,
        within_limits(constraints_layers(max_payload_length), length) <==> length
            <= max_payload_length,
{
    let builder = builder_layers(max_payload_length);
    let constraints = constraints_layers(max_payload_length);
    assert(builder[0] == Layering::BodyLimit { bytes: max_payload_length });
    assert(constraints[0] == Layering::BodyLimit { bytes: max_payload_length });
}

/// No limit is put on the bodies of the requests to the data API, nor to the application that
/// serves it together with the proposer API.
pub proof fn law_no_body_limits(length: nat)
    ensures
        within_limits(app_layers(), length),
        within_limits(seq![Layering::Extension], length),
{
}

/// Every handler of the proposer API finds the service at its disposal, whichever body limits are
/// around its route: the layer that shares the service is the outermost one of every route.
pub proof fn law_proposer_service_reaches_every_handler(
    paths: ProposerPaths,
    handlers: ProposerHandlers,
    max_blinded_block_length: usize,
    max_val_registrations_length: usize,
    key: RouteKey,
)
    requires
        proposer_routes(
            paths,
            handlers,
            max_blinded_block_length,
            max_val_registrations_length,
        ).contains_key(key),
    ensures
        proposer_routes(
            paths,
            handlers,
            max_blinded_block_length,
            max_val_registrations_length,
        )[key].layers.last() == Layering::Extension,
{
}

/// The time that a request to the builder API spends in line, or waiting for its turn under the
/// rate limit, counts against its time limit, and the failure is answered as a timeout.
pub proof fn law_waiting_counts_against_the_time_limit(max_payload_length: usize, i: int, j: int)
    requires
        0 <= i < builder_layers(max_payload_length).len(),
        0 <= j < builder_layers(max_payload_length).len(),
        builder_layers(max_payload_length)[i] is Buffer || builder_layers(max_payload_length)[i]
            is RateLimit,
        builder_layers(max_payload_length)[j] is Timeout,
    ensures
        i < j,
        builder_layers(max_payload_length)[j + 1] == (Layering::AnswerTimeouts {
            status: REQUEST_TIMEOUT,
        }),
{
}

/// A pattern without wildcards is well formed where it starts with a slash, and is its own shape.
pub proof fn law_plain_patterns(path: Seq<char>)
    requires
        forall|i: int| #![trigger path[i]] 0 <= i < path.len() ==> !is_mark(path[i]),
    ensures
        well_formed(path) <==> path.len() > 0 && path[0] == '/',
        shape(path) == path,
        !in_wildcard(path),
        parameters(path) == 0,
    decreases path.len(),
{
    if path.len() > 0 {
        law_plain_patterns(path.drop_last());
    }
}

/// Two patterns without wildcards clash only where they are the same.
pub proof fn law_plain_patterns_clash_only_when_equal(a: Seq<char>, b: Seq<char>)
    requires
        forall|i: int| #![trigger a[i]] 0 <= i < a.len() ==> !is_mark(a[i]),
        forall|i: int| #![trigger b[i]] 0 <= i < b.len() ==> !is_mark(b[i]),
    ensures
        clash(shape(a), shape(b)) <==> a == b,
{
    law_plain_patterns(a);
    law_plain_patterns(b);
}

} // verus!
