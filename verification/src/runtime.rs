//! The runtimes on which the applications keep their background tasks.

use tokio::runtime::{Builder, Handle, Runtime};
use vstd::prelude::*;

verus! {

/// `tokio::runtime::Handle`: a handle on a runtime, by which tasks are started there.
#[verifier::external_type_specification]
#[verifier::external_body]
pub struct ExHandle(Handle);

/// `tokio::runtime::Runtime`: a runtime, which runs tasks as long as it is driven.
#[verifier::external_type_specification]
#[verifier::external_body]
pub struct ExRuntime(Runtime);

/// Tasks can be started and timers can be made on the runtime of `handle`. This is settled when
/// the runtime is built: it takes a runtime whose timers are switched on.
pub uninterp spec fn keeps_time(handle: Handle) -> bool;

/// `tokio::runtime::Builder::build` makes a runtime on the current thread, here one with everything
/// switched on by `enable_all`, the timers among it. Where the system refuses what the runtime
/// needs there is none. Beside the runtime stands the handle that `tokio::runtime::Runtime::handle`
/// gives of it.
#[verifier::external_body]
fn build_runtime() -> (r: Option<(Runtime, Handle)>)
    ensures
        r matches Some(pair) ==> keeps_time(pair.1),
{
    let runtime = Builder::new_current_thread().enable_all().build().ok()?;
    let handle = runtime.handle().clone();
    Some((runtime, handle))
}

/// `runtime` was built with its timers switched on, and `handle` is a handle on it.
pub closed spec fn started(runtime: Runtime, handle: Handle) -> bool {
    call_ensures(build_runtime, (), Some((runtime, handle)))
}

/// A call that was to build a runtime gave none.
pub closed spec fn refused() -> bool {
    call_ensures(build_runtime, (), None)
}

/// A runtime that was built with its timers switched on keeps time.
pub proof fn law_started(runtime: Runtime, handle: Handle)
    requires
        started(runtime, handle),
    ensures
        keeps_time(handle),
{
}

/// A runtime is started, or refused, by one call that was to build it.
proof fn law_runtimes_are_built(runtime: Runtime, handle: Handle)
    ensures
        started(runtime, handle) <==> call_ensures(build_runtime, (), Some((runtime, handle))),
        refused() <==> call_ensures(build_runtime, (), None),
{
}

/// A runtime that keeps time, with a handle on it, unless the system refuses one.
pub fn timed_runtime() -> (r: Option<(Runtime, Handle)>)
    ensures
        r matches Some(pair) ==> started(pair.0, pair.1) && keeps_time(pair.1),
        r is None ==> refused(),
{
    build_runtime()
}

} // verus!
