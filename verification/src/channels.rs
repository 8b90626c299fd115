//! Bounded channels between the tasks of the relay.

use tokio::sync::mpsc::{Receiver, Sender};
use vstd::prelude::*;

verus! {

/// How many subscriptions to the updates of the chain wait until a service takes them.
pub const SLOT_UPDATE_CAPACITY: usize = 32;

/// How many gossiped messages wait for a proposer service.
pub const PROPOSER_GOSSIP_CAPACITY: usize = 32;

/// How many gossiped messages wait for a builder service.
pub const BUILDER_GOSSIP_CAPACITY: usize = 10;

/// `tokio::sync::mpsc::Sender`: a handle by which messages enter a channel.
#[verifier::external_type_specification]
#[verifier::external_body]
#[verifier::reject_recursive_types(T)]
pub struct ExSender<T>(Sender<T>);

/// `tokio::sync::mpsc::Receiver`: the end from which messages leave a channel.
#[verifier::external_type_specification]
#[verifier::external_body]
#[verifier::reject_recursive_types(T)]
pub struct ExReceiver<T>(Receiver<T>);

/// `tokio::sync::mpsc::channel` makes the two ends of a new channel that holds up to `buffer`
/// messages. It panics where `buffer` is 0 or more than an eighth of `usize::MAX`; nothing else
/// is claimed of it here: what passes through the channel depends on the tasks that use it.
/// Contracts that hand the two ends on relate them by [`opened`].
pub assume_specification<T>[ tokio::sync::mpsc::channel::<T> ](buffer: usize) -> (ends: (Sender<T>, Receiver<T>))
    requires
        0 < buffer <= usize::MAX / 8,
;

/// `tokio::sync::mpsc::Sender::clone` makes another handle on the same channel, which nothing
/// tells apart from the first.
pub assume_specification<T>[ <Sender<T> as Clone>::clone ](sender: &Sender<T>) -> (r: Sender<T>)
    ensures
        r == *sender,
;

/// `sender` and `receiver` are the two ends of one channel, made by one call of `channel` to
/// hold `capacity` messages.
pub open spec fn opened<T>(capacity: usize, sender: Sender<T>, receiver: Receiver<T>) -> bool {
    call_ensures(tokio::sync::mpsc::channel::<T>, (capacity,), (sender, receiver))
}

} // verus!
