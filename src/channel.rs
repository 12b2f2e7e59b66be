//! The one-directional channels between the scanner and its surroundings.
use vstd::prelude::*;
use std::sync::mpsc::{Receiver, Sender};

verus! {

#[verifier::external_type_specification]
#[verifier::external_body]
#[verifier::reject_recursive_types(T)]
pub struct ExSender<T>(Sender<T>);

#[verifier::external_type_specification]
#[verifier::external_body]
#[verifier::reject_recursive_types(T)]
pub struct ExReceiver<T>(Receiver<T>);

/// Relies on `Sender::clone`: another sender on the same channel.
pub assume_specification<T>[ <Sender<T> as Clone>::clone ](tx: &Sender<T>) -> Sender<T>;

/// Relies on `Sender::send`: it never blocks, and fails only when the
/// receiving end is gone, handing the unsent value back in its error.
#[verifier::external_body]
pub(crate) fn send<T>(tx: &Sender<T>, value: T) -> (r: Result<(), T>)
    ensures
        r matches Err(v) ==> v == value,
{
    tx.send(value).map_err(|e| e.0)
}

} // verus!
