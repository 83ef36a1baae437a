//! The boundary to `futures`: the one-shot channels through which the
//! outcome of a call reaches the caller. Nothing in this module is proved:
//! each item states what the outside function does.

use futures::channel::oneshot::Sender;
use serde_json::Value;
use vstd::prelude::*;

verus! {

/// The sending half of a `futures` one-shot channel: a completion handle
/// that can be resolved once.
#[verifier::external_type_specification]
#[verifier::external_body]
#[verifier::reject_recursive_types(T)]
pub struct ExSender<T>(Sender<T>);

/// Completion handle of a request.
pub type ResponseTx = Sender<Result<Value, Value>>;

/// Completion handle of a notification.
pub type AckTx = Sender<()>;

/// `Sender::send`: resolves the handle with `value`. Tells whether the
/// value was handed over; it is not when the receiving half is gone.
#[verifier::external_body]
pub(crate) fn complete<T>(tx: Sender<T>, value: T) -> (delivered: bool) {
    tx.send(value).is_ok()
}

} // verus!
