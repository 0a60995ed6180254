use vstd::prelude::*;

verus! {

/// The single-use channel on which the storage side answers one request.
#[verifier::external_type_specification]
#[verifier::external_body]
#[verifier::reject_recursive_types(T)]
pub struct ExOneshotSender<T>(tokio::sync::oneshot::Sender<T>);

/// The bounded queue on which the latest definition is handed to the output side.
#[verifier::external_type_specification]
#[verifier::external_body]
#[verifier::reject_recursive_types(T)]
pub struct ExBoundedSender<T>(tokio::sync::mpsc::Sender<T>);

/// The sending end of the queue of storage requests.
#[verifier::external_type_specification]
#[verifier::external_body]
#[verifier::reject_recursive_types(T)]
pub struct ExRequestSender<T>(async_channel::Sender<T>);

/// The receiving end of the queue of storage requests.
#[verifier::external_type_specification]
#[verifier::external_body]
#[verifier::reject_recursive_types(T)]
pub struct ExRequestReceiver<T>(async_channel::Receiver<T>);

/// Hands `value` to the receiving end of a single-use channel.
///
/// Calls `tokio::sync::oneshot::Sender::send`, which fails only when the
/// receiving end is gone; whether it is depends on the other task, so nothing
/// is promised of the outcome: `true` means the value was handed over.
#[verifier::external_body]
pub(crate) fn send_once<T>(replier: tokio::sync::oneshot::Sender<T>, value: T) -> (sent: bool) {
    replier.send(value).is_ok()
}

} // verus!
