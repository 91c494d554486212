//! Trusted boundary around the outbound delivery primitive.
//!
//! Every notification leaves the actor through a `tokio` unbounded sender.
//! The sender itself is opaque to the verifier; the two wrappers below are
//! the only places where the library touches it.

use vstd::prelude::*;

verus! {

/// `tokio::sync::mpsc::UnboundedSender` carried as an opaque value: the
/// library stores handles and passes them around, it never looks inside.
#[verifier::external_type_specification]
#[verifier::external_body]
#[verifier::reject_recursive_types(T)]
pub struct ExUnboundedSender<T>(tokio::sync::mpsc::UnboundedSender<T>);

/// Relies on `tokio::sync::mpsc::UnboundedSender::send`: enqueues the message
/// unless the receiving half has been dropped. Whether the far end is still
/// alive is external state, so nothing is promised about the outcome; callers
/// must cope with both results.
#[verifier::external_body]
pub(crate) fn channel_send<T>(tx: &tokio::sync::mpsc::UnboundedSender<T>, message: T) -> bool {
    tx.send(message).is_ok()
}

/// Relies on `tokio::sync::mpsc::UnboundedSender`'s `Clone` impl: hands back
/// another sending handle onto the same queue. The handle is opaque, so no
/// relation between the two values is stated.
#[verifier::external_body]
pub(crate) fn channel_clone<T>(tx: &tokio::sync::mpsc::UnboundedSender<T>) -> tokio::sync::mpsc::UnboundedSender<T> {
    tx.clone()
}

} // verus!
