//! The completion token: the sending half of a one-shot channel, on which
//! the party that asked for a flush waits for its end.

use tokio::sync::oneshot::Sender;
use vstd::prelude::*;

verus! {

/// `tokio::sync::oneshot::Sender`: carried, never looked into.
#[verifier::external_type_specification]
#[verifier::external_body]
#[verifier::reject_recursive_types(T)]
pub struct ExSender<T>(tokio::sync::oneshot::Sender<T>);

/// `tokio::sync::oneshot::Sender::send` with the unit value: wakes the
/// receiver if it still waits; where it is gone, the value is dropped.
/// Trusted; nothing is claimed of the effect.
#[verifier::external_body]
pub(crate) fn signal(token: Sender<()>) {
    let _ = token.send(());
}

} // verus!
