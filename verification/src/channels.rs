//! Declarations of the channel endpoint types the library stores: the
//! bounded sender feeding the daemon's notification stream, and the one-shot
//! sender that answers a disposition request. Both are opaque here; the
//! library only moves them, and sends through them behind trusted wrappers.

use vstd::prelude::*;

verus! {

#[verifier::external_type_specification]
#[verifier::external_body]
#[verifier::reject_recursive_types(T)]
pub struct ExMpscSender<T>(tokio::sync::mpsc::Sender<T>);

#[verifier::external_type_specification]
#[verifier::external_body]
#[verifier::reject_recursive_types(T)]
pub struct ExOneshotSender<T>(tokio::sync::oneshot::Sender<T>);

} // verus!
