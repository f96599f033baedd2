//! The channel endpoints that registrations hand out, from tokio's `sync` module.

use crate::frame::{Frame, Notification};
use tokio::sync::{broadcast, mpsc, oneshot};
use vstd::prelude::*;

verus! {

#[verifier::external_type_specification]
#[verifier::external_body]
#[verifier::reject_recursive_types(T)]
pub struct ExOneshotSender<T>(oneshot::Sender<T>);

#[verifier::external_type_specification]
#[verifier::external_body]
#[verifier::reject_recursive_types(T)]
pub struct ExOneshotReceiver<T>(oneshot::Receiver<T>);

#[verifier::external_type_specification]
#[verifier::external_body]
pub struct ExOneshotRecvError(oneshot::error::RecvError);

#[verifier::external_type_specification]
#[verifier::external_body]
#[verifier::reject_recursive_types(T)]
pub struct ExMpscSender<T>(mpsc::Sender<T>);

#[verifier::external_type_specification]
#[verifier::external_body]
#[verifier::reject_recursive_types(T)]
pub struct ExMpscReceiver<T>(mpsc::Receiver<T>);

#[verifier::external_type_specification]
#[verifier::external_body]
#[verifier::reject_recursive_types(T)]
pub struct ExBroadcastSender<T>(broadcast::Sender<T>);

#[verifier::external_type_specification]
#[verifier::external_body]
#[verifier::reject_recursive_types(T)]
pub struct ExBroadcastReceiver<T>(broadcast::Receiver<T>);

/// The channel that a single-use sender of frames writes to.
pub uninterp spec fn oneshot_tx_chan(tx: oneshot::Sender<Frame>) -> int;

/// The channel that a single-use receiver of frames reads from.
pub uninterp spec fn oneshot_rx_chan(rx: oneshot::Receiver<Frame>) -> int;

/// The channel that a bounded sender of frames writes to.
pub uninterp spec fn mpsc_tx_chan(tx: mpsc::Sender<Frame>) -> int;

/// The channel that a bounded receiver of frames reads from.
pub uninterp spec fn mpsc_rx_chan(rx: mpsc::Receiver<Frame>) -> int;

/// The bound that a bounded channel of frames was made with.
pub uninterp spec fn bounded_capacity(tx: mpsc::Sender<Frame>) -> int;

/// The fan-out channel that a sender of frames writes to.
pub uninterp spec fn fanout_tx_chan(tx: broadcast::Sender<Frame>) -> int;

/// The fan-out channel that a receiver of frames reads from.
pub uninterp spec fn fanout_rx_chan(rx: broadcast::Receiver<Frame>) -> int;

/// The fan-out channel that a sender of notifications writes to.
pub uninterp spec fn notice_tx_chan(tx: broadcast::Sender<Notification>) -> int;

/// The fan-out channel that a receiver of notifications reads from.
pub uninterp spec fn notice_rx_chan(rx: broadcast::Receiver<Notification>) -> int;

/// Relies on `tokio::sync::oneshot::channel`: a fresh single-use channel whose
/// two halves belong together.
#[verifier::external_body]
pub(crate) fn oneshot_pair() -> (r: (oneshot::Sender<Frame>, oneshot::Receiver<Frame>))
    ensures
        oneshot_tx_chan(r.0) == oneshot_rx_chan(r.1),
{
    oneshot::channel()
}

/// Relies on `tokio::sync::mpsc::channel`: a fresh channel holding at most
/// `bound` frames, whose two halves belong together. It panics when `bound` is
/// zero or above `usize::MAX >> 3`, that is `usize::MAX / 8` (the
/// semaphore's limit).
#[verifier::external_body]
pub(crate) fn bounded_pair(bound: usize) -> (r: (mpsc::Sender<Frame>, mpsc::Receiver<Frame>))
    requires
        0 < bound <= usize::MAX / 8,
    ensures
        mpsc_tx_chan(r.0) == mpsc_rx_chan(r.1),
        bounded_capacity(r.0) == bound,
{
    mpsc::channel(bound)
}

/// Relies on `Clone` for `tokio::sync::mpsc::Sender`: one more handle on the
/// same channel.
#[verifier::external_body]
pub(crate) fn bounded_sender_clone(tx: &mpsc::Sender<Frame>) -> (r: mpsc::Sender<Frame>)
    ensures
        mpsc_tx_chan(r) == mpsc_tx_chan(*tx),
        bounded_capacity(r) == bounded_capacity(*tx),
{
    tx.clone()
}

/// Relies on `tokio::sync::broadcast::channel`: a fresh fan-out channel of
/// frames, of which only the sending half is kept; it panics on a zero
/// capacity and on one above `usize::MAX >> 1`, that is `usize::MAX / 2`.
#[verifier::external_body]
pub(crate) fn fanout_sender(capacity: usize) -> broadcast::Sender<Frame>
    requires
        0 < capacity <= usize::MAX / 2,
{
    broadcast::channel(capacity).0
}

/// Relies on `tokio::sync::broadcast::Sender::subscribe`: a new receiver on
/// the sender's channel.
#[verifier::external_body]
pub(crate) fn fanout_subscribe(tx: &broadcast::Sender<Frame>) -> (r: broadcast::Receiver<Frame>)
    ensures
        fanout_rx_chan(r) == fanout_tx_chan(*tx),
{
    tx.subscribe()
}

/// Relies on `Clone` for `tokio::sync::broadcast::Sender`: one more handle on
/// the same channel.
#[verifier::external_body]
pub(crate) fn fanout_sender_clone(tx: &broadcast::Sender<Frame>) -> (r: broadcast::Sender<Frame>)
    ensures
        fanout_tx_chan(r) == fanout_tx_chan(*tx),
{
    tx.clone()
}

/// Relies on `tokio::sync::broadcast::channel`: a fresh fan-out channel of
/// notifications, of which only the sending half is kept; it panics on a zero
/// capacity and on one above `usize::MAX >> 1`, that is `usize::MAX / 2`.
#[verifier::external_body]
pub(crate) fn notice_sender(capacity: usize) -> broadcast::Sender<Notification>
    requires
        0 < capacity <= usize::MAX / 2,
{
    broadcast::channel(capacity).0
}

/// Relies on `tokio::sync::broadcast::Sender::subscribe`: a new receiver on
/// the sender's channel.
#[verifier::external_body]
pub(crate) fn notice_subscribe(tx: &broadcast::Sender<Notification>) -> (r: broadcast::Receiver<Notification>)
    ensures
        notice_rx_chan(r) == notice_tx_chan(*tx),
{
    tx.subscribe()
}

/// Relies on `Clone` for `tokio::sync::broadcast::Sender`: one more handle on
/// the same channel.
#[verifier::external_body]
pub(crate) fn notice_sender_clone(tx: &broadcast::Sender<Notification>) -> (r: broadcast::Sender<Notification>)
    ensures
        notice_tx_chan(r) == notice_tx_chan(*tx),
{
    tx.clone()
}

} // verus!
