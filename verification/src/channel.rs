//! The in-memory queues that events travel through.
//!
//! A queue has one receiving end and any number of sending handles. This
//! module holds everything that is taken on trust about them.

use crate::message::{Event, EventView};
use futures::sync::mpsc;
use vstd::prelude::*;

verus! {

/// Not looked into here: one sending handle of a queue.
#[verifier::external_type_specification]
#[verifier::external_body]
#[verifier::reject_recursive_types(T)]
pub struct ExUnboundedSender<T>(mpsc::UnboundedSender<T>);

/// Not looked into here: the receiving end of a queue.
#[verifier::external_type_specification]
#[verifier::external_body]
#[verifier::reject_recursive_types(T)]
pub struct ExUnboundedReceiver<T>(mpsc::UnboundedReceiver<T>);

/// The events that this handle has put into its queue, oldest first.
pub uninterp spec fn accepted(tx: mpsc::UnboundedSender<Event>) -> Seq<EventView>;

/// The events that this handle was given and could not put into its queue,
/// oldest first.
pub uninterp spec fn refused(tx: mpsc::UnboundedSender<Event>) -> Seq<EventView>;

/// Which queue a handle sends to.
pub uninterp spec fn sender_queue(tx: mpsc::UnboundedSender<Event>) -> nat;

/// Which queue a receiving end reads from.
pub uninterp spec fn receiver_queue(rx: mpsc::UnboundedReceiver<Event>) -> nat;

/// How many further handles have been made from this one.
pub uninterp spec fn copies(tx: mpsc::UnboundedSender<Event>) -> nat;

/// What there is to say about a sending handle.
pub struct ChannelView {
    pub queue: nat,
    pub accepted: Seq<EventView>,
    pub refused: Seq<EventView>,
    pub copies: nat,
}

impl ChannelView {
    /// A handle of `queue` that has not been used.
    pub open spec fn unused(queue: nat) -> ChannelView {
        ChannelView { queue, accepted: Seq::empty(), refused: Seq::empty(), copies: 0 }
    }

    /// The handle after it was given `event`, which its queue took or not.
    pub open spec fn offered(self, event: EventView, taken: bool) -> ChannelView {
        if taken {
            ChannelView { accepted: self.accepted.push(event), ..self }
        } else {
            ChannelView { refused: self.refused.push(event), ..self }
        }
    }

    /// The handle after another was made from it.
    pub open spec fn copied(self) -> ChannelView {
        ChannelView { copies: self.copies + 1, ..self }
    }
}

/// The view of a sending handle.
pub open spec fn channel(tx: mpsc::UnboundedSender<Event>) -> ChannelView {
    ChannelView {
        queue: sender_queue(tx),
        accepted: accepted(tx),
        refused: refused(tx),
        copies: copies(tx),
    }
}

/// A handle like `before` was given `event` and its queue did not take it.
pub open spec fn refusal(before: ChannelView, event: EventView) -> bool {
    exists|tx: mpsc::UnboundedSender<Event>| #[trigger] channel(tx) == before.offered(event, false)
}

/// Not proved here: `futures::sync::mpsc::unbounded` makes a new queue, and
/// returns an unused sending handle and the receiving end of that queue.
#[verifier::external_body]
pub(crate) fn open() -> (res: (mpsc::UnboundedSender<Event>, mpsc::UnboundedReceiver<Event>))
    ensures
        accepted(res.0) == Seq::<EventView>::empty(),
        refused(res.0) == Seq::<EventView>::empty(),
        copies(res.0) == 0,
        sender_queue(res.0) == receiver_queue(res.1),
{
    mpsc::unbounded()
}

/// Not proved here: `UnboundedSender::unbounded_send` puts one event into the
/// queue, and fails when the receiving end has been closed, after which every
/// further event fails too. Whether it has been closed is up to whoever holds
/// the receiving end. The handle is borrowed mutably because its view grows. The
/// call panics only with more events in the queue than memory can hold.
#[verifier::external_body]
pub(crate) fn send(tx: &mut mpsc::UnboundedSender<Event>, event: Event) -> (taken: bool)
    ensures
        accepted(*final(tx)) == if taken {
            accepted(*old(tx)).push(event@)
        } else {
            accepted(*old(tx))
        },
        refused(*final(tx)) == if taken {
            refused(*old(tx))
        } else {
            refused(*old(tx)).push(event@)
        },
        sender_queue(*final(tx)) == sender_queue(*old(tx)),
        copies(*final(tx)) == copies(*old(tx)),
        refused(*old(tx)).len() > 0 ==> !taken,
{
    tx.unbounded_send(event).is_ok()
}

/// Not proved here: cloning an `UnboundedSender` gives another, unused handle
/// of the same queue, and sends nothing. The handle is borrowed mutably because
/// it is counted how many were made from it. The call panics only with more
/// handles than memory can hold.
#[verifier::external_body]
pub(crate) fn another(tx: &mut mpsc::UnboundedSender<Event>) -> (res: mpsc::UnboundedSender<Event>)
    ensures
        accepted(res) == Seq::<EventView>::empty(),
        refused(res) == Seq::<EventView>::empty(),
        copies(res) == 0,
        sender_queue(res) == sender_queue(*old(tx)),
        accepted(*final(tx)) == accepted(*old(tx)),
        refused(*final(tx)) == refused(*old(tx)),
        copies(*final(tx)) == copies(*old(tx)) + 1,
        sender_queue(*final(tx)) == sender_queue(*old(tx)),
{
    tx.clone()
}

} // verus!
