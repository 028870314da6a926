//! Hubs: every user has one, and everything that belongs to the user, the
//! Slack gateway and each IRC connection, joins it through a channel.

use crate::channel;
use crate::channel::{receiver_queue, refusal, ChannelView};
use futures::sync::mpsc;
use std::collections::HashMap;
use vstd::prelude::*;

pub use crate::account::{AuthenticationInfo, HubInfo, HubSettings, StoredInfo};
pub use crate::hub_manager::{HubHandle, HubManager};
pub use crate::message::{ChannelHandle, Event, EventView, Message, MessageView};

verus! {

pub type Sender = mpsc::UnboundedSender<Event>;

pub type Receiver = mpsc::UnboundedReceiver<Event>;

#[derive(Debug)]
pub enum Error {
    /// The password is not that of the hub.
    WrongPassword,
    /// The receiving end is gone.
    SendError,
    /// No channel of the hub has this handle.
    ChannelDoesNotExist(ChannelHandle),
}

/// One channel of a hub, as the hub sees it: where events for it go.
pub struct HubChannel {
    _id: ChannelHandle,
    tx: Sender,
}

impl View for HubChannel {
    type V = ChannelView;

    closed spec fn view(&self) -> ChannelView {
        channel::channel(self.tx)
    }
}

impl HubChannel {
    pub closed spec fn id(self) -> ChannelHandle {
        self._id
    }

    fn new(id: ChannelHandle, tx: Sender) -> (res: HubChannel)
        ensures
            res.id() == id,
            res@ == channel::channel(tx),
    {
        HubChannel { _id: id, tx }
    }

    /// Gives the channel an event, and tells whether its queue took it.
    fn offer(&mut self, event: Event) -> (taken: bool)
        ensures
            final(self).id() == old(self).id(),
            final(self)@ == old(self)@.offered(event@, taken),
            old(self)@.refused.len() > 0 ==> !taken,
            !taken ==> refusal(old(self)@, event@),
    {
        let taken = channel::send(&mut self.tx, event);
        assert(channel::channel(self.tx) == old(self)@.offered(event@, taken));
        taken
    }
}

/// A channel's own way into its hub.
#[derive(Debug)]
pub struct ChannelSender {
    id: ChannelHandle,
    tx: Sender,
}

impl View for ChannelSender {
    type V = ChannelView;

    closed spec fn view(&self) -> ChannelView {
        channel::channel(self.tx)
    }
}

/// What a call that hands one event to a queue returns.
pub open spec fn send_result(taken: bool) -> Result<(), Error> {
    if taken {
        Ok(())
    } else {
        Err(Error::SendError)
    }
}

/// Turns what became of an event into a result.
pub fn sent(taken: bool) -> (res: Result<(), Error>)
    ensures
        res == send_result(taken),
{
    if taken {
        Ok(())
    } else {
        Err(Error::SendError)
    }
}

impl ChannelSender {
    pub closed spec fn id(self) -> ChannelHandle {
        self.id
    }

    /// The handle under which the hub knows the channel.
    pub fn handle(&self) -> (res: ChannelHandle)
        ensures
            res == self.id(),
    {
        self.id
    }

    /// Sends a message to every other channel of the hub.
    pub fn broadcast(&mut self, message: Message) -> (res: Result<(), Error>)
        ensures
            final(self).id() == old(self).id(),
            final(self)@ == old(self)@.offered(
                EventView { from: old(self).id(), to: None, message: message@ },
                res is Ok,
            ),
            res == send_result(res is Ok),
            res is Err ==> refusal(
                old(self)@,
                EventView { from: old(self).id(), to: None, message: message@ },
            ),
            old(self)@.refused.len() > 0 ==> res is Err,
    {
        let taken = channel::send(&mut self.tx, Event { from: self.id, to: None, message });
        assert(channel::channel(self.tx) == old(self)@.offered(
            EventView { from: old(self).id(), to: None, message: message@ },
            taken,
        ));
        sent(taken)
    }

    /// Sends a message to one channel of the hub.
    pub fn send_to(&mut self, to: ChannelHandle, message: Message) -> (res: Result<(), Error>)
        ensures
            final(self).id() == old(self).id(),
            final(self)@ == old(self)@.offered(
                EventView { from: old(self).id(), to: Some(to), message: message@ },
                res is Ok,
            ),
            res == send_result(res is Ok),
            res is Err ==> refusal(
                old(self)@,
                EventView { from: old(self).id(), to: Some(to), message: message@ },
            ),
            old(self)@.refused.len() > 0 ==> res is Err,
    {
        let taken = channel::send(&mut self.tx, Event { from: self.id, to: Some(to), message });
        assert(channel::channel(self.tx) == old(self)@.offered(
            EventView { from: old(self).id(), to: Some(to), message: message@ },
            taken,
        ));
        sent(taken)
    }
}

/// The channels of one user, and the queue through which they reach the hub.
pub struct Hub {
    channels: HashMap<ChannelHandle, HubChannel>,
    tx: Sender,
}

/// What there is to say about a hub: its own handle of the queue that its
/// channels send to, and the channels.
#[verifier::ext_equal]
pub struct HubView {
    pub own: ChannelView,
    pub channels: Map<ChannelHandle, ChannelView>,
}

impl View for Hub {
    type V = HubView;

    closed spec fn view(&self) -> HubView {
        HubView {
            own: channel::channel(self.tx),
            channels: self.channels@.map_values(|c: HubChannel| c@),
        }
    }
}

/// The handle that the next channel gets: one more than the largest in use.
pub open spec fn is_next_handle(used: Set<ChannelHandle>, handle: ChannelHandle) -> bool {
    &&& handle >= 1
    &&& forall|k: ChannelHandle| used.contains(k) ==> k < handle
    &&& handle == 1 || used.contains((handle - 1) as usize)
}

/// What a broadcast makes of the channels: `from` stays as it is, and every
/// other channel is given the event; it stays if its queue took it, and is
/// dropped if not.
pub open spec fn is_broadcast(
    before: Map<ChannelHandle, ChannelView>,
    from: ChannelHandle,
    message: MessageView,
    after: Map<ChannelHandle, ChannelView>,
) -> bool {
    let event = EventView { from, to: None, message };
    &&& after.dom().subset_of(before.dom())
    &&& before.contains_key(from) ==> after.contains_key(from) && after[from] == before[from]
    &&& forall|k: ChannelHandle| #[trigger]
        before.contains_key(k) && k != from ==> {
            &&& after.contains_key(k) ==> after[k] == before[k].offered(event, true)
            &&& !after.contains_key(k) ==> refusal(before[k], event)
            &&& before[k].refused.len() > 0 ==> !after.contains_key(k)
        }
}

/// What passing on `event` makes of the channels. An event for a channel that
/// there is not leaves everything as it is.
pub open spec fn is_routed(
    before: Map<ChannelHandle, ChannelView>,
    event: EventView,
    after: Map<ChannelHandle, ChannelView>,
) -> bool {
    match event.to {
        Some(to) => if before.contains_key(to) {
            if after.contains_key(to) {
                &&& after == before.insert(to, before[to].offered(event, true))
                &&& before[to].refused.len() == 0
            } else {
                &&& after == before.remove(to)
                &&& refusal(before[to], event)
            }
        } else {
            after == before
        },
        None => is_broadcast(before, event.from, event.message, after),
    }
}

/// What it means that a channel with a queue of its own has joined a hub:
/// `rx` gets what is sent to it, and `sender` is its way into the hub. Every
/// other channel is told.
pub open spec fn is_joined(
    before: HubView,
    sender: ChannelSender,
    rx: Receiver,
    after: HubView,
) -> bool {
    &&& is_next_handle(before.channels.dom(), sender.id())
    &&& is_broadcast(
        before.channels.insert(sender.id(), ChannelView::unused(receiver_queue(rx))),
        sender.id(),
        MessageView::NewChannel,
        after.channels,
    )
    &&& sender@ == ChannelView::unused(before.own.queue)
    &&& after.own == before.own.copied()
}

impl Hub {
    /// Every channel is filed under its own handle, and handles start at one.
    pub closed spec fn wf(self) -> bool {
        forall|k: ChannelHandle| #[trigger]
            self.channels@.contains_key(k) ==> k >= 1 && self.channels@[k].id() == k
    }

    /// A hub without channels, which is reached through `tx`.
    pub fn new(tx: Sender) -> (res: Hub)
        ensures
            res.wf(),
            res@ == (HubView { own: channel::channel(tx), channels: Map::empty() }),
    {
        let res = Hub { channels: HashMap::new(), tx };
        assert(res@.channels =~= Map::<ChannelHandle, ChannelView>::empty());
        res
    }

    /// The handles of all channels, in no particular order.
    fn handles(&self) -> (res: Vec<ChannelHandle>)
        ensures
            res@.no_duplicates(),
            forall|k: ChannelHandle| res@.contains(k) <==> self@.channels.contains_key(k),
    {
        let mut res: Vec<ChannelHandle> = Vec::new();
        let ghost keys = vstd::std_specs::iter::IteratorSpec::remaining(
            &self.channels.keys(),
        ).unref();
        for k in it: self.channels.keys()
            invariant
                it.seq().unref() == keys,
                res@ == keys.take(it.index() as int),
        {
            res.push(*k);
        }
        assert(res@ == keys);
        assert forall|k: ChannelHandle| res@.contains(k) <==> self@.channels.contains_key(k) by {
            assert(keys.to_set().contains(k) <==> self.channels@.contains_key(k));
        }
        res
    }

    /// Puts a channel back that was given an event, unless its queue did not
    /// take it.
    fn settle(&mut self, id: ChannelHandle, hub_channel: HubChannel, taken: bool)
        requires
            hub_channel.id() == id,
            id >= 1,
            old(self).wf(),
        ensures
            final(self).wf(),
            final(self)@.own == old(self)@.own,
            final(self)@.channels == if taken {
                old(self)@.channels.insert(id, hub_channel@)
            } else {
                old(self)@.channels
            },
    {
        if taken {
            self.channels.insert(id, hub_channel);
            assert(self@.channels =~= old(self)@.channels.insert(id, hub_channel@));
        }
    }

    /// Takes a channel out of the hub.
    fn take(&mut self, id: ChannelHandle) -> (res: Option<HubChannel>)
        requires
            old(self).wf(),
        ensures
            final(self).wf(),
            final(self)@.own == old(self)@.own,
            final(self)@.channels == old(self)@.channels.remove(id),
            match res {
                Some(hub_channel) => {
                    &&& id >= 1
                    &&& hub_channel.id() == id
                    &&& old(self)@.channels.contains_key(id)
                    &&& hub_channel@ == old(self)@.channels[id]
                },
                None => !old(self)@.channels.contains_key(id),
            },
    {
        let res = self.channels.remove(&id);
        assert(self@.channels =~= old(self)@.channels.remove(id));
        res
    }

    /// Whether there is a handle left for another channel.
    pub fn has_room(&self) -> (res: bool)
        ensures
            res == !self@.channels.contains_key(usize::MAX),
    {
        !self.channels.contains_key(&usize::MAX)
    }

    /// The handle for the next channel.
    fn next_handle(&self) -> (res: ChannelHandle)
        requires
            self.wf(),
            !self@.channels.contains_key(usize::MAX),
        ensures
            is_next_handle(self@.channels.dom(), res),
    {
        let handles = self.handles();
        let mut largest: ChannelHandle = 0;
        let mut i: usize = 0;
        while i < handles.len()
            invariant
                i <= handles@.len(),
                forall|j: int| 0 <= j < i ==> handles@[j] <= largest,
                largest == 0 || handles@.contains(largest),
            decreases handles@.len() - i,
        {
            if handles[i] > largest {
                largest = handles[i];
            }
            i += 1;
        }
        assert(largest < usize::MAX);
        assert forall|k: ChannelHandle| self@.channels.dom().contains(k) implies k < largest + 1 by {
            assert(handles@.contains(k));
        }
        largest + 1
    }

    /// Adds a channel, which is reached through `tx`, and tells every other
    /// channel about it.
    pub fn add_channel(&mut self, tx: Sender) -> (res: ChannelSender)
        requires
            old(self).wf(),
            !old(self)@.channels.contains_key(usize::MAX),
        ensures
            final(self).wf(),
            final(self)@.own == old(self)@.own.copied(),
            is_next_handle(old(self)@.channels.dom(), res.id()),
            is_broadcast(
                old(self)@.channels.insert(res.id(), channel::channel(tx)),
                res.id(),
                MessageView::NewChannel,
                final(self)@.channels,
            ),
            res@ == ChannelView::unused(old(self)@.own.queue),
    {
        let next_id: ChannelHandle = self.next_handle();
        self.channels.insert(next_id, HubChannel::new(next_id, tx));
        assert(self@.channels =~= old(self)@.channels.insert(next_id, channel::channel(tx)));
        self.broadcast(next_id, Message::NewChannel);
        ChannelSender { tx: channel::another(&mut self.tx), id: next_id }
    }

    /// Adds a channel with a queue of its own.
    pub fn join(&mut self) -> (res: Result<(ChannelSender, Receiver), Error>)
        requires
            old(self).wf(),
            !old(self)@.channels.contains_key(usize::MAX),
        ensures
            final(self).wf(),
            res matches Ok((sender, rx)) && is_joined(old(self)@, sender, rx, final(self)@),
    {
        let (gateway_tx, gateway_rx) = channel::open();
        assert(channel::channel(gateway_tx) == ChannelView::unused(receiver_queue(gateway_rx)));
        let sender = self.add_channel(gateway_tx);
        Ok((sender, gateway_rx))
    }

    /// Sends a message to every channel but `from`, and drops the channels
    /// whose receiving end is gone.
    pub fn broadcast(&mut self, from: ChannelHandle, message: Message)
        requires
            old(self).wf(),
        ensures
            final(self).wf(),
            final(self)@.own == old(self)@.own,
            is_broadcast(old(self)@.channels, from, message@, final(self)@.channels),
    {
        let event = Event { from, to: None, message };
        let handles = self.handles();
        let ghost before = old(self)@.channels;
        let mut i: usize = 0;
        assert forall|j: int| 0 <= j < handles@.len() implies before.contains_key(
            #[trigger] handles@[j],
        ) by {
            assert(handles@.contains(handles@[j]));
        }
        while i < handles.len()
            invariant
                i <= handles@.len(),
                self.wf(),
                self@.own == old(self)@.own,
                before == old(self)@.channels,
                handles@.no_duplicates(),
                forall|k: ChannelHandle| handles@.contains(k) <==> before.contains_key(k),
                event@ == (EventView { from, to: None, message: message@ }),
                self@.channels.dom().subset_of(before.dom()),
                forall|j: int|
                    i <= j < handles@.len() ==> self@.channels.contains_key(#[trigger] handles@[j])
                        && self@.channels[handles@[j]] == before[handles@[j]],
                forall|j: int|
                    0 <= j < i && #[trigger] handles@[j] == from ==> self@.channels.contains_key(from)
                        && self@.channels[from] == before[from],
                forall|j: int|
                    #![trigger handles@[j]]
                    0 <= j < i && handles@[j] != from ==> {
                        let k = handles@[j];
                        &&& self@.channels.contains_key(k) ==> self@.channels[k]
                            == before[k].offered(event@, true)
                        &&& !self@.channels.contains_key(k) ==> refusal(before[k], event@)
                        &&& before[k].refused.len() > 0 ==> !self@.channels.contains_key(k)
                    },
            decreases handles@.len() - i,
        {
            let id: ChannelHandle = handles[i];
            assert(self@.channels.contains_key(handles@[i as int]));
            if id != from {
                if let Some(mut hub_channel) = self.take(id) {
                    let taken = hub_channel.offer(event.clone());
                    self.settle(id, hub_channel, taken);
                }
            }
            i += 1;
        }
        assert forall|k: ChannelHandle| #[trigger] before.contains_key(k) && k != from implies {
            &&& self@.channels.contains_key(k) ==> self@.channels[k] == before[k].offered(
                event@,
                true,
            )
            &&& !self@.channels.contains_key(k) ==> refusal(before[k], event@)
            &&& before[k].refused.len() > 0 ==> !self@.channels.contains_key(k)
        } by {
            assert(handles@.contains(k));
        }
        assert(before.contains_key(from) ==> handles@.contains(from));
    }

    /// Sends a message to one channel.
    pub fn send_to(
        &mut self,
        from: ChannelHandle,
        to: ChannelHandle,
        message: Message,
    ) -> (res: Result<(), Error>)
        requires
            old(self).wf(),
        ensures
            final(self).wf(),
            final(self)@.own == old(self)@.own,
            !old(self)@.channels.contains_key(to) ==> {
                &&& res == Err::<(), Error>(Error::ChannelDoesNotExist(to))
                &&& final(self)@ == old(self)@
            },
            old(self)@.channels.contains_key(to) ==> {
                let event = EventView { from, to: Some(to), message: message@ };
                let before = old(self)@.channels[to];
                &&& res == send_result(res is Ok)
                &&& final(self)@.channels == old(self)@.channels.insert(
                    to,
                    before.offered(event, res is Ok),
                )
                &&& res is Err ==> refusal(before, event)
                &&& before.refused.len() > 0 ==> res is Err
            },
    {
        match self.take(to) {
            Some(mut hub_channel) => {
                let taken = hub_channel.offer(Event { from, to: Some(to), message });
                self.settle(to, hub_channel, true);
                assert(self@.channels =~= old(self)@.channels.insert(
                    to,
                    old(self)@.channels[to].offered(
                        EventView { from, to: Some(to), message: message@ },
                        taken,
                    ),
                ));
                sent(taken)
            },
            None => {
                assert(self@ =~= old(self)@);
                Err(Error::ChannelDoesNotExist(to))
            },
        }
    }

    /// Drops the channel that a message was for if its receiving end turned
    /// out to be gone.
    pub fn on_sent(&mut self, to: ChannelHandle, outcome: Result<(), Error>)
        requires
            old(self).wf(),
        ensures
            final(self).wf(),
            final(self)@.own == old(self)@.own,
            final(self)@.channels == if outcome == Err::<(), Error>(Error::SendError) {
                old(self)@.channels.remove(to)
            } else {
                old(self)@.channels
            },
    {
        match outcome {
            Err(Error::SendError) => {
                let _dropped = self.take(to);
            },
            _ => {},
        }
    }

    /// Passes on an event from the queue of the hub: to the channel it is for
    /// or, without one, to every channel but the one it comes from. A channel
    /// whose receiving end is gone is dropped.
    pub fn route(&mut self, event: Event)
        requires
            old(self).wf(),
        ensures
            final(self).wf(),
            final(self)@.own == old(self)@.own,
            is_routed(old(self)@.channels, event@, final(self)@.channels),
    {
        let Event { from, to, message } = event;
        match to {
            Some(to) => {
                let ghost before = self@.channels;
                let outcome = self.send_to(from, to, message);
                let ghost between = self@.channels;
                self.on_sent(to, outcome);
                proof {
                    if before.contains_key(to) {
                        assert(between.remove(to) =~= before.remove(to));
                        if outcome is Err {
                            assert(self@.channels == before.remove(to));
                        }
                    }
                }
            },
            None => self.broadcast(from, message),
        }
    }
}

} // verus!
