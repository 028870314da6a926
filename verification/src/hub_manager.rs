//! The hubs of all users, and who may enter them.

use crate::account::{
    new_account, AuthenticationInfo, AuthenticationInfoView, HubInfo, HubInfoView, StoredInfo,
};
use crate::channel;
use crate::channel::{receiver_queue, ChannelView};
use crate::hub::{
    is_joined, is_routed, ChannelSender, Error, Event, EventView, Hub, HubView, Receiver,
};
use crate::message::ChannelHandle;
use crate::password;
use crate::password::{is_password, HashError};
use crate::settings::{Settings, SettingsView};
use std::collections::HashMap;
use vstd::prelude::*;

verus! {

pub type HubHandle = u32;

/// Whether an account has been looked up before or after it was stored.
#[derive(Debug, Clone, Copy)]
pub enum Lookup {
    First,
    AfterInsert,
}

/// What to do after an account has been looked up.
#[derive(Debug)]
pub enum LookupStep {
    /// This is the account.
    Known(HubInfo),
    /// There is none: store this one, and look it up again.
    Insert(HubInfo),
    /// There is none, and the password could not be hashed.
    HashFailed(HashError),
}

/// What starts the Slack gateway of a new hub: its way into the hub and the
/// events that it gets, the events that reach the hub itself, and what it has
/// to know.
pub struct GatewayLink {
    pub sender: ChannelSender,
    pub gateway_rx: Receiver,
    pub hub_rx: Receiver,
    pub settings: Settings,
    pub info: StoredInfo,
}

/// The hub that a user was let into. If it has just been made its gateway has
/// to be started.
pub struct Connection {
    pub hub: HubHandle,
    pub gateway: Option<GatewayLink>,
}

/// All hubs that are in use.
pub struct HubManager {
    settings: Settings,
    hubs: HashMap<HubHandle, Hub>,
}

#[verifier::ext_equal]
pub struct HubManagerView {
    pub settings: SettingsView,
    pub hubs: Map<HubHandle, HubView>,
}

impl View for HubManager {
    type V = HubManagerView;

    closed spec fn view(&self) -> HubManagerView {
        HubManagerView {
            settings: self.settings@,
            hubs: self.hubs@.map_values(|hub: Hub| hub@),
        }
    }
}

/// The hubs once a user was let into the hub `id`: if a gateway is to be
/// started there is a new hub, whose only channel, the first, is that of the
/// gateway.
pub open spec fn opened(
    before: HubManagerView,
    id: HubHandle,
    gateway: Option<GatewayLink>,
) -> HubManagerView {
    match gateway {
        Some(link) => HubManagerView {
            hubs: before.hubs.insert(
                id,
                HubView {
                    own: ChannelView::unused(receiver_queue(link.hub_rx)).copied(),
                    channels: Map::empty().insert(
                        1usize,
                        ChannelView::unused(receiver_queue(link.gateway_rx)),
                    ),
                },
            ),
            ..before
        },
        None => before,
    }
}

/// What it means to let a user into the hub `info`. A gateway is to be started
/// if the hub is not in use; it gets a way into the hub as its first channel.
pub open spec fn is_connection(
    before: HubManagerView,
    info: HubInfoView,
    connection: Connection,
) -> bool {
    &&& connection.hub == info.id
    &&& connection.gateway is None <==> before.hubs.contains_key(info.id)
    &&& connection.gateway matches Some(link) ==> {
        &&& link.sender.id() == 1
        &&& link.sender@ == ChannelView::unused(receiver_queue(link.hub_rx))
        &&& link.settings@ == before.settings
        &&& link.info@ == info
    }
}

/// What it means to decide about a user after looking up their account. Without
/// one there is to be an account that accepts the password of the user, unless
/// it could not be hashed, which is always so if there is a NUL in it, and
/// otherwise not because of the password.
pub open spec fn is_lookup(
    auth: AuthenticationInfoView,
    found: Option<HubInfo>,
    res: LookupStep,
) -> bool {
    match found {
        Some(info) => res == LookupStep::Known(info),
        None => match res {
            LookupStep::Insert(info) => {
                &&& info@ == new_account(auth, info@.settings.pass)
                &&& is_password(auth.pass, info@.settings.pass)
                &&& !auth.pass.contains('\0')
            },
            LookupStep::HashFailed(e) => e.is_nul() ==> auth.pass.contains('\0'),
            LookupStep::Known(_) => false,
        },
    }
}

/// What it means to let a user into the hub `info`, or not: then nothing has
/// changed.
pub open spec fn is_entry(
    before: HubManagerView,
    admitted: bool,
    info: HubInfoView,
    res: Result<Connection, Error>,
    after: HubManagerView,
) -> bool {
    match res {
        Ok(connection) => {
            &&& admitted
            &&& is_connection(before, info, connection)
            &&& after == opened(before, info.id, connection.gateway)
        },
        Err(e) => {
            &&& !admitted
            &&& e == Error::WrongPassword
            &&& after == before
        },
    }
}

/// What it means that a channel has joined a hub that is in use: no other hub
/// has changed.
pub open spec fn is_hub_joined(
    before: HubManagerView,
    hub: HubHandle,
    sender: ChannelSender,
    rx: Receiver,
    after: HubManagerView,
) -> bool {
    &&& before.hubs.contains_key(hub)
    &&& is_joined(before.hubs[hub], sender, rx, after.hubs[hub])
    &&& after == HubManagerView { hubs: before.hubs.insert(hub, after.hubs[hub]), ..before }
}

/// What it means that an event from the queue of a hub was passed on. No other
/// hub has changed, and none at all if the hub is not in use.
pub open spec fn is_hub_routed(
    before: HubManagerView,
    hub: HubHandle,
    event: EventView,
    after: HubManagerView,
) -> bool {
    if before.hubs.contains_key(hub) {
        &&& is_routed(before.hubs[hub].channels, event, after.hubs[hub].channels)
        &&& after.hubs[hub].own == before.hubs[hub].own
        &&& after == HubManagerView { hubs: before.hubs.insert(hub, after.hubs[hub]), ..before }
    } else {
        after == before
    }
}

/// Before anybody has entered.
pub open spec fn no_hubs(settings: SettingsView) -> HubManagerView {
    HubManagerView { settings, hubs: Map::empty() }
}

/// Whether a hub is in use and another channel can join it.
pub open spec fn is_joinable(hubs: HubManagerView, hub: HubHandle) -> bool {
    hubs.hubs.contains_key(hub) && !hubs.hubs[hub].channels.contains_key(usize::MAX)
}

impl HubManager {
    pub closed spec fn wf(self) -> bool {
        forall|k: HubHandle| #[trigger] self.hubs@.contains_key(k) ==> self.hubs@[k].wf()
    }

    pub fn new(settings: Settings) -> (res: HubManager)
        ensures
            res.wf(),
            res@ == no_hubs(settings@),
    {
        let res = HubManager { settings, hubs: HashMap::new() };
        assert(res@.hubs =~= Map::<HubHandle, HubView>::empty());
        res
    }

    /// Decides what becomes of a user, given the account that the store has
    /// for the user's workspace and nick. Without one, an account with the
    /// user's password is to be stored and looked up again; then it has to be
    /// there.
    pub fn find_or_create(
        auth_info: &AuthenticationInfo,
        lookup: Lookup,
        found: Option<HubInfo>,
    ) -> (res: LookupStep)
        requires
            lookup is AfterInsert ==> found is Some,
        ensures
            is_lookup(auth_info@, found, res),
    {
        match (lookup, found) {
            (_, Some(info)) => LookupStep::Known(info),
            (Lookup::First, None) => match password::hash(auth_info.pass.as_str()) {
                Ok(hashed_pass) => LookupStep::Insert(HubInfo::first_login(auth_info, hashed_pass)),
                Err(e) => LookupStep::HashFailed(e),
            },
            (Lookup::AfterInsert, None) => vstd::pervasive::unreached(),
        }
    }

    /// Lets a user into the hub of their account if the password is right.
    pub fn connect(
        &mut self,
        auth_info: &AuthenticationInfo,
        hub_info: HubInfo,
    ) -> (res: Result<Connection, Error>)
        requires
            old(self).wf(),
        ensures
            final(self).wf(),
            is_entry(
                old(self)@,
                is_password(auth_info@.pass, hub_info@.settings.pass),
                hub_info@,
                res,
                final(self)@,
            ),
    {
        let admitted = password::accepts(auth_info.pass.as_str(), hub_info.settings.pass.as_str());
        self.enter(admitted, hub_info)
    }

    /// Lets a user into a hub, or not.
    pub fn enter(&mut self, admitted: bool, hub_info: HubInfo) -> (res: Result<Connection, Error>)
        requires
            old(self).wf(),
        ensures
            final(self).wf(),
            is_entry(old(self)@, admitted, hub_info@, res, final(self)@),
    {
        if !admitted {
            return Err(Error::WrongPassword);
        }
        let id: HubHandle = hub_info.id;
        if self.hubs.contains_key(&id) {
            return Ok(Connection { hub: id, gateway: None });
        }
        let (gateway_tx, gateway_rx) = channel::open();
        let (hub_tx, hub_rx) = channel::open();
        let mut hub = Hub::new(hub_tx);
        let sender = hub.add_channel(gateway_tx);
        proof {
            let alone = Map::<ChannelHandle, ChannelView>::empty().insert(
                1usize,
                ChannelView::unused(receiver_queue(gateway_rx)),
            );
            assert(channel::channel(gateway_tx) == ChannelView::unused(receiver_queue(gateway_rx)));
            assert(sender.id() == 1);
            assert(hub@.channels =~= alone);
        }
        self.hubs.insert(id, hub);
        assert(self@.hubs =~= old(self)@.hubs.insert(id, hub@));
        Ok(
            Connection {
                hub: id,
                gateway: Some(
                    GatewayLink {
                        sender,
                        gateway_rx,
                        hub_rx,
                        settings: self.settings.clone(),
                        info: StoredInfo::new(hub_info),
                    },
                ),
            },
        )
    }

    /// Whether a hub is in use and has room for another channel.
    pub fn has_room(&self, hub: HubHandle) -> (res: bool)
        ensures
            res == is_joinable(self@, hub),
    {
        match self.hubs.get(&hub) {
            Some(hub) => hub.has_room(),
            None => false,
        }
    }

    /// Whether a hub, if it is in use, has room for another channel.
    pub fn can_enter(&self, hub: HubHandle) -> (res: bool)
        ensures
            res == (self@.hubs.contains_key(hub) ==> !self@.hubs[hub].channels.contains_key(
                usize::MAX,
            )),
    {
        match self.hubs.get(&hub) {
            Some(hub) => hub.has_room(),
            None => true,
        }
    }

    /// Adds a channel to a hub.
    pub fn join(&mut self, hub: HubHandle) -> (res: Result<(ChannelSender, Receiver), Error>)
        requires
            old(self).wf(),
            old(self)@.hubs.contains_key(hub),
            !old(self)@.hubs[hub].channels.contains_key(usize::MAX),
        ensures
            final(self).wf(),
            res matches Ok((sender, rx)) && is_hub_joined(
                old(self)@,
                hub,
                sender,
                rx,
                final(self)@,
            ),
    {
        let mut inner = self.hubs.remove(&hub).unwrap();
        let res = inner.join();
        self.hubs.insert(hub, inner);
        assert(self@.hubs =~= old(self)@.hubs.insert(hub, inner@));
        res
    }

    /// Passes on an event from the queue of a hub. Once the hub is gone there
    /// is nobody to pass it on to.
    pub fn route(&mut self, hub: HubHandle, event: Event)
        requires
            old(self).wf(),
        ensures
            final(self).wf(),
            is_hub_routed(old(self)@, hub, event@, final(self)@),
    {
        match self.hubs.remove(&hub) {
            Some(mut inner) => {
                inner.route(event);
                self.hubs.insert(hub, inner);
                assert(self@.hubs =~= old(self)@.hubs.insert(hub, inner@));
            },
            None => {
                assert(self@.hubs =~= old(self)@.hubs);
            },
        }
    }
}

} // verus!
