//! What is kept about each user.

use crate::text::option_view;
use vstd::prelude::*;

verus! {

/// What a client logs in with.
#[derive(Debug)]
pub struct AuthenticationInfo {
    pub workspace: String,
    pub nick: String,
    pub pass: String,
}

pub struct AuthenticationInfoView {
    pub workspace: Seq<char>,
    pub nick: Seq<char>,
    pub pass: Seq<char>,
}

impl View for AuthenticationInfo {
    type V = AuthenticationInfoView;

    open spec fn view(&self) -> AuthenticationInfoView {
        AuthenticationInfoView { workspace: self.workspace@, nick: self.nick@, pass: self.pass@ }
    }
}

/// The settings of a hub: the hash of its password, and the Slack token once
/// there is one.
#[derive(Debug)]
pub struct HubSettings {
    pub pass: String,
    pub token: Option<String>,
}

pub struct HubSettingsView {
    pub pass: Seq<char>,
    pub token: Option<Seq<char>>,
}

impl View for HubSettings {
    type V = HubSettingsView;

    open spec fn view(&self) -> HubSettingsView {
        HubSettingsView { pass: self.pass@, token: option_view(self.token) }
    }
}

/// What is stored about a hub.
#[derive(Debug)]
pub struct HubInfo {
    pub id: u32,
    pub workspace: String,
    pub nick: String,
    pub settings: HubSettings,
}

pub struct HubInfoView {
    pub id: u32,
    pub workspace: Seq<char>,
    pub nick: Seq<char>,
    pub settings: HubSettingsView,
}

impl View for HubInfo {
    type V = HubInfoView;

    open spec fn view(&self) -> HubInfoView {
        HubInfoView {
            id: self.id,
            workspace: self.workspace@,
            nick: self.nick@,
            settings: self.settings@,
        }
    }
}

/// What is stored about a user who logs in for the first time. The store
/// picks the identity, and there is no token yet.
pub open spec fn new_account(auth: AuthenticationInfoView, hashed: Seq<char>) -> HubInfoView {
    HubInfoView {
        id: 0,
        workspace: auth.workspace,
        nick: auth.nick,
        settings: HubSettingsView { pass: hashed, token: None },
    }
}

impl HubInfo {
    /// What to store about a user who logs in for the first time.
    pub fn first_login(auth_info: &AuthenticationInfo, hashed_pass: String) -> (res: HubInfo)
        ensures
            res@ == new_account(auth_info@, hashed_pass@),
    {
        HubInfo {
            id: 0,
            workspace: auth_info.workspace.clone(),
            nick: auth_info.nick.clone(),
            settings: HubSettings { pass: hashed_pass, token: None },
        }
    }
}

/// The stored information of a hub while the hub is in use.
#[derive(Debug)]
pub struct StoredInfo {
    info: HubInfo,
}

impl View for StoredInfo {
    type V = HubInfoView;

    closed spec fn view(&self) -> HubInfoView {
        self.info@
    }
}

/// The same hub with another token.
pub open spec fn with_token(info: HubInfoView, token: Seq<char>) -> HubInfoView {
    HubInfoView { settings: HubSettingsView { token: Some(token), ..info.settings }, ..info }
}

impl StoredInfo {
    pub fn new(info: HubInfo) -> (res: StoredInfo)
        ensures
            res@ == info@,
    {
        StoredInfo { info }
    }

    /// Sets the token. What is kept in the store has to be brought up to date
    /// with `info` afterwards.
    pub fn set_token(&mut self, token: &str)
        ensures
            final(self)@ == with_token(old(self)@, token@),
    {
        self.info.settings.token = Some(token.to_string());
    }

    /// The token, if there is one.
    pub fn token(&self) -> (res: Option<String>)
        ensures
            option_view(res) == self@.settings.token,
    {
        match &self.info.settings.token {
            Some(token) => Some(token.clone()),
            None => None,
        }
    }

    /// What is to be kept in the store.
    pub fn info(&self) -> (res: &HubInfo)
        ensures
            res@ == self@,
    {
        &self.info
    }
}

} // verus!
