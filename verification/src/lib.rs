//! The core of a gateway that lets IRC clients talk to Slack workspaces.
//!
//! Every decision the gateway takes is made here: how a hub spreads events
//! over the channels that joined it, how an IRC client logs in and what it is
//! told, and how the Slack side reacts to hub events and to Slack itself.
//! Sockets, the database and the Slack web service are reached by the program
//! around this library.

pub mod account;
pub mod channel;
pub mod hub;
pub mod hub_laws;
pub mod hub_manager;
pub mod irc_gateway;
pub mod irc_laws;
pub mod irc_line;
pub mod irc_message;
pub mod irc_session;
pub mod laws;
pub mod message;
pub mod password;
pub mod settings;
pub mod slack_gateway;
pub mod slack_laws;
pub mod store;
pub mod text;
