//! Mirroring of desktop notifications between machines on one local network.
//!
//! Exactly one participant is believed to be the host and displays what the
//! others forward to it. This crate holds the rules of that arrangement: the
//! protocol values, the role each node keeps, how a node answers a request,
//! how it reads an answer, how bytes are sealed and framed for the wire, and
//! what the event loop decides. Sockets, discovery, the tray and the desktop
//! are left to the program around it.

use vstd::prelude::*;

pub mod addr;
pub mod client;
pub mod daemon;
pub mod notification;
pub mod orchestration;
pub mod tray;

verus! {

/// The role of a node: the host, or a client that may know who the host is.
#[derive(Clone, Debug, PartialEq, Eq)]
pub enum AppMode<T> {
    Host,
    Client(Option<T>),
}

impl<T> AppMode<T> {
    /// Whether the node is a client, with or without a known host.
    pub fn is_client(&self) -> (r: bool)
        ensures
            r == (*self is Client),
    {
        matches!(self, AppMode::Client(_))
    }

    /// Whether the node is a client that has not found a host yet.
    pub fn is_client_and_not_found_host(&self) -> (r: bool)
        ensures
            r == (*self == AppMode::<T>::Client(None)),
    {
        matches!(self, AppMode::Client(None))
    }

    /// Whether the node is the host.
    pub fn is_host(&self) -> (r: bool)
        ensures
            r == (*self is Host),
    {
        matches!(self, AppMode::Host)
    }

    /// The host this client believes in, if it is a client and knows one.
    pub fn get_host(&self) -> (r: Option<&T>)
        ensures
            r == self.host(),
    {
        if let AppMode::Client(Some(host)) = self {
            Some(host)
        } else {
            None
        }
    }

    /// The believed host, for use in contracts.
    pub open spec fn host(&self) -> Option<&T> {
        match self {
            AppMode::Client(Some(host)) => Some(host),
            _ => None,
        }
    }
}

} // verus!
