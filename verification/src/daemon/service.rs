//! What discovery on the local network means to a node.

use crate::addr::{Address, Ipv4};
use vstd::prelude::*;
use vstd::string::StringExecFns;

verus! {

/// The service type under which the nodes of a group announce themselves.
pub const DOMAIN: &'static str = "_gon._tcp.local.";

/// The name of the service instance that a node announces.
pub const SERVICE_NAME: &'static str = "Gate of Notification";

/// The host name that a node announces.
pub const HOSTNAME: &'static str = "gon.local.";

/// What discovery has to tell.
#[derive(Clone, Copy, Debug, PartialEq, Eq, Structural)]
pub enum AppServiceEvent {
    /// Nothing that concerns the node.
    Nothing,
    /// Another node listens at this address.
    NodeDiscovered(Address),
}

/// What discovery has resolved of one service on the network.
#[derive(Clone, Debug, PartialEq, Eq)]
pub struct Resolved {
    /// The type of the service, with its domain.
    pub service_type: String,
    /// The IPv4 addresses of the service.
    pub addresses: Vec<Ipv4>,
    /// The port of the service.
    pub port: u16,
}

/// What a [`Resolved`] holds, as mathematical values.
pub struct ResolvedView {
    pub service_type: Seq<char>,
    pub addresses: Seq<Ipv4>,
    pub port: u16,
}

impl View for Resolved {
    type V = ResolvedView;

    open spec fn view(&self) -> ResolvedView {
        ResolvedView {
            service_type: self.service_type@,
            addresses: self.addresses@,
            port: self.port,
        }
    }
}

/// Why a resolved service gave no event.
#[derive(Clone, Copy, Debug, PartialEq, Eq, Structural)]
pub enum ServiceError {
    /// A node of the group was resolved without an address.
    EmptyAddress,
}

/// What a node that listens at `own` makes of what discovery delivered:
/// a service of the group at another address than its own is a node that
/// was discovered; whatever else is resolved, and a delivery that resolves
/// nothing, is no event.
pub open spec fn event_of(own: Address, resolved: Option<ResolvedView>) -> Result<
    AppServiceEvent,
    ServiceError,
> {
    match resolved {
        Some(found) if found.service_type == DOMAIN@ => {
            if found.addresses.len() == 0 {
                Err(ServiceError::EmptyAddress)
            } else {
                let peer = Address { ip: found.addresses[0], port: found.port };
                if peer != own {
                    Ok(AppServiceEvent::NodeDiscovered(peer))
                } else {
                    Ok(AppServiceEvent::Nothing)
                }
            }
        },
        _ => Ok(AppServiceEvent::Nothing),
    }
}

/// The discovery of a node, as far as it decides: announcing and browsing
/// are the caller's.
#[derive(Clone, Copy, Debug, PartialEq, Eq, Structural)]
pub struct AppService {
    /// Where this node listens, which is what it announces.
    pub addr: Address,
}

impl AppService {
    /// The discovery of the node that listens at `addr`.
    pub fn new(addr: Address) -> (s: AppService)
        ensures
            s.addr == addr,
    {
        AppService { addr }
    }

    /// The event in what discovery has delivered: `resolved` is the service
    /// that was resolved, or `None` where the delivery resolved none.
    pub fn next(&self, resolved: Option<Resolved>) -> (r: Result<AppServiceEvent, ServiceError>)
        ensures
            r == event_of(
                self.addr,
                match resolved {
                    Some(found) => Some(found@),
                    None => None,
                },
            ),
    {
        let found = match resolved {
            Some(found) => found,
            None => {
                return Ok(AppServiceEvent::Nothing);
            },
        };
        if found.service_type != String::from_str(DOMAIN) {
            return Ok(AppServiceEvent::Nothing);
        }
        if found.addresses.len() == 0 {
            return Err(ServiceError::EmptyAddress);
        }
        let peer = Address { ip: found.addresses[0], port: found.port };
        if peer != self.addr {
            Ok(AppServiceEvent::NodeDiscovered(peer))
        } else {
            Ok(AppServiceEvent::Nothing)
        }
    }
}

/// A node never discovers itself.
pub proof fn lemma_never_discovers_itself(own: Address, resolved: Option<ResolvedView>)
    ensures
        event_of(own, resolved) != Ok::<AppServiceEvent, ServiceError>(
            AppServiceEvent::NodeDiscovered(own),
        ),
{
}

} // verus!
