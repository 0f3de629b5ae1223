//! The address on which a node listens.

use crate::addr::Ipv4;
use vstd::prelude::*;

verus! {

/// An error of the operating system, as `std` reports it.
#[verifier::external_type_specification]
#[verifier::external_body]
pub struct ExIoError(std::io::Error);

/// One address of one network interface of this machine.
#[derive(Clone, Copy, Debug, PartialEq, Eq, Structural)]
pub struct Interface {
    /// The address, if it is an IPv4 address.
    pub ip: Option<Ipv4>,
    /// Whether the interface is a loopback interface.
    pub loopback: bool,
}

impl Interface {
    /// Whether a node can listen here for its peers: on an IPv4 address
    /// that is not a loopback address, and, if `private_only`, lies in a
    /// private range.
    pub open spec fn candidate(self, private_only: bool) -> bool {
        &&& !self.loopback
        &&& self.ip matches Some(ip)
        &&& private_only ==> ip.private()
    }

    /// Whether a node can listen here for its peers.
    pub fn is_candidate(&self, private_only: bool) -> (r: bool)
        ensures
            r == self.candidate(private_only),
    {
        if self.loopback {
            return false;
        }
        match &self.ip {
            Some(ip) => !private_only || ip.is_private(),
            None => false,
        }
    }
}

/// Whether `interfaces[at]` is the first candidate among `interfaces`.
pub open spec fn is_first_candidate(interfaces: Seq<Interface>, at: int, private_only: bool) -> bool {
    &&& 0 <= at < interfaces.len()
    &&& interfaces[at].candidate(private_only)
    &&& forall|before: int| 0 <= before < at ==> !interfaces[before].candidate(private_only)
}

/// Whether there is a candidate among `interfaces`.
pub open spec fn has_candidate(interfaces: Seq<Interface>, private_only: bool) -> bool {
    exists|at: int| 0 <= at < interfaces.len() && #[trigger] interfaces[at].candidate(private_only)
}

/// Whether `ip` is the address to listen on, given the interfaces of the
/// machine in the order in which the system lists them: the first address
/// in a private range that is no loopback address; where there is none, the
/// first address that is no loopback address; where there is none either,
/// `127.0.0.1`.
pub open spec fn preferred(interfaces: Seq<Interface>, ip: Ipv4) -> bool {
    if has_candidate(interfaces, true) {
        exists|at: int| #[trigger]
            is_first_candidate(interfaces, at, true) && interfaces[at].ip == Some(ip)
    } else if has_candidate(interfaces, false) {
        exists|at: int| #[trigger]
            is_first_candidate(interfaces, at, false) && interfaces[at].ip == Some(ip)
    } else {
        ip == Ipv4::localhost()
    }
}

/// Among given interfaces exactly one address is the one to listen on.
pub proof fn lemma_preferred_is_unique(interfaces: Seq<Interface>, ip: Ipv4, other: Ipv4)
    requires
        preferred(interfaces, ip),
        preferred(interfaces, other),
    ensures
        ip == other,
{
    if has_candidate(interfaces, true) {
        let i = choose|at: int| #[trigger]
            is_first_candidate(interfaces, at, true) && interfaces[at].ip == Some(ip);
        let j = choose|at: int| #[trigger]
            is_first_candidate(interfaces, at, true) && interfaces[at].ip == Some(other);
        assert(i == j);
    } else if has_candidate(interfaces, false) {
        let i = choose|at: int| #[trigger]
            is_first_candidate(interfaces, at, false) && interfaces[at].ip == Some(ip);
        let j = choose|at: int| #[trigger]
            is_first_candidate(interfaces, at, false) && interfaces[at].ip == Some(other);
        assert(i == j);
    }
}

/// The first candidate among `interfaces`, if there is one.
fn first_candidate(interfaces: &Vec<Interface>, private_only: bool) -> (r: Option<Ipv4>)
    ensures
        r is Some <==> has_candidate(interfaces@, private_only),
        r matches Some(ip) ==> exists|at: int| #[trigger]
            is_first_candidate(interfaces@, at, private_only) && interfaces@[at].ip == Some(ip),
{
    let mut i: usize = 0;
    while i < interfaces.len()
        invariant
            i <= interfaces.len(),
            forall|before: int| 0 <= before < i ==> !interfaces@[before].candidate(private_only),
        decreases interfaces.len() - i,
    {
        if interfaces[i].is_candidate(private_only) {
            assert(is_first_candidate(interfaces@, i as int, private_only));
            return interfaces[i].ip;
        }
        i += 1;
    }
    None
}

/// The address to listen on, chosen among `interfaces`.
pub fn select_preferred_ip(interfaces: &Vec<Interface>) -> (ip: Ipv4)
    ensures
        preferred(interfaces@, ip),
{
    if let Some(ip) = first_candidate(interfaces, true) {
        return ip;
    }
    if let Some(ip) = first_candidate(interfaces, false) {
        return ip;
    }
    Ipv4::new(127, 0, 0, 1)
}

/// `if_addrs::get_if_addrs`: the addresses of the network interfaces of this
/// machine, in the order in which the system lists them, each with what
/// `if_addrs::Interface::is_loopback` says of it. Nothing is believed of
/// what comes back.
#[verifier::external_body]
fn local_interfaces() -> (r: Result<Vec<Interface>, std::io::Error>) {
    let found = if_addrs::get_if_addrs()?;
    Ok(found.iter().map(|i| Interface {
        ip: match &i.addr {
            if_addrs::IfAddr::V4(v4) => {
                let [a, b, c, d] = v4.ip.octets();
                Some(Ipv4 { a, b, c, d })
            },
            if_addrs::IfAddr::V6(_) => None,
        },
        loopback: i.is_loopback(),
    }).collect())
}

/// Why no address to listen on was found.
#[derive(Clone, Copy, Debug, PartialEq, Eq, Structural)]
pub enum LocalIpError {
    /// The system did not list its network interfaces.
    Unavailable,
}

/// The address of this machine on which a node listens for its peers:
/// [`preferred_ip_of`] what the system answers when it is asked for its
/// interfaces. Whether it lists them, and which, is the system's to decide:
/// of an address that comes back nothing is promised here.
pub fn get_preferred_local_ip() -> (r: Result<Ipv4, LocalIpError>)
    ensures
        r matches Err(e) ==> e == LocalIpError::Unavailable,
{
    preferred_ip_of(local_interfaces())
}

/// The address to listen on, given what the system answered when it was
/// asked for its interfaces: the one chosen among them where it listed
/// them, and [`LocalIpError::Unavailable`] where it did not.
pub fn preferred_ip_of(listed: Result<Vec<Interface>, std::io::Error>) -> (r: Result<
    Ipv4,
    LocalIpError,
>)
    ensures
        listed is Ok <==> r is Ok,
        listed matches Ok(interfaces) ==> preferred(interfaces@, r->Ok_0),
        listed is Err ==> r == Err::<Ipv4, LocalIpError>(LocalIpError::Unavailable),
{
    let interfaces = match listed {
        Ok(interfaces) => interfaces,
        Err(_) => {
            return Err(LocalIpError::Unavailable);
        },
    };
    Ok(select_preferred_ip(&interfaces))
}

} // verus!
