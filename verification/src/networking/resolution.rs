//! Where a frame for a destination has to go: the default router, the
//! interface to send from, and the hardware address of the next hop.
//!
//! The tables of the system are read by the caller and handed over row by
//! row; what is decided from them is decided here.

use vstd::prelude::*;
use crate::errors::ScannerError;
use crate::networking::ethernet::{EthernetHeader, MacAddress, ETHERTYPE_IPV4};
use crate::networking::ipv4::Ipv4Address;

verus! {

/// One row of the routing table.
#[derive(Clone, Copy, Debug, PartialEq, Eq, Structural)]
pub struct Route {
    pub destination: Ipv4Address,
    pub netmask: Ipv4Address,
    pub gateway: Ipv4Address,
    /// Whether the route is in use.
    pub up: bool,
}

/// One IPv4 address of one network interface.
#[derive(Clone, Copy, Debug, PartialEq, Eq, Structural)]
pub struct Interface {
    /// The number by which the system knows the interface.
    pub index: u32,
    /// Whether the interface is running.
    pub up: bool,
    /// Its hardware address, if it has one.
    pub mac: Option<MacAddress>,
    pub address: Ipv4Address,
    pub netmask: Ipv4Address,
}

/// One row of the neighbour cache.
#[derive(Clone, Copy, Debug, PartialEq, Eq, Structural)]
pub struct Neighbor {
    /// The number of the interface on which the neighbour was seen.
    pub interface: u32,
    pub address: Ipv4Address,
    pub mac: MacAddress,
    /// Whether the hardware address has been learnt; a row still waiting
    /// for its answer holds none that could be used.
    pub complete: bool,
}

/// What is known of the way to a destination once resolution has succeeded.
#[derive(Clone, Copy, Debug, PartialEq, Eq, Structural)]
pub struct NetworkContext {
    /// The number of the interface to send from.
    pub interface: u32,
    /// The hardware address of that interface.
    pub source_mac: MacAddress,
    /// The default router.
    pub router: Ipv4Address,
    /// The hardware address frames must be addressed to: that of the
    /// destination where it is on the interface's own network, and that of
    /// the router where it is not.
    pub next_hop_mac: MacAddress,
}

/// The address 0.0.0.0.
pub open spec fn unspecified() -> Ipv4Address {
    Ipv4Address(0, 0, 0, 0)
}

/// `address` with every bit cleared that `netmask` does not hold.
pub open spec fn masked(address: Ipv4Address, netmask: Ipv4Address) -> Ipv4Address {
    Ipv4Address(
        address.0 & netmask.0,
        address.1 & netmask.1,
        address.2 & netmask.2,
        address.3 & netmask.3,
    )
}

impl Route {
    /// A route in use that covers every destination.
    pub open spec fn is_default(self) -> bool {
        self.up && self.destination == unspecified() && self.netmask == unspecified()
    }

    /// Whether this is a route in use that covers every destination.
    pub fn default_route(&self) -> (default: bool)
        ensures
            default == self.is_default(),
    {
        let zero = Ipv4Address(0, 0, 0, 0);
        self.up && self.destination == zero && self.netmask == zero
    }
}

impl Interface {
    /// Whether `address` lies on the network of this interface address.
    pub open spec fn reaches(self, address: Ipv4Address) -> bool {
        masked(address, self.netmask) == masked(self.address, self.netmask)
    }

    /// Whether frames for `address` can leave through this interface: it is
    /// the one asked for, or any was asked for with selector 0; it is
    /// running and has a hardware address; and `address` lies on its
    /// network.
    pub open spec fn owns(self, address: Ipv4Address, selector: u8) -> bool {
        &&& selector == 0 || self.index == selector
        &&& self.up
        &&& self.mac is Some
        &&& self.reaches(address)
    }

    /// Whether frames for `address` can leave through this interface.
    pub fn owns_route(&self, address: Ipv4Address, selector: u8) -> (owns: bool)
        ensures
            owns == self.owns(address, selector),
    {
        let selected = selector == 0 || self.index == selector as u32;
        let on_network = (address.0 & self.netmask.0) == (self.address.0 & self.netmask.0) && (
        address.1 & self.netmask.1) == (self.address.1 & self.netmask.1) && (address.2
            & self.netmask.2) == (self.address.2 & self.netmask.2) && (address.3 & self.netmask.3)
            == (self.address.3 & self.netmask.3);
        selected && self.up && self.mac.is_some() && on_network
    }
}

impl Neighbor {
    /// Whether this row gives the hardware address of `address` on the
    /// interface numbered `interface`.
    pub open spec fn answers(self, address: Ipv4Address, interface: u32) -> bool {
        self.complete && self.interface == interface && self.address == address
    }
}

/// The first default route at or behind position `start`.
pub open spec fn default_route_from(routes: Seq<Route>, start: int) -> Option<Route>
    decreases routes.len() - start,
{
    if start < 0 || start >= routes.len() {
        None
    } else if routes[start].is_default() {
        Some(routes[start])
    } else {
        default_route_from(routes, start + 1)
    }
}

/// The first interface address at or behind position `start` through which
/// frames for `address` can leave.
pub open spec fn interface_from(
    interfaces: Seq<Interface>,
    address: Ipv4Address,
    selector: u8,
    start: int,
) -> Option<Interface>
    decreases interfaces.len() - start,
{
    if start < 0 || start >= interfaces.len() {
        None
    } else if interfaces[start].owns(address, selector) {
        Some(interfaces[start])
    } else {
        interface_from(interfaces, address, selector, start + 1)
    }
}

/// The first row at or behind position `start` that gives the hardware
/// address of `address` on `interface`.
pub open spec fn neighbor_from(
    neighbors: Seq<Neighbor>,
    address: Ipv4Address,
    interface: u32,
    start: int,
) -> Option<Neighbor>
    decreases neighbors.len() - start,
{
    if start < 0 || start >= neighbors.len() {
        None
    } else if neighbors[start].answers(address, interface) {
        Some(neighbors[start])
    } else {
        neighbor_from(neighbors, address, interface, start + 1)
    }
}

/// The address of the default router: the gateway of the first default
/// route of the table.
pub open spec fn router_address(routes: Seq<Route>) -> Result<Ipv4Address, ScannerError> {
    match default_route_from(routes, 0) {
        Some(route) => Ok(route.gateway),
        None => Err(ScannerError::CantFindRouterAddress),
    }
}

/// The interface that owns the route to `address`: the first of the table
/// through which frames for it can leave.
pub open spec fn owning_interface(
    interfaces: Seq<Interface>,
    address: Ipv4Address,
    selector: u8,
) -> Result<Interface, ScannerError> {
    match interface_from(interfaces, address, selector, 0) {
        Some(interface) => Ok(interface),
        None => Err(ScannerError::CantFindInterface),
    }
}

/// The hardware address of `address` as the first matching row of the
/// neighbour cache gives it.
pub open spec fn mac_address(
    neighbors: Seq<Neighbor>,
    address: Ipv4Address,
    interface: u32,
) -> Result<MacAddress, ScannerError> {
    match neighbor_from(neighbors, address, interface, 0) {
        Some(neighbor) => Ok(neighbor.mac),
        None => Err(ScannerError::CantFindMacAddress),
    }
}

/// The way to `dest`. The default router must be known. The interface is
/// the one that owns the route to `dest` itself, or else the one that owns
/// the route to the router; the next hop is `dest` in the first case and the
/// router in the second, and its hardware address must be in the neighbour
/// cache for that interface.
pub open spec fn resolution(
    routes: Seq<Route>,
    interfaces: Seq<Interface>,
    neighbors: Seq<Neighbor>,
    dest: Ipv4Address,
    selector: u8,
) -> Result<NetworkContext, ScannerError> {
    match router_address(routes) {
        Err(error) => Err(error),
        Ok(router) => {
            let direct = owning_interface(interfaces, dest, selector);
            let next_hop = if direct is Ok {
                dest
            } else {
                router
            };
            match owning_interface(interfaces, next_hop, selector) {
                Err(error) => Err(error),
                Ok(interface) => match mac_address(neighbors, next_hop, interface.index) {
                    Err(error) => Err(error),
                    Ok(next_hop_mac) => Ok(
                        NetworkContext {
                            interface: interface.index,
                            source_mac: interface.mac->0,
                            router,
                            next_hop_mac,
                        },
                    ),
                },
            }
        },
    }
}

/// Finds the address of the default router in the routing table.
pub fn find_router_address(routes: &[Route]) -> (router: Result<Ipv4Address, ScannerError>)
    ensures
        router == router_address(routes@),
{
    let mut i: usize = 0;
    while i < routes.len()
        invariant
            i <= routes.len(),
            default_route_from(routes@, 0) == default_route_from(routes@, i as int),
        decreases routes.len() - i,
    {
        if routes[i].default_route() {
            return Ok(routes[i].gateway);
        }
        i += 1;
    }
    Err(ScannerError::CantFindRouterAddress)
}

/// Finds the interface that owns the route to `address`. With `selector` 0
/// every interface is a candidate, with any other value only the interface
/// of that number.
pub fn find_interface(interfaces: &[Interface], address: Ipv4Address, selector: u8) -> (interface:
    Result<Interface, ScannerError>)
    ensures
        interface == owning_interface(interfaces@, address, selector),
        interface matches Ok(found) ==> found.owns(address, selector),
{
    let mut i: usize = 0;
    while i < interfaces.len()
        invariant
            i <= interfaces.len(),
            interface_from(interfaces@, address, selector, 0) == interface_from(
                interfaces@,
                address,
                selector,
                i as int,
            ),
        decreases interfaces.len() - i,
    {
        if interfaces[i].owns_route(address, selector) {
            return Ok(interfaces[i]);
        }
        i += 1;
    }
    Err(ScannerError::CantFindInterface)
}

/// Finds the hardware address of `address` in the neighbour cache of the
/// interface numbered `interface`.
pub fn find_mac_address(neighbors: &[Neighbor], address: Ipv4Address, interface: u32) -> (mac:
    Result<MacAddress, ScannerError>)
    ensures
        mac == mac_address(neighbors@, address, interface),
{
    let mut i: usize = 0;
    while i < neighbors.len()
        invariant
            i <= neighbors.len(),
            neighbor_from(neighbors@, address, interface, 0) == neighbor_from(
                neighbors@,
                address,
                interface,
                i as int,
            ),
        decreases neighbors.len() - i,
    {
        if neighbors[i].complete && neighbors[i].interface == interface && neighbors[i].address
            == address {
            return Ok(neighbors[i].mac);
        }
        i += 1;
    }
    Err(ScannerError::CantFindMacAddress)
}

/// Resolves the way to `dest` from the tables of the system.
pub fn resolve(
    routes: &[Route],
    interfaces: &[Interface],
    neighbors: &[Neighbor],
    dest: Ipv4Address,
    selector: u8,
) -> (context: Result<NetworkContext, ScannerError>)
    ensures
        context == resolution(routes@, interfaces@, neighbors@, dest, selector),
{
    let router = match find_router_address(routes) {
        Err(error) => {
            return Err(error);
        },
        Ok(router) => router,
    };
    let (interface, next_hop) = match find_interface(interfaces, dest, selector) {
        Ok(interface) => (interface, dest),
        Err(_) => match find_interface(interfaces, router, selector) {
            Err(error) => {
                return Err(error);
            },
            Ok(interface) => (interface, router),
        },
    };
    let source_mac = interface.mac.unwrap();
    match find_mac_address(neighbors, next_hop, interface.index) {
        Err(error) => Err(error),
        Ok(next_hop_mac) => Ok(
            NetworkContext { interface: interface.index, source_mac, router, next_hop_mac },
        ),
    }
}

impl NetworkContext {
    /// The Ethernet header of a frame that carries IPv4 from the interface
    /// to the next hop.
    pub open spec fn ethernet_header(self) -> EthernetHeader {
        EthernetHeader {
            destination: self.next_hop_mac,
            source: self.source_mac,
            ethertype: ETHERTYPE_IPV4,
        }
    }

    /// Wraps an IPv4 packet in an Ethernet frame from the interface to the
    /// next hop.
    pub fn frame(&self, packet: &[u8]) -> (framed: Result<Vec<u8>, ScannerError>)
        ensures
            match framed {
                Ok(bytes) => EthernetHeader::can_frame(packet@.len()) && bytes@
                    == self.ethernet_header().bytes() + packet@,
                Err(error) => !EthernetHeader::can_frame(packet@.len()) && error
                    == ScannerError::CantCreateEthernetPacket,
            },
    {
        let header = EthernetHeader {
            destination: self.next_hop_mac,
            source: self.source_mac,
            ethertype: ETHERTYPE_IPV4,
        };
        header.frame(packet)
    }
}

} // verus!
