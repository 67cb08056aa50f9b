//! The discovery engine: one interface per local address, the routing of
//! readiness events to them, and the queue of responses.

use vstd::prelude::*;
use crate::addr::Ipv4;
use crate::codec::{encodable_name, parse, parsed_records, ptr_query, ptr_query_for};
use std::collections::VecDeque;
use crate::error::DiscoveryError;
use crate::io::Io;
use crate::response::{Record, Response};

verus! {

/// The UDP port of multicast DNS.
pub const MULTICAST_PORT: u16 = 5353;

/// The time to live of the multicast packets that are sent.
pub const MULTICAST_TTL: u32 = 255;

/// The size of the buffer that one read fills.
pub const RECV_BUFFER_LEN: usize = 10000;

/// The multicast group of multicast DNS, 224.0.0.251.
pub fn multicast_addr() -> (group: Ipv4)
    ensures
        group.octets@ == seq![224u8, 0u8, 0u8, 251u8],
{
    Ipv4::new(224, 0, 0, 251)
}

/// How the socket of one interface is to be set up: bound to `bind_addr` on
/// `bind_port`, with the given options, and joined to `group` on the local
/// address `interface`.
#[derive(Clone, Copy, Debug, PartialEq, Eq)]
pub struct SocketSetup {
    pub bind_addr: Ipv4,
    pub bind_port: u16,
    pub reuse_address: bool,
    pub reuse_port: bool,
    pub multicast_loop: bool,
    pub multicast_ttl: u32,
    pub group: Ipv4,
    pub interface: Ipv4,
}

/// How the socket of one interface is registered for readiness events.
#[derive(Clone, Copy, Debug, PartialEq, Eq)]
pub struct Registration {
    pub token: usize,
    pub readable: bool,
    pub writable: bool,
    pub edge_triggered: bool,
}

/// A packet to send, and where to.
#[derive(Clone, Debug, PartialEq, Eq)]
pub struct Datagram {
    pub packet: Vec<u8>,
    pub group: Ipv4,
    pub port: u16,
}

impl Datagram {
    /// The datagram is the query for `service_name`, addressed to the
    /// multicast group 224.0.0.251 on port 5353.
    pub open spec fn is_query_for(&self, service_name: Seq<char>) -> bool {
        &&& self.packet@ == ptr_query(service_name)
        &&& self.group.octets@ == seq![224u8, 0u8, 0u8, 251u8]
        &&& self.port == MULTICAST_PORT
    }
}

/// The kind of readiness that an event reports of a socket.
#[derive(Clone, Copy, Debug, PartialEq, Eq)]
pub enum Readiness {
    Readable,
    Writable,
}

/// What the owner of the sockets is to do for a readiness event.
#[derive(Clone, Debug, PartialEq, Eq)]
pub enum Action {
    /// Read once, without blocking, from the socket of the interface at
    /// `index` into a buffer of `capacity` bytes, and hand what was read to
    /// `recv`.
    Read { index: usize, capacity: usize },
    /// Send `datagram` on the socket of the interface at `index`, and on no
    /// other.
    Send { index: usize, datagram: Datagram },
}

/// Discovery on one local interface.
#[derive(Clone, Copy, Debug, PartialEq, Eq)]
pub struct InterfaceDiscovery {
    /// The token under which the interface's socket is registered.
    pub token: usize,
    /// The local address on which the multicast group is joined.
    pub addr: Ipv4,
}

impl InterfaceDiscovery {
    /// What one read of `datagram` from the socket gives: nothing for an empty
    /// read, one response for a well-formed packet, and `None` for bytes that
    /// do not parse. A read fills at most `RECV_BUFFER_LEN` bytes.
    pub open spec fn received(datagram: Seq<u8>) -> Option<Seq<Seq<Record>>> {
        let read = if datagram.len() <= RECV_BUFFER_LEN {
            datagram
        } else {
            datagram.subrange(0, RECV_BUFFER_LEN as int)
        };
        if read.len() == 0 {
            Some(Seq::empty())
        } else {
            match parsed_records(read) {
                Some(records) => Some(seq![records]),
                None => None,
            }
        }
    }

    /// Takes a fresh token for the interface at `interface_addr`. Fails only
    /// when the token source has none left.
    pub fn new(interface_addr: &Ipv4, io: &mut Io) -> (r: Result<InterfaceDiscovery, DiscoveryError>)
        ensures
            old(io).next_token() < usize::MAX ==> r == Ok::<InterfaceDiscovery, DiscoveryError>(
                InterfaceDiscovery { token: old(io).next_token(), addr: *interface_addr },
            ) && final(io).next_token() == old(io).next_token() + 1,
            old(io).next_token() == usize::MAX ==> r == Err::<InterfaceDiscovery, DiscoveryError>(
                DiscoveryError::Construction,
            ) && *final(io) == *old(io),
    {
        match io.create_token() {
            Some(token) => Ok(InterfaceDiscovery { token, addr: *interface_addr }),
            None => Err(DiscoveryError::Construction),
        }
    }

    /// The setup of the socket for the interface at `interface_addr`.
    pub fn setup(interface_addr: &Ipv4) -> (setup: SocketSetup)
        ensures
            setup.bind_addr.octets@ == seq![0u8, 0u8, 0u8, 0u8],
            setup.bind_port == MULTICAST_PORT,
            setup.reuse_address && setup.reuse_port && setup.multicast_loop,
            setup.multicast_ttl == MULTICAST_TTL,
            setup.group.octets@ == seq![224u8, 0u8, 0u8, 251u8],
            setup.interface == *interface_addr,
    {
        SocketSetup {
            bind_addr: Ipv4::new(0, 0, 0, 0),
            bind_port: MULTICAST_PORT,
            reuse_address: true,
            reuse_port: true,
            multicast_loop: true,
            multicast_ttl: MULTICAST_TTL,
            group: multicast_addr(),
            interface: *interface_addr,
        }
    }

    /// How this interface's socket is registered: under the interface's
    /// token, for readable and writable events, edge-triggered.
    pub fn registration(&self) -> (registration: Registration)
        ensures
            registration == (Registration {
                token: self.token,
                readable: true,
                writable: true,
                edge_triggered: true,
            }),
    {
        Registration { token: self.token, readable: true, writable: true, edge_triggered: true }
    }

    /// The query for `service_name`, addressed to the multicast group.
    pub fn send(&self, service_name: &str) -> (datagram: Datagram)
        requires
            encodable_name(service_name@),
        ensures
            datagram.is_query_for(service_name@),
    {
        Datagram {
            packet: ptr_query_for(service_name),
            group: multicast_addr(),
            port: MULTICAST_PORT,
        }
    }

    /// Turns the bytes of one read into responses. An empty read gives no
    /// response and no error.
    pub fn recv(&self, datagram: &[u8]) -> (r: Result<Vec<Response>, DiscoveryError>)
        ensures
            Self::received(datagram@) matches Some(responses) ==> (r matches Ok(out)
                && out@.map_values(|response: Response| response@) == responses),
            Self::received(datagram@).is_none() ==> r == Err::<Vec<Response>, DiscoveryError>(
                DiscoveryError::Codec,
            ),
            datagram@.len() == 0 ==> (r matches Ok(out) && out@.len() == 0),
    {
        let read = if datagram.len() <= RECV_BUFFER_LEN {
            datagram
        } else {
            vstd::slice::slice_subrange(datagram, 0, RECV_BUFFER_LEN)
        };
        let mut out: Vec<Response> = Vec::new();
        if read.len() != 0 {
            match parse(read) {
                Ok(response) => {
                    out.push(response);
                },
                Err(e) => {
                    return Err(e);
                },
            }
        }
        assert(out@.map_values(|response: Response| response@) =~= Self::received(
            datagram@,
        ).unwrap());
        Ok(out)
    }
}

/// What an engine is, for the purpose of its contracts.
pub struct EngineModel {
    /// The name of the service that is looked for.
    pub service_name: Seq<char>,
    /// The interfaces, in the order of the addresses they were made for.
    pub interfaces: Seq<InterfaceDiscovery>,
    /// The responses that were received and not yet handed out, oldest first.
    pub queue: Seq<Seq<Record>>,
}

impl EngineModel {
    /// The tokens of the interfaces, in order.
    pub open spec fn tokens(self) -> Seq<usize> {
        self.interfaces.map_values(|interface: InterfaceDiscovery| interface.token)
    }

    /// No two interfaces hold the same token.
    pub open spec fn wf(self) -> bool {
        self.tokens().no_duplicates()
    }

    /// `action` is what a writable event for `token` asks for: the query for
    /// the service name, to the multicast group, on the one interface that
    /// holds `token`.
    pub open spec fn sends(self, token: usize, action: Action) -> bool {
        action matches Action::Send { index, datagram } && index < self.interfaces.len()
            && self.interfaces[index as int].token == token && datagram.is_query_for(
            self.service_name,
        )
    }

    /// Some interface holds `token`.
    pub open spec fn knows(self, token: usize) -> bool {
        self.tokens().contains(token)
    }

    /// The engine after `responses` arrived on the interface with `token`:
    /// they stand at the end of the queue, in order. An unknown token changes
    /// nothing.
    pub open spec fn deliver(self, token: usize, responses: Seq<Seq<Record>>) -> EngineModel {
        if self.knows(token) {
            EngineModel { queue: self.queue + responses, ..self }
        } else {
            self
        }
    }

    /// The engine after its queue was handed out.
    pub open spec fn drain(self) -> EngineModel {
        EngineModel { queue: Seq::empty(), ..self }
    }
}

/// An mDNS discovery.
#[allow(non_camel_case_types)]
pub struct mDNS {
    /// The name of the service that is looked for.
    service_name: String,
    /// One interface per local address.
    sockets: Vec<InterfaceDiscovery>,
    /// The responses obtained so far, oldest first.
    responses: VecDeque<Response>,
}

impl View for mDNS {
    type V = EngineModel;

    closed spec fn view(&self) -> EngineModel {
        EngineModel {
            service_name: self.service_name@,
            interfaces: self.sockets@,
            queue: self.responses@.map_values(|response: Response| response@),
        }
    }
}

impl mDNS {
    /// Makes an engine for `service_name` with one interface per address, each
    /// under a fresh token, and an empty queue. Fails at the first address for
    /// which no token is left.
    pub fn new(service_name: &str, addrs: &Vec<Ipv4>, io: &mut Io) -> (r: Result<mDNS, DiscoveryError>)
        ensures
            r is Ok <==> old(io).next_token() + addrs@.len() <= usize::MAX,
            r matches Ok(engine) ==> {
                &&& engine@.wf()
                &&& engine@.service_name == service_name@
                &&& engine@.queue == Seq::<Seq<Record>>::empty()
                &&& engine@.interfaces.len() == addrs@.len()
                &&& forall|i: int|
                    0 <= i < addrs@.len() ==> #[trigger] engine@.interfaces[i] == (InterfaceDiscovery {
                        token: (old(io).next_token() + i) as usize,
                        addr: addrs@[i],
                    })
                &&& final(io).next_token() == old(io).next_token() + addrs@.len()
            },
            r matches Err(e) ==> e == DiscoveryError::Construction && final(io).next_token()
                == usize::MAX,
    {
        let mut sockets: Vec<InterfaceDiscovery> = Vec::new();
        let mut i: usize = 0;
        while i < addrs.len()
            invariant
                i <= addrs@.len(),
                sockets@.len() == i,
                io.next_token() == old(io).next_token() + i,
                forall|k: int|
                    0 <= k < i ==> #[trigger] sockets@[k] == (InterfaceDiscovery {
                        token: (old(io).next_token() + k) as usize,
                        addr: addrs@[k],
                    }),
            decreases addrs@.len() - i,
        {
            match InterfaceDiscovery::new(&addrs[i], io) {
                Ok(interface) => {
                    sockets.push(interface);
                },
                Err(e) => {
                    return Err(e);
                },
            }
            i += 1;
        }
        let engine = mDNS {
            service_name: service_name.to_owned(),
            sockets,
            responses: VecDeque::new(),
        };
        assert(engine@.queue =~= Seq::<Seq<Record>>::empty());
        Ok(engine)
    }

    /// The engine keeps what its model asks for.
    pub open spec fn wf(&self) -> bool {
        self@.wf()
    }

    /// The name of the service that is looked for.
    pub fn service_name(&self) -> (name: &str)
        ensures
            name@ == self@.service_name,
    {
        self.service_name.as_str()
    }

    /// The interfaces of the engine, in the order of their addresses.
    pub fn interfaces(&self) -> (interfaces: &Vec<InterfaceDiscovery>)
        ensures
            interfaces@ == self@.interfaces,
    {
        &self.sockets
    }

    /// Finds the interface that holds `token`.
    pub fn interface_index(&self, token: usize) -> (found: Option<usize>)
        ensures
            found matches Some(i) ==> (i < self@.interfaces.len()
                && self@.interfaces[i as int].token == token),
            found.is_some() <==> self@.knows(token),
    {
        let mut i: usize = 0;
        while i < self.sockets.len()
            invariant
                i <= self.sockets@.len(),
                forall|k: int| 0 <= k < i ==> self.sockets@[k].token != token,
            decreases self.sockets@.len() - i,
        {
            if self.sockets[i].token == token {
                assert(self@.tokens()[i as int] == token);
                return Some(i);
            }
            i += 1;
        }
        None
    }

    /// Tells what is to be done for a readiness event of kind `kind` on the
    /// socket registered under `token`: a read for a readable socket, the
    /// query to send for a writable one. An unknown token is a routing error.
    pub fn route(&self, token: usize, kind: Readiness) -> (r: Result<Action, DiscoveryError>)
        requires
            self@.wf(),
            kind == Readiness::Writable ==> encodable_name(self@.service_name),
        ensures
            !self@.knows(token) ==> r == Err::<Action, DiscoveryError>(DiscoveryError::Routing),
            self@.knows(token) && kind == Readiness::Readable ==> (r matches Ok(
                Action::Read { index, capacity },
            ) && index < self@.interfaces.len() && self@.interfaces[index as int].token == token
                && capacity == RECV_BUFFER_LEN),
            self@.knows(token) && kind == Readiness::Writable ==> (r matches Ok(action)
                && self@.sends(token, action)),
    {
        match self.interface_index(token) {
            Some(index) => {
                match kind {
                    Readiness::Readable => Ok(Action::Read { index, capacity: RECV_BUFFER_LEN }),
                    Readiness::Writable => Ok(
                        Action::Send {
                            index,
                            datagram: self.sockets[index].send(self.service_name.as_str()),
                        },
                    ),
                }
            },
            None => Err(DiscoveryError::Routing),
        }
    }

    /// Appends `responses`, which arrived on the interface with `token`, to
    /// the queue, in order. An unknown token is a routing error and changes
    /// nothing.
    pub fn deliver(&mut self, token: usize, responses: Vec<Response>) -> (r: Result<(), DiscoveryError>)
        requires
            old(self)@.wf(),
        ensures
            final(self)@.wf(),
            final(self)@ == old(self)@.deliver(
                token,
                responses@.map_values(|response: Response| response@),
            ),
            r is Ok <==> old(self)@.knows(token),
            r matches Err(e) ==> e == DiscoveryError::Routing,
    {
        match self.interface_index(token) {
            Some(_) => {
                let mut arrived = in_order(responses);
                self.responses.append(&mut arrived);
                assert(final(self)@.queue =~= old(self)@.queue + responses@.map_values(
                    |response: Response| response@,
                ));
                Ok(())
            },
            None => Err(DiscoveryError::Routing),
        }
    }

    /// Handles a readable event for `token`, given the bytes that the read of
    /// that interface's socket gave: the responses in them go to the end of
    /// the queue. An unknown token is a routing error and a malformed packet a
    /// codec error; both leave the queue as it was.
    pub fn recv(&mut self, token: usize, datagram: &[u8]) -> (r: Result<(), DiscoveryError>)
        requires
            old(self)@.wf(),
        ensures
            final(self)@.wf(),
            !old(self)@.knows(token) ==> r == Err::<(), DiscoveryError>(DiscoveryError::Routing) && final(self)@ == old(
                self,
            )@,
            old(self)@.knows(token) ==> match InterfaceDiscovery::received(datagram@) {
                Some(responses) => r is Ok && final(self)@ == old(self)@.deliver(token, responses),
                None => r == Err::<(), DiscoveryError>(DiscoveryError::Codec) && final(self)@ == old(self)@,
            },
    {
        match self.interface_index(token) {
            Some(i) => {
                match self.sockets[i].recv(datagram) {
                    Ok(responses) => self.deliver(token, responses),
                    Err(e) => Err(e),
                }
            },
            None => Err(DiscoveryError::Routing),
        }
    }

    /// Handles a writable event for `token`: asks for the query to be sent to
    /// the multicast group on the socket of the interface that holds `token`,
    /// and on no other. An unknown token is a routing error.
    pub fn send(&mut self, token: usize) -> (r: Result<Action, DiscoveryError>)
        requires
            old(self)@.wf(),
            encodable_name(old(self)@.service_name),
        ensures
            *final(self) == *old(self),
            old(self)@.knows(token) ==> (r matches Ok(action) && old(self)@.sends(token, action)),
            !old(self)@.knows(token) ==> r == Err::<Action, DiscoveryError>(DiscoveryError::Routing),
    {
        self.route(token, Readiness::Writable)
    }

    /// Consumes all responses received so far, oldest first.
    pub fn responses(&mut self) -> (drained: Vec<Response>)
        ensures
            drained@.map_values(|response: Response| response@) == old(self)@.queue,
            final(self)@ == old(self)@.drain(),
    {
        let mut queued: VecDeque<Response> = VecDeque::new();
        core::mem::swap(&mut self.responses, &mut queued);
        assert(final(self)@.queue =~= Seq::<Seq<Record>>::empty());
        let ghost all = queued@;
        let mut drained: Vec<Response> = Vec::new();
        while queued.len() > 0
            invariant
                drained@ + queued@ == all,
            decreases queued@.len(),
        {
            let ghost before = queued@;
            match queued.pop_front() {
                Some(response) => {
                    drained.push(response);
                    assert(drained@ + queued@ =~= all) by {
                        assert(before =~= seq![response] + queued@);
                    }
                },
                None => {},
            }
        }
        assert(drained@ =~= all);
        drained
    }
}

/// Puts `responses` into a queue, the first at its front.
fn in_order(responses: Vec<Response>) -> (queue: VecDeque<Response>)
    ensures
        queue@ == responses@,
{
    let mut rest = responses;
    let mut queue: VecDeque<Response> = VecDeque::new();
    while rest.len() > 0
        invariant
            rest@ + queue@ == responses@,
        decreases rest@.len(),
    {
        let ghost before = rest@;
        match rest.pop() {
            Some(response) => {
                queue.push_front(response);
                assert(rest@ + queue@ =~= responses@) by {
                    assert(before =~= rest@.push(response));
                }
            },
            None => {},
        }
    }
    assert(queue@ =~= responses@);
    queue
}

} // verus!
