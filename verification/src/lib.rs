//! Discovery of services advertised over multicast DNS.
//!
//! The crate holds the decisions of a discovery engine: which local addresses
//! get a multicast socket, how each socket is configured, which socket a
//! readiness event belongs to, what is sent, and how received packets are
//! queued for the caller. The sockets themselves belong to the caller, who
//! performs the reads and writes and hands the bytes over.

pub mod addr;
pub mod codec;
pub mod discovery;
pub mod error;
pub mod io;
pub mod laws;
pub mod response;

pub use addr::{list_ipv4_addrs, Ipv4, Ipv6, LocalAddr};
pub use codec::{build_query, is_encodable, parse};
pub use discovery::{
    mDNS, Action, Datagram, EngineModel, InterfaceDiscovery, Readiness, Registration, SocketSetup,
};
pub use discovery::{multicast_addr, MULTICAST_PORT, MULTICAST_TTL, RECV_BUFFER_LEN};
pub use error::DiscoveryError;
pub use io::Io;
pub use response::{Record, RecordKind, Response};
