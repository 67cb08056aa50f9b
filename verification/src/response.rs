//! What a received packet holds.

use vstd::prelude::*;
use crate::addr::{Ipv4, Ipv6};

verus! {

/// The payload of one resource record.
#[derive(Clone, Debug, PartialEq, Eq)]
pub enum RecordKind {
    /// An IPv4 address of the named host.
    A(Ipv4),
    /// An IPv6 address of the named host.
    AAAA(Ipv6),
    /// The name that a service or domain name points to.
    PTR(String),
    /// Where a service instance is reached.
    SRV { priority: u16, weight: u16, port: u16, target: String },
    /// The text chunks of the record, in order.
    TXT(Vec<String>),
    /// A record of any other type.
    Other,
}

/// One resource record of a response.
#[derive(Clone, Debug, PartialEq, Eq)]
pub struct Record {
    /// The domain name that the record is about.
    pub name: String,
    /// The code of the record's class; 1 is the Internet.
    pub class: u16,
    /// The number of seconds for which the record may be kept.
    pub ttl: u32,
    pub kind: RecordKind,
}

/// One parsed inbound packet: its answer, name server and additional records,
/// in that order.
#[derive(Clone, Debug, PartialEq, Eq)]
pub struct Response {
    pub records: Vec<Record>,
}

impl View for Response {
    type V = Seq<Record>;

    open spec fn view(&self) -> Seq<Record> {
        self.records@
    }
}

impl Response {
    /// A response that holds `records` in the given order.
    pub fn new(records: Vec<Record>) -> (response: Response)
        ensures
            response@ == records@,
    {
        Response { records }
    }

    /// The records of the response, in packet order.
    pub fn records(&self) -> (records: &Vec<Record>)
        ensures
            records@ == self@,
    {
        &self.records
    }
}

} // verus!
