//! The DNS wire format, as far as discovery needs it: the one query that is
//! sent, and the records of what comes back. Encoding and decoding are done by
//! the `dns-parser` crate.

use vstd::prelude::*;
use vstd::string::StringSliceAdditionalSpecFns;
use vstd::utf8::encode_utf8;
use crate::addr::{Ipv4, Ipv6};
use crate::error::DiscoveryError;
use crate::response::{Record, RecordKind, Response};
use dns_parser::RData;

verus! {

/// The most bytes that a service name may have for its query to fit into an
/// untruncated packet of 512 bytes.
pub const MAX_NAME_BYTES: usize = 494;

/// The most bytes that one label of a service name may have.
pub const MAX_LABEL_BYTES: usize = 62;

/// The transaction id of the queries that are sent.
pub const QUERY_ID: u16 = 0;

/// The code of the question type PTR.
pub const QTYPE_PTR: u16 = 12;

/// The code of the question class Internet.
pub const QCLASS_IN: u16 = 1;

/// `dns_parser::Error`, the reason why a packet could not be parsed. Nothing
/// is said of what it holds.
#[verifier::external_type_specification]
#[verifier::external_body]
pub struct ExDnsError(dns_parser::Error);

/// `dns_parser::ResourceRecord`, one record of a parsed packet, which borrows
/// from the packet's bytes. Nothing is said of what it holds.
#[verifier::external_type_specification]
#[verifier::external_body]
pub struct ExResourceRecord<'a>(dns_parser::ResourceRecord<'a>);

/// The bytes of the query packet that `dns-parser` builds for one question:
/// the transaction id, whether recursion is desired, the name asked for,
/// whether a unicast answer is preferred, and the codes of the question's type
/// and class.
pub uninterp spec fn query_packet(
    id: u16,
    recursion: bool,
    name: Seq<char>,
    prefer_unicast: bool,
    qtype: u16,
    qclass: u16,
) -> Seq<u8>;

/// The records of a packet, answers first, then name servers, then additional
/// records; `None` for bytes that are no well-formed DNS message.
pub uninterp spec fn parsed_records(data: Seq<u8>) -> Option<Seq<Record>>;

/// The number of bytes, counted back from position `end`, that hold no dot:
/// the length of the label that ends there.
pub open spec fn label_run(bytes: Seq<u8>, end: int) -> int
    decreases end,
{
    if end <= 0 || end > bytes.len() {
        0
    } else if bytes[end - 1] == 46u8 {
        0
    } else {
        label_run(bytes, end - 1) + 1
    }
}

/// The bytes of a name can be written as the question of an untruncated
/// query: the name is short enough, and so is each of its dot-separated
/// labels.
pub open spec fn encodable(bytes: Seq<u8>) -> bool {
    &&& bytes.len() <= MAX_NAME_BYTES
    &&& forall|end: int| 0 <= end <= bytes.len() ==> #[trigger] label_run(bytes, end) <= MAX_LABEL_BYTES
}

/// The codes of the question types that can be asked for: A, PTR, TXT, AAAA,
/// SRV and "all".
pub open spec fn known_query_type(code: u16) -> bool {
    code == 1 || code == 12 || code == 16 || code == 28 || code == 33 || code == 255
}

/// The codes of the question classes that can be asked for: Internet, CSNET,
/// CHAOS, Hesiod and "any".
pub open spec fn known_query_class(code: u16) -> bool {
    code == 1 || code == 2 || code == 3 || code == 4 || code == 255
}

/// The query that discovery sends for a service name: transaction id 0,
/// recursion not desired, one question for the name, of type PTR and class
/// Internet, with no preference for a unicast answer.
pub open spec fn ptr_query(service_name: Seq<char>) -> Seq<u8> {
    query_packet(QUERY_ID, false, service_name, false, QTYPE_PTR, QCLASS_IN)
}

/// A service name is encodable when its UTF-8 bytes are.
pub open spec fn encodable_name(service_name: Seq<char>) -> bool {
    encodable(encode_utf8(service_name))
}

/// Tells whether a query can be built for `service_name`.
pub fn is_encodable(service_name: &str) -> (ok: bool)
    ensures
        ok == encodable_name(service_name@),
{
    let bytes = service_name.as_bytes();
    if bytes.len() > MAX_NAME_BYTES {
        return false;
    }
    let mut run: usize = 0;
    let mut i: usize = 0;
    while i < bytes.len()
        invariant
            i <= bytes.len(),
            bytes.len() <= MAX_NAME_BYTES,
            bytes@ == encode_utf8(service_name@),
            run == label_run(bytes@, i as int),
            forall|end: int| 0 <= end <= i ==> #[trigger] label_run(bytes@, end) <= MAX_LABEL_BYTES,
        decreases bytes.len() - i,
    {
        if bytes[i] == 46u8 {
            run = 0;
        } else {
            run = run + 1;
        }
        i += 1;
        assert(run == label_run(bytes@, i as int));
        if run > MAX_LABEL_BYTES {
            assert(label_run(bytes@, i as int) > MAX_LABEL_BYTES);
            return false;
        }
    }
    true
}

/// Calls `dns_parser::QueryType::parse` and `QueryClass::parse` on the two
/// codes, then `dns_parser::Builder`: `new_query`, `add_question` and `build`.
/// The two parsers know the codes that are asked for here. The builder panics
/// on a label of 63 bytes or more and gives a packet of more than 512 bytes
/// back as truncated; an encodable name leads to neither. The bytes depend on
/// the arguments alone.
#[verifier::external_body]
pub(crate) fn encode_query(
    id: u16,
    recursion: bool,
    name: &str,
    prefer_unicast: bool,
    qtype: u16,
    qclass: u16,
) -> (packet: Vec<u8>)
    requires
        encodable_name(name@),
        known_query_type(qtype),
        known_query_class(qclass),
    ensures
        packet@ == query_packet(id, recursion, name@, prefer_unicast, qtype, qclass),
{
    let qtype = dns_parser::QueryType::parse(qtype).unwrap();
    let qclass = dns_parser::QueryClass::parse(qclass).unwrap();
    let mut builder = dns_parser::Builder::new_query(id, recursion);
    builder.add_question(name, prefer_unicast, qtype, qclass);
    builder.build().unwrap()
}

/// Reads one `dns_parser::ResourceRecord` into a record of this crate: name,
/// class code and time to live as they stand, the payload by its variant of
/// `dns_parser::RData`. Text chunks that are not UTF-8 are read lossily.
#[verifier::external_body]
fn convert_record(record: &dns_parser::ResourceRecord) -> Record {
    let kind = match record.data {
        RData::A(ref a) => RecordKind::A(Ipv4 { octets: a.0.octets() }),
        RData::AAAA(ref a) => RecordKind::AAAA(Ipv6 { octets: a.0.octets() }),
        RData::PTR(ref p) => RecordKind::PTR(p.0.to_string()),
        RData::SRV(ref s) => RecordKind::SRV { priority: s.priority, weight: s.weight, port: s.port, target: s.target.to_string() },
        RData::TXT(ref t) => RecordKind::TXT(t.iter().map(|c| String::from_utf8_lossy(c).into_owned()).collect()),
        _ => RecordKind::Other,
    };
    Record { name: record.name.to_string(), class: record.cls as u16, ttl: record.ttl, kind }
}

/// Calls `dns_parser::Packet::parse` and reads the records of the three
/// sections out, in section order. Parsing succeeds or fails by the bytes
/// alone, and the records are determined by them.
#[verifier::external_body]
fn parse_packet(data: &[u8]) -> (parsed: Result<Response, dns_parser::Error>)
    ensures
        parsed is Ok <==> parsed_records(data@) is Some,
        parsed matches Ok(response) ==> parsed_records(data@) == Some(response@),
{
    let packet = dns_parser::Packet::parse(data)?;
    let sections = packet.answers.iter().chain(packet.nameservers.iter()).chain(packet.additional.iter());
    Ok(Response { records: sections.map(convert_record).collect() })
}

/// Builds the query that discovery sends for a service name that can be
/// encoded.
pub fn ptr_query_for(service_name: &str) -> (packet: Vec<u8>)
    requires
        encodable_name(service_name@),
    ensures
        packet@ == ptr_query(service_name@),
{
    encode_query(QUERY_ID, false, service_name, false, QTYPE_PTR, QCLASS_IN)
}

/// Builds the query that discovery sends for `service_name`, or nothing where
/// the name cannot be encoded.
pub fn build_query(service_name: &str) -> (packet: Option<Vec<u8>>)
    ensures
        encodable_name(service_name@) ==> (packet matches Some(bytes) && bytes@ == ptr_query(
            service_name@,
        )),
        !encodable_name(service_name@) ==> packet.is_none(),
{
    if is_encodable(service_name) {
        Some(ptr_query_for(service_name))
    } else {
        None
    }
}

/// Parses one inbound packet.
pub fn parse(data: &[u8]) -> (parsed: Result<Response, DiscoveryError>)
    ensures
        parsed_records(data@) matches Some(records) ==> (parsed matches Ok(response) && response@
            == records),
        parsed_records(data@).is_none() ==> parsed == Err::<Response, DiscoveryError>(DiscoveryError::Codec),
{
    match parse_packet(data) {
        Ok(response) => Ok(response),
        Err(_) => Err(DiscoveryError::Codec),
    }
}

} // verus!
