use mdns::{
    build_query, mDNS, multicast_addr, Action, Datagram, DiscoveryError, InterfaceDiscovery, Io,
    Ipv4, Readiness, Record, RecordKind, Registration, Response, MULTICAST_PORT, MULTICAST_TTL,
    RECV_BUFFER_LEN,
};

const SERVICE_NAME: &str = "_googlecast._tcp.local";

fn address_packet(host: &[u8], addr: [u8; 4]) -> Vec<u8> {
    let mut bytes = vec![0, 0, 0x84, 0, 0, 0, 0, 1, 0, 0, 0, 0];
    bytes.push(host.len() as u8);
    bytes.extend_from_slice(host);
    bytes.extend_from_slice(&[5, b'l', b'o', b'c', b'a', b'l', 0]);
    bytes.extend_from_slice(&[0, 1, 0, 1, 0, 0, 0, 120, 0, 4]);
    bytes.extend_from_slice(&addr);
    bytes
}

fn address_response(host: &str, addr: [u8; 4]) -> Response {
    Response::new(vec![Record {
        name: format!("{}.local", host),
        class: 1,
        ttl: 120,
        kind: RecordKind::A(Ipv4 { octets: addr }),
    }])
}

fn query_action(index: usize, service_name: &str) -> Action {
    Action::Send {
        index,
        datagram: Datagram {
            packet: build_query(service_name).unwrap(),
            group: Ipv4::new(224, 0, 0, 251),
            port: 5353,
        },
    }
}

fn engine_over(addrs: Vec<Ipv4>) -> mDNS {
    let mut io = Io::new();
    mDNS::new(SERVICE_NAME, &addrs, &mut io).unwrap()
}

#[test]
fn new_engine_has_one_interface_per_address() {
    let mut io = Io::starting_at(7);
    let addrs = vec![Ipv4::new(192, 168, 1, 5), Ipv4::new(10, 0, 0, 8), Ipv4::new(172, 16, 0, 1)];
    let mut engine = mDNS::new(SERVICE_NAME, &addrs, &mut io).unwrap();
    assert_eq!(engine.service_name(), SERVICE_NAME);
    assert_eq!(
        engine.interfaces(),
        &vec![
            InterfaceDiscovery { token: 7, addr: Ipv4::new(192, 168, 1, 5) },
            InterfaceDiscovery { token: 8, addr: Ipv4::new(10, 0, 0, 8) },
            InterfaceDiscovery { token: 9, addr: Ipv4::new(172, 16, 0, 1) },
        ]
    );
    assert_eq!(io.peek_token(), 10);
    assert!(engine.responses().is_empty());
}

#[test]
fn tokens_are_as_many_as_interfaces() {
    let addrs = vec![
        Ipv4::new(192, 168, 1, 5),
        Ipv4::new(10, 0, 0, 8),
        Ipv4::new(192, 168, 1, 5),
        Ipv4::new(172, 16, 0, 1),
    ];
    let engine = engine_over(addrs);
    let mut tokens: Vec<usize> = engine.interfaces().iter().map(|i| i.token).collect();
    tokens.sort();
    tokens.dedup();
    assert_eq!(tokens.len(), engine.interfaces().len());
    assert_eq!(tokens.len(), 4);
}

#[test]
fn engines_of_one_token_source_share_no_token() {
    let mut io = Io::new();
    let first = mDNS::new(SERVICE_NAME, &vec![Ipv4::new(10, 0, 0, 1)], &mut io).unwrap();
    let second = mDNS::new(SERVICE_NAME, &vec![Ipv4::new(10, 0, 0, 2)], &mut io).unwrap();
    assert_eq!(first.interfaces()[0].token, 0);
    assert_eq!(second.interfaces()[0].token, 1);
}

#[test]
fn engine_without_addresses() {
    let mut engine = engine_over(Vec::new());
    assert!(engine.interfaces().is_empty());
    assert_eq!(engine.recv(0, &[]), Err(DiscoveryError::Routing));
    assert_eq!(engine.send(0), Err(DiscoveryError::Routing));
}

#[test]
fn construction_fails_when_tokens_run_out() {
    let mut io = Io::starting_at(usize::MAX - 1);
    let addrs = vec![Ipv4::new(10, 0, 0, 1), Ipv4::new(10, 0, 0, 2)];
    let result = mDNS::new(SERVICE_NAME, &addrs, &mut io);
    assert!(matches!(result, Err(DiscoveryError::Construction)));
    assert_eq!(io.peek_token(), usize::MAX);
    assert_eq!(io.create_token(), None);
    assert_eq!(io.peek_token(), usize::MAX);

    let mut io = Io::starting_at(usize::MAX - 2);
    assert!(mDNS::new(SERVICE_NAME, &addrs, &mut io).is_ok());
    assert_eq!(io.peek_token(), usize::MAX);
}

#[test]
fn create_token_counts_up() {
    let mut io = Io::new();
    assert_eq!(io.create_token(), Some(0));
    assert_eq!(io.create_token(), Some(1));
    assert_eq!(io.peek_token(), 2);
}

#[test]
fn interface_takes_the_next_token() {
    let mut io = Io::starting_at(41);
    let addr = Ipv4::new(192, 168, 1, 10);
    assert_eq!(InterfaceDiscovery::new(&addr, &mut io), Ok(InterfaceDiscovery { token: 41, addr }));
    assert_eq!(io.peek_token(), 42);
    let mut spent = Io::starting_at(usize::MAX);
    assert_eq!(InterfaceDiscovery::new(&addr, &mut spent), Err(DiscoveryError::Construction));
}

#[test]
fn socket_setup_follows_the_protocol() {
    let setup = InterfaceDiscovery::setup(&Ipv4::new(192, 168, 1, 10));
    assert_eq!(setup.bind_addr, Ipv4::new(0, 0, 0, 0));
    assert_eq!(setup.bind_port, 5353);
    assert!(setup.reuse_address);
    assert!(setup.reuse_port);
    assert!(setup.multicast_loop);
    assert_eq!(setup.multicast_ttl, 255);
    assert_eq!(setup.group, Ipv4::new(224, 0, 0, 251));
    assert_eq!(setup.interface, Ipv4::new(192, 168, 1, 10));
    assert_eq!(multicast_addr(), Ipv4::new(224, 0, 0, 251));
    assert_eq!(MULTICAST_PORT, 5353);
    assert_eq!(MULTICAST_TTL, 255);
    assert_eq!(RECV_BUFFER_LEN, 10000);
}

#[test]
fn registration_is_edge_triggered_for_both_kinds() {
    let interface = InterfaceDiscovery { token: 3, addr: Ipv4::new(192, 168, 1, 10) };
    assert_eq!(
        interface.registration(),
        Registration { token: 3, readable: true, writable: true, edge_triggered: true }
    );
}

#[test]
fn engine_for_a_name_that_cannot_be_encoded_still_receives() {
    let mut io = Io::new();
    let name = "a".repeat(63);
    let mut engine = mDNS::new(&name, &vec![Ipv4::new(192, 168, 1, 10)], &mut io).unwrap();
    assert_eq!(engine.service_name(), name);
    engine.recv(0, &address_packet(b"cast", [192, 168, 1, 50])).unwrap();
    assert_eq!(engine.route(0, Readiness::Readable), Ok(Action::Read { index: 0, capacity: 10000 }));
    assert_eq!(engine.responses().len(), 1);
}

#[test]
fn drain_is_empty_the_second_time() {
    let mut engine = engine_over(vec![Ipv4::new(192, 168, 1, 10)]);
    engine.recv(0, &address_packet(b"cast", [192, 168, 1, 50])).unwrap();
    assert_eq!(engine.responses().len(), 1);
    assert!(engine.responses().is_empty());
    assert!(engine.responses().is_empty());
}

#[test]
fn responses_come_out_in_arrival_order() {
    let mut engine = engine_over(vec![Ipv4::new(192, 168, 1, 5), Ipv4::new(10, 0, 0, 8)]);
    engine.recv(1, &address_packet(b"one", [192, 168, 1, 1])).unwrap();
    engine.recv(0, &address_packet(b"two", [192, 168, 1, 2])).unwrap();
    engine.recv(0, &[]).unwrap();
    engine.recv(1, &address_packet(b"three", [192, 168, 1, 3])).unwrap();
    assert_eq!(
        engine.responses(),
        vec![
            address_response("one", [192, 168, 1, 1]),
            address_response("two", [192, 168, 1, 2]),
            address_response("three", [192, 168, 1, 3]),
        ]
    );
}

#[test]
fn delivered_responses_keep_their_order() {
    let mut engine = engine_over(vec![Ipv4::new(192, 168, 1, 5)]);
    let first = vec![address_response("a", [10, 0, 0, 1]), address_response("b", [10, 0, 0, 2])];
    let second = vec![address_response("c", [10, 0, 0, 3])];
    assert_eq!(engine.deliver(0, first), Ok(()));
    assert_eq!(engine.deliver(0, Vec::new()), Ok(()));
    assert_eq!(engine.deliver(0, second), Ok(()));
    assert_eq!(
        engine.responses(),
        vec![
            address_response("a", [10, 0, 0, 1]),
            address_response("b", [10, 0, 0, 2]),
            address_response("c", [10, 0, 0, 3]),
        ]
    );
}

#[test]
fn empty_read_gives_no_response_and_no_error() {
    let interface = InterfaceDiscovery { token: 0, addr: Ipv4::new(192, 168, 1, 10) };
    assert_eq!(interface.recv(&[]), Ok(Vec::new()));
    let mut engine = engine_over(vec![Ipv4::new(192, 168, 1, 10)]);
    assert_eq!(engine.recv(0, &[]), Ok(()));
    assert!(engine.responses().is_empty());
}

#[test]
fn interface_read_gives_one_response() {
    let interface = InterfaceDiscovery { token: 0, addr: Ipv4::new(192, 168, 1, 10) };
    assert_eq!(
        interface.recv(&address_packet(b"cast", [192, 168, 1, 50])),
        Ok(vec![address_response("cast", [192, 168, 1, 50])])
    );
    assert_eq!(interface.recv(&[0xff]), Err(DiscoveryError::Codec));
}

#[test]
fn read_is_cut_at_the_buffer_length() {
    let interface = InterfaceDiscovery { token: 0, addr: Ipv4::new(192, 168, 1, 10) };
    // A packet of twelve header bytes that announces no record, followed by
    // filler: whole up to the buffer length, it parses with the filler ignored.
    let mut bytes = vec![0, 0, 0x84, 0, 0, 0, 0, 0, 0, 0, 0, 0];
    bytes.resize(RECV_BUFFER_LEN + 500, 0);
    assert_eq!(interface.recv(&bytes), Ok(vec![Response::new(Vec::new())]));
    // A record that ends exactly at the buffer length is read whole; one byte
    // later it is cut and the packet no longer parses.
    let mut exact = vec![0, 0, 0x84, 0, 0, 0, 0, 1, 0, 0, 0, 0];
    exact.extend_from_slice(&[0, 0, 10, 0, 1, 0, 0, 0, 5]);
    let rdlen = RECV_BUFFER_LEN - exact.len() - 2;
    exact.extend_from_slice(&[(rdlen / 256) as u8, (rdlen % 256) as u8]);
    exact.resize(RECV_BUFFER_LEN, 7);
    assert_eq!(interface.recv(&exact).map(|r| r.len()), Ok(1));
    let mut longer = vec![0, 0, 0x84, 0, 0, 0, 0, 1, 0, 0, 0, 0];
    longer.extend_from_slice(&[0, 0, 10, 0, 1, 0, 0, 0, 5]);
    let rdlen = RECV_BUFFER_LEN + 1 - longer.len() - 2;
    longer.extend_from_slice(&[(rdlen / 256) as u8, (rdlen % 256) as u8]);
    longer.resize(RECV_BUFFER_LEN + 1, 7);
    assert_eq!(interface.recv(&longer), Err(DiscoveryError::Codec));
}

#[test]
fn unknown_token_is_a_routing_error() {
    let mut engine = engine_over(vec![Ipv4::new(192, 168, 1, 10)]);
    engine.recv(0, &address_packet(b"cast", [192, 168, 1, 50])).unwrap();
    assert_eq!(
        engine.recv(5, &address_packet(b"other", [192, 168, 1, 51])),
        Err(DiscoveryError::Routing)
    );
    assert_eq!(
        engine.deliver(5, vec![address_response("other", [192, 168, 1, 51])]),
        Err(DiscoveryError::Routing)
    );
    assert_eq!(engine.send(5), Err(DiscoveryError::Routing));
    assert_eq!(engine.interface_index(5), None);
    assert_eq!(engine.responses(), vec![address_response("cast", [192, 168, 1, 50])]);
}

#[test]
fn malformed_packet_leaves_the_queue() {
    let mut engine = engine_over(vec![Ipv4::new(192, 168, 1, 10)]);
    engine.recv(0, &address_packet(b"cast", [192, 168, 1, 50])).unwrap();
    assert_eq!(engine.recv(0, &[1, 2, 3, 4]), Err(DiscoveryError::Codec));
    assert_eq!(engine.responses(), vec![address_response("cast", [192, 168, 1, 50])]);
}

#[test]
fn two_interfaces_do_not_cross_talk() {
    let mut io = Io::new();
    let addrs = vec![Ipv4::new(192, 168, 1, 5), Ipv4::new(10, 0, 0, 8)];
    let mut engine = mDNS::new(SERVICE_NAME, &addrs, &mut io).unwrap();
    let first = engine.interfaces()[0];
    let second = engine.interfaces()[1];
    assert_ne!(first.token, second.token);
    assert_eq!(engine.interface_index(first.token), Some(0));
    assert_eq!(engine.interface_index(second.token), Some(1));
    assert_eq!(first.addr, Ipv4::new(192, 168, 1, 5));
    assert_eq!(second.addr, Ipv4::new(10, 0, 0, 8));
    engine.recv(second.token, &address_packet(b"far", [10, 0, 0, 9])).unwrap();
    assert_eq!(engine.responses(), vec![address_response("far", [10, 0, 0, 9])]);
    assert_eq!(engine.interfaces(), &vec![first, second]);
}

#[test]
fn send_gives_the_query_for_the_service() {
    let mut io = Io::starting_at(4);
    let addrs = vec![Ipv4::new(192, 168, 1, 5), Ipv4::new(10, 0, 0, 8)];
    let mut engine = mDNS::new(SERVICE_NAME, &addrs, &mut io).unwrap();
    assert_eq!(engine.send(5), Ok(query_action(1, SERVICE_NAME)));
    assert_eq!(engine.send(4), Ok(query_action(0, SERVICE_NAME)));
    let interface = engine.interfaces()[0];
    let datagram = interface.send("_ipp._tcp.local");
    assert_eq!(datagram.packet, build_query("_ipp._tcp.local").unwrap());
    assert_ne!(datagram.packet, "_ipp._tcp.local".as_bytes().to_vec());
    assert_eq!(datagram.group, Ipv4::new(224, 0, 0, 251));
    assert_eq!(datagram.port, 5353);
    assert!(engine.responses().is_empty());
}

#[test]
fn discovery_over_one_interface() {
    let mut io = Io::new();
    let mut engine = mDNS::new(SERVICE_NAME, &vec![Ipv4::new(192, 168, 1, 10)], &mut io).unwrap();
    let token = engine.interfaces()[0].token;
    let sent = match engine.send(token) {
        Ok(Action::Send { index, datagram }) => {
            assert_eq!(index, 0);
            datagram
        }
        other => panic!("no query: {:?}", other),
    };
    assert_eq!(sent.group, Ipv4::new(224, 0, 0, 251));
    assert_eq!(sent.port, 5353);
    let question = dns_parser::Packet::parse(&sent.packet).unwrap();
    assert_eq!(question.questions.len(), 1);
    assert_eq!(question.questions[0].qname.to_string(), SERVICE_NAME);
    assert_eq!(question.questions[0].qtype, dns_parser::QueryType::PTR);
    assert_eq!(question.questions[0].qclass, dns_parser::QueryClass::IN);
    assert!(engine.responses().is_empty());
    engine.recv(token, &address_packet(b"cast", [192, 168, 1, 50])).unwrap();
    let responses = engine.responses();
    assert_eq!(responses.len(), 1);
    assert!(responses[0]
        .records()
        .iter()
        .any(|record| record.kind == RecordKind::A(Ipv4::new(192, 168, 1, 50))));
}

#[test]
fn route_asks_for_a_read_or_a_send() {
    let mut io = Io::starting_at(4);
    let addrs = vec![Ipv4::new(192, 168, 1, 5), Ipv4::new(10, 0, 0, 8)];
    let engine = mDNS::new(SERVICE_NAME, &addrs, &mut io).unwrap();
    assert_eq!(
        engine.route(5, Readiness::Readable),
        Ok(Action::Read { index: 1, capacity: 10000 })
    );
    assert_eq!(engine.route(4, Readiness::Writable), Ok(query_action(0, SERVICE_NAME)));
    assert_eq!(engine.route(0, Readiness::Readable), Err(DiscoveryError::Routing));
    assert_eq!(engine.route(6, Readiness::Writable), Err(DiscoveryError::Routing));
}
