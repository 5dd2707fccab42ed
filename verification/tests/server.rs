use any_dns::custom_handler::CustomHandler;
use any_dns::action::Action;
use any_dns::dns_thread::DnsProcessor;
use any_dns::endpoint::Endpoint;
use any_dns::error::Error;
use any_dns::pending_queries::PendingStore;
use any_dns::server::{AnyDNS, Builder, ServerEvent, ServerState};
use any_dns::wire::transaction_id;
use std::collections::HashSet;

fn client(port: u16) -> Endpoint {
    Endpoint::v4(127, 0, 0, 1, port)
}

struct Always {
    reply: Vec<u8>,
}

impl CustomHandler for Always {
    fn lookup(&self, _query: &Vec<u8>) -> Result<Vec<u8>, Error> {
        Ok(self.reply.clone())
    }
}

#[test]
fn id_ranges_of_one_worker() {
    assert_eq!(Builder::calculate_id_range(1, 0), 0..65534);
}

#[test]
fn id_ranges_of_two_workers() {
    assert_eq!(Builder::calculate_id_range(2, 0), 0..32766);
    assert_eq!(Builder::calculate_id_range(2, 1), 32767..65533);
}

#[test]
fn id_ranges_of_four_workers() {
    assert_eq!(Builder::calculate_id_range(4, 0), 0..16382);
    assert_eq!(Builder::calculate_id_range(4, 1), 16383..32765);
    assert_eq!(Builder::calculate_id_range(4, 2), 32766..49148);
    assert_eq!(Builder::calculate_id_range(4, 3), 49149..65531);
}

#[test]
fn id_ranges_of_the_most_workers() {
    assert_eq!(Builder::calculate_id_range(255, 0), 0..256);
    assert_eq!(Builder::calculate_id_range(255, 254), 65278..65534);
    assert_eq!(Builder::calculate_id_range(65535, 65534), 65534..65534);
}

#[test]
fn id_ranges_never_overlap() {
    for count in [1u16, 2, 3, 4, 7, 16, 100, 255] {
        let mut previous_end: Option<u16> = None;
        for i in 0..count {
            let range = Builder::calculate_id_range(count, i);
            assert!(range.start < range.end);
            if let Some(end) = previous_end {
                assert!(end < range.start, "{} workers: range {} overlaps", count, i);
            }
            previous_end = Some(range.end);
        }
    }
}

#[test]
fn id_ranges_cover_all_but_the_end_of_each_bucket() {
    let count = 3u16;
    let width = 65535 / count;
    let ranges: Vec<_> = (0..count).map(|i| Builder::calculate_id_range(count, i)).collect();
    for id in 0..(count * width) {
        let covered = ranges.iter().any(|range| range.contains(&id));
        let is_an_end = ranges.iter().any(|range| range.end == id);
        assert!(covered != is_an_end, "identifier {}", id);
        assert_eq!(is_an_end, id % width == width - 1);
    }
}

#[test]
fn builder_defaults() {
    let mut server = Builder::new().build();
    assert_eq!(server.icann_resolver(), Endpoint::v4(192, 168, 1, 1, 53));
    assert_eq!(server.listen(), Endpoint::v4(0, 0, 0, 0, 53));
    assert_eq!(server.state(), ServerState::Configured);
    let workers = server.start();
    assert_eq!(workers.len(), 1);
    assert_eq!(workers[0].id_range(), 0..65534);
    assert_eq!(workers[0].last_id(), 0);
    assert_eq!(workers[0].icann_resolver(), Endpoint::v4(192, 168, 1, 1, 53));
    assert!(!workers[0].verbose());
    assert!(matches!(workers[0].pending_queries(), PendingStore::ThreadSafe(_)));
}

#[test]
fn default_server_is_the_default_builders() {
    let mut server = AnyDNS::default();
    assert_eq!(server.icann_resolver(), Endpoint::v4(192, 168, 1, 1, 53));
    assert_eq!(server.listen(), Endpoint::v4(0, 0, 0, 0, 53));
    assert_eq!(server.start().len(), 1);
}

#[test]
fn default_handler_declines_everything() {
    let mut worker = Builder::new().build().start().pop().expect("one worker");
    let action = worker.process_packet(vec![0x12, 0x34, 1], client(4000), 0);
    assert!(matches!(action, Action::Forward { .. }));
}

#[test]
fn builder_settings_reach_every_worker() {
    let resolver = Endpoint::v4(9, 9, 9, 9, 53);
    let listen = Endpoint::v4(127, 0, 0, 1, 5353);
    let mut server = Builder::new()
        .icann_resolver(resolver)
        .listen(listen)
        .threads(3)
        .verbose(true)
        .handler(Always { reply: vec![0, 0, 42] })
        .build();
    assert_eq!(server.icann_resolver(), resolver);
    assert_eq!(server.listen(), listen);
    let mut workers = server.start();
    assert_eq!(workers.len(), 3);
    for (i, worker) in workers.iter_mut().enumerate() {
        assert_eq!(worker.icann_resolver(), resolver);
        assert!(worker.verbose());
        assert_eq!(worker.id_range(), Builder::calculate_id_range(3, i as u16));
        assert_eq!(worker.last_id(), worker.id_range().start);
        match worker.process_packet(vec![0x12, 0x34, 1], client(4000), 0) {
            Action::Answer { datagram, to } => {
                assert_eq!(datagram, vec![0x12, 0x34, 42]);
                assert_eq!(to, client(4000));
            }
            other => panic!("expected an answer, got {:?}", other),
        }
    }
}

#[test]
fn a_server_without_workers() {
    let mut server = Builder::new().threads(0).build();
    assert_eq!(server.start().len(), 0);
}

#[test]
fn the_most_workers() {
    let mut server = Builder::new().threads(255).build();
    let workers = server.start();
    assert_eq!(workers.len(), 255);
    assert_eq!(workers[254].id_range(), 65278..65534);
}

fn forward_id(worker: &mut DnsProcessor, query_id: u16, port: u16) -> u16 {
    let query = vec![(query_id >> 8) as u8, query_id as u8, 0x01, 0x00];
    match worker.process_packet(query, client(port), 0) {
        Action::Forward { datagram, .. } => transaction_id(&datagram).expect("identifier"),
        other => panic!("expected a forward, got {:?}", other),
    }
}

#[test]
fn two_worker_id_partitioning() {
    let mut server = Builder::new().threads(2).build();
    let mut workers = server.start();
    assert_eq!(workers[0].id_range(), 0..32766);
    assert_eq!(workers[1].id_range(), 32767..65533);

    let mut keys = HashSet::new();
    for round in 0..100u16 {
        for (i, worker) in workers.iter_mut().enumerate() {
            let id = forward_id(worker, round, 40000 + i as u16);
            assert!(worker.id_range().contains(&id));
            assert!(keys.insert(id), "two pending entries share the key {}", id);
            assert_eq!(worker.pending_queries().len(), keys.len());
        }
    }
    assert_eq!(keys.len(), 200);
    assert_eq!(workers[0].pending_queries().len(), 200);
    assert_eq!(workers[1].pending_queries().len(), 200);
}

#[test]
fn workers_share_the_table_and_the_handler() {
    let mut server = Builder::new().threads(2).build();
    let mut workers = server.start();
    let upstream = server.icann_resolver();
    let id = forward_id(&mut workers[0], 0x1234, 40000);
    let relay = workers[1].process_packet(vec![(id >> 8) as u8, id as u8, 9], upstream, 3);
    match relay {
        Action::Relay { datagram, to, .. } => {
            assert_eq!(datagram, vec![0x12, 0x34, 9]);
            assert_eq!(to, client(40000));
        }
        other => panic!("expected a relay, got {:?}", other),
    }
}

#[test]
fn server_life_moves_one_way() {
    let mut server = Builder::new().build();
    assert_eq!(server.state(), ServerState::Configured);
    server.record(ServerEvent::StopRequested);
    assert_eq!(server.state(), ServerState::Configured);
    assert_eq!(server.start().len(), 1);
    assert_eq!(server.state(), ServerState::Running);
    assert_eq!(server.start().len(), 0);
    assert_eq!(server.state(), ServerState::Running);
    server.record(ServerEvent::WorkersExited);
    assert_eq!(server.state(), ServerState::Running);
    server.record(ServerEvent::StopRequested);
    assert_eq!(server.state(), ServerState::Stopping);
    server.record(ServerEvent::Started);
    assert_eq!(server.state(), ServerState::Stopping);
    server.record(ServerEvent::WorkersExited);
    assert_eq!(server.state(), ServerState::Stopped);
    for event in [ServerEvent::Started, ServerEvent::StopRequested, ServerEvent::WorkersExited] {
        server.record(event);
        assert_eq!(server.state(), ServerState::Stopped);
    }
}

#[test]
fn state_transitions() {
    let configured = ServerState::Configured;
    let running = ServerState::Running;
    let stopping = ServerState::Stopping;
    let stopped = ServerState::Stopped;
    assert_eq!(configured.after(ServerEvent::Started), running);
    assert_eq!(configured.after(ServerEvent::StopRequested), configured);
    assert_eq!(configured.after(ServerEvent::WorkersExited), configured);
    assert_eq!(running.after(ServerEvent::Started), running);
    assert_eq!(running.after(ServerEvent::StopRequested), stopping);
    assert_eq!(running.after(ServerEvent::WorkersExited), running);
    assert_eq!(stopping.after(ServerEvent::Started), stopping);
    assert_eq!(stopping.after(ServerEvent::StopRequested), stopping);
    assert_eq!(stopping.after(ServerEvent::WorkersExited), stopped);
    assert_eq!(stopped.after(ServerEvent::Started), stopped);
}
