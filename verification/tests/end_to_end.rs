use netbeat::engine::admission::AdmissionCounter;
use netbeat::engine::client::Client;
use netbeat::engine::config::BindInterface;
use netbeat::engine::protocol::generate_random_buffer;
use netbeat::engine::server::Server;
use netbeat::engine::session::{ClientEngine, ClientStage};
use netbeat::engine::transport::{Operation, Outcome, Step};
use netbeat::engine::worker::{DownloadEnd, UploadEnd, Worker, WorkerStage};
use netbeat::output::reports::NetbeatReport;
use netbeat::utils::error::{IoErrorKind, IoFailure, NetbeatError};
use std::collections::VecDeque;

/// A connection held in memory: what each side has written and the other has not yet
/// read, and a clock that moves with every operation.
struct Wire {
    to_server: VecDeque<u8>,
    to_client: VecDeque<u8>,
    client_closed: bool,
    server_gone: bool,
    /// Most bytes that one read of the server gives.
    server_read: usize,
    /// Most bytes that one read of the client gives.
    client_read: usize,
    clock: u64,
    buffer: Vec<u8>,
}

impl Wire {
    fn new(chunk: usize, server_read: usize, client_read: usize) -> Wire {
        Wire {
            to_server: VecDeque::new(),
            to_client: VecDeque::new(),
            client_closed: false,
            server_gone: false,
            server_read,
            client_read,
            clock: 0,
            buffer: generate_random_buffer(chunk),
        }
    }

    fn tick(&mut self) -> u64 {
        self.clock += 1_000;
        self.clock
    }
}

fn gone(kind: IoErrorKind) -> IoFailure {
    IoFailure { kind, message: "the peer is gone".to_string() }
}

fn take(queue: &mut VecDeque<u8>, count: usize) -> Vec<u8> {
    queue.drain(..count).collect()
}

/// Carries out what the client asks for, if it can be done without waiting.
fn client_turn(engine: &mut ClientEngine, pending: &mut Option<Step>, wire: &mut Wire) -> bool {
    let operation = match pending {
        Some(Step::Next(operation)) => *operation,
        _ => return false,
    };
    let frame: Vec<u8>;
    let outcome = match operation {
        Operation::Send { message } => {
            wire.to_server.extend(message.frame());
            Outcome::Completed
        }
        Operation::SendPayload { len } => {
            wire.to_server.extend(&wire.buffer[..len as usize]);
            Outcome::Completed
        }
        Operation::ReadExact { len } => {
            if wire.to_client.len() >= len {
                frame = take(&mut wire.to_client, len);
                Outcome::Frame(&frame)
            } else if wire.server_gone {
                Outcome::Failed(gone(IoErrorKind::UnexpectedEof))
            } else {
                return false;
            }
        }
        Operation::Read { max } => {
            if !wire.to_client.is_empty() {
                let count = wire.to_client.len().min(max as usize).min(wire.client_read);
                take(&mut wire.to_client, count);
                Outcome::Received(count as u64)
            } else if wire.server_gone {
                Outcome::Received(0)
            } else {
                return false;
            }
        }
        Operation::Shutdown => {
            wire.client_closed = true;
            Outcome::Completed
        }
        _ => Outcome::Completed,
    };
    let now = wire.tick();
    *pending = Some(engine.step(outcome, now));
    true
}

/// Carries out what the worker asks for, if it can be done without waiting.
fn server_turn(worker: &mut Worker, pending: &mut Option<Step>, wire: &mut Wire) -> bool {
    let operation = match pending {
        Some(Step::Next(operation)) => *operation,
        _ => return false,
    };
    let frame: Vec<u8>;
    let outcome = match operation {
        Operation::Send { message } => {
            wire.to_client.extend(message.frame());
            Outcome::Completed
        }
        Operation::SendPayload { len } => {
            if wire.client_closed {
                Outcome::Failed(gone(IoErrorKind::BrokenPipe))
            } else if wire.to_client.len() >= 4 * wire.buffer.len() {
                return false;
            } else {
                wire.to_client.extend(&wire.buffer[..len as usize]);
                Outcome::Completed
            }
        }
        Operation::ReadExact { len } => {
            if wire.to_server.len() >= len {
                frame = take(&mut wire.to_server, len);
                Outcome::Frame(&frame)
            } else if wire.client_closed {
                Outcome::Failed(gone(IoErrorKind::UnexpectedEof))
            } else {
                return false;
            }
        }
        Operation::Receive { max } => {
            if !wire.to_server.is_empty() {
                let count = wire.to_server.len().min(max as usize).min(wire.server_read);
                frame = take(&mut wire.to_server, count);
                Outcome::Frame(&frame)
            } else if wire.client_closed {
                frame = Vec::new();
                Outcome::Frame(&frame)
            } else {
                return false;
            }
        }
        _ => Outcome::Completed,
    };
    wire.tick();
    let step = worker.step(outcome);
    if !matches!(step, Step::Next(_)) {
        wire.server_gone = true;
    }
    *pending = Some(step);
    true
}

struct Session {
    report: Result<NetbeatReport, NetbeatError>,
    worker: Worker,
    served: Result<(), NetbeatError>,
    client_asked: Vec<Operation>,
}

/// Runs a client against a worker over a connection in memory, each side taking its
/// turn whenever what it asks for can be done.
fn session(client: &Client, server: &Server, server_read: usize, client_read: usize) -> Session {
    let mut wire = Wire::new(client.chunk_size as usize, server_read, client_read);
    let (mut engine, first) = client.contact();
    let (mut worker, asked) = Worker::start(server.chunk_size);
    let mut client_step = Some(first);
    let mut server_step = Some(Step::Next(asked));
    let mut client_asked = Vec::new();
    loop {
        if let Some(Step::Next(operation)) = &client_step {
            client_asked.push(*operation);
        }
        let mut moved = client_turn(&mut engine, &mut client_step, &mut wire);
        // The server runs until it has to wait, as a busy peer would.
        while server_turn(&mut worker, &mut server_step, &mut wire) {
            moved = true;
        }
        if !moved {
            break;
        }
    }
    let report = match client_step {
        Some(Step::Finished) => {
            assert_eq!(engine.stage, ClientStage::Done);
            Ok(engine.into_report())
        }
        Some(Step::Failed(error)) => Err(error),
        _ => panic!("the client waits for something that never comes"),
    };
    let served = match server_step {
        Some(Step::Finished) => Ok(()),
        Some(Step::Failed(error)) => Err(error),
        _ => panic!("the worker waits for something that never comes"),
    };
    Session { report, worker, served, client_asked }
}

fn loopback_server(max_connections: u32) -> Server {
    Server::builder()
        .interface(BindInterface::Localhost)
        .chunk_size("1024")
        .unwrap()
        .max_connections(max_connections)
        .quiet(true)
        .build()
        .unwrap()
}

fn client_for(data: &str, ping_count: u32) -> Client {
    Client::builder("127.0.0.1")
        .chunk_size("1024")
        .unwrap()
        .ping_count(ping_count)
        .data(Some(data))
        .quiet(true)
        .build()
        .unwrap()
}

#[test]
fn a_session_by_bytes_moves_exactly_the_bytes_asked_for() {
    let server = loopback_server(5);
    let client = client_for("4096", 4);
    let run = session(&client, &server, usize::MAX, usize::MAX);

    let report = run.report.unwrap();
    assert_eq!(report.ping_report.ping_count, 4);
    assert!(report.ping_report.successful_pings <= 4);
    assert_eq!(report.ping_report.successful_pings, 4);
    assert_eq!(
        report.ping_report.lost_pings,
        report.ping_report.ping_count - report.ping_report.successful_pings
    );
    assert_eq!(report.ping_report.packet_loss().numerator, 0);
    assert_eq!(report.ping_report.packet_loss().denominator, 4);
    assert_eq!(report.upload_report.bytes, 4096);
    assert_eq!(report.download_report.bytes, 4096);
    assert!(report.upload_report.duration > 0);
    assert!(report.download_report.duration > 0);

    assert!(run.served.is_ok());
    assert_eq!(run.worker.stage, WorkerStage::Done);
    // The priming probe is answered like every other.
    assert_eq!(run.worker.ping.replies, 5);
    assert!(!run.worker.ping.aborted);
    assert_eq!(run.worker.upload.end, Some(UploadEnd::Marker));
    assert_eq!(run.worker.download.end, Some(DownloadEnd::PeerDone));
}

#[test]
fn a_session_holds_its_phases_in_order() {
    let run = session(&client_for("2048", 2), &loopback_server(5), usize::MAX, usize::MAX);
    assert!(run.report.is_ok());
    let kinds: Vec<&str> = run
        .client_asked
        .iter()
        .map(|operation| match operation {
            Operation::Connect { .. } => "connect",
            Operation::Configure { .. } => "configure",
            Operation::Send { .. } => "send",
            Operation::SendPayload { .. } => "payload",
            Operation::ReadExact { .. } => "frame",
            Operation::Read { .. } => "read",
            Operation::Flush => "flush",
            Operation::Sleep { millis: 500 } => "pause",
            Operation::Sleep { .. } => "rest",
            Operation::Shutdown => "shutdown",
            _ => "other",
        })
        .collect();
    let reads = kinds.iter().filter(|kind| **kind == "read").count();
    let mut expected = vec![
        "connect", "configure", // the connection
        "send", "send", "frame", "send", "frame", "send", // two pings between priming and end
        "send", "payload", "payload", "send", "flush", // the upload
        "pause", "send",
    ];
    expected.extend(std::iter::repeat("read").take(reads));
    expected.extend(["flush", "shutdown"]);
    assert_eq!(kinds, expected);
}

#[test]
fn a_session_survives_any_fragmentation_of_the_stream() {
    for (server_read, client_read) in [(1usize, 1usize), (7, 3), (19, 1024), (1000, 5), (1024, 1024)] {
        for data in ["1", "1000", "4096", "5000"] {
            let client = client_for(data, 3);
            let run = session(&client, &loopback_server(5), server_read, client_read);
            let report = run.report.unwrap();
            let goal: u64 = data.parse().unwrap();
            assert_eq!(report.upload_report.bytes, goal);
            assert_eq!(report.download_report.bytes, goal);
            assert_eq!(report.ping_report.successful_pings, 3);
            assert!(run.served.is_ok());
            assert_eq!(run.worker.upload.end, Some(UploadEnd::Marker));
        }
    }
}

#[test]
fn a_session_by_time_runs_each_direction_for_the_time_asked() {
    // Every operation takes a microsecond on the clock of the wire.
    let client = Client::builder("127.0.0.1")
        .chunk_size("1024")
        .unwrap()
        .ping_count(1)
        .time(0)
        .quiet(true)
        .build()
        .unwrap();
    let run = session(&client, &loopback_server(5), usize::MAX, usize::MAX);
    let report = run.report.unwrap();
    assert_eq!(report.upload_report.bytes, 0);
    assert_eq!(report.upload_report.duration, 0);
    assert_eq!(report.upload_report.speed(), None);
    assert_eq!(report.download_report.bytes, 0);
    assert!(run.served.is_ok());
}

#[test]
fn a_second_connection_at_capacity_is_refused_and_the_first_completes() {
    let server = loopback_server(1);
    let (mut listener, mut counter, _) = server.listen();
    assert_eq!(listener.step(Outcome::Completed, &mut counter).to_owned_operation(), Some(Operation::Accept));

    // The first client is taken in.
    let step = listener.step(Outcome::Completed, &mut counter);
    assert_eq!(step.to_owned_operation(), Some(Operation::Admit { timeout: 30 }));
    let step = listener.step(Outcome::Completed, &mut counter);
    assert_eq!(step.to_owned_operation(), Some(Operation::Dispatch { chunk_size: 1024 }));
    listener.step(Outcome::Completed, &mut counter);

    // While it is served a second one comes and is turned away at the door.
    let step = listener.step(Outcome::Completed, &mut counter);
    assert_eq!(step.to_owned_operation(), Some(Operation::Reject));
    assert_eq!(counter.active_connections(), 1);
    listener.step(Outcome::Completed, &mut counter);

    // The first session is unaffected and runs to its end.
    let run = session(&client_for("4096", 4), &server, usize::MAX, usize::MAX);
    let report = run.report.unwrap();
    assert_eq!(report.upload_report.bytes, 4096);
    assert_eq!(report.download_report.bytes, 4096);
    assert!(run.served.is_ok());
    release(&mut counter);
    assert_eq!(counter.active_connections(), 0);

    // Now there is room for another.
    let step = listener.step(Outcome::Completed, &mut counter);
    assert_eq!(step.to_owned_operation(), Some(Operation::Admit { timeout: 30 }));
}

fn release(counter: &mut AdmissionCounter) {
    assert!(counter.active_connections() > 0);
    counter.release();
}

trait Asked {
    fn to_owned_operation(&self) -> Option<Operation>;
}

impl Asked for Step {
    fn to_owned_operation(&self) -> Option<Operation> {
        match self {
            Step::Next(operation) => Some(*operation),
            _ => None,
        }
    }
}
