use netbeat::engine::protocol::{generate_random_buffer, UPLOAD_DONE};
use netbeat::engine::scan::TailWindow;
use netbeat::engine::transport::{Operation, Outcome, Sentinel, Step};
use netbeat::engine::worker::{ServedStage, ServedUpload, UploadEnd};

#[test]
fn the_marker_in_one_piece_is_found() {
    let mut scan = TailWindow::new();
    assert!(scan.push(&UPLOAD_DONE));
    assert_eq!(scan.held(), 19);
}

#[test]
fn the_marker_cut_anywhere_across_two_reads_is_found() {
    for cut in 0..=UPLOAD_DONE.len() {
        let mut scan = TailWindow::new();
        assert!(!scan.push(&[0u8; 1000]));
        let mut first = vec![7u8; 33];
        first.extend_from_slice(&UPLOAD_DONE[..cut]);
        let found_early = scan.push(&first);
        assert_eq!(found_early, cut == UPLOAD_DONE.len(), "cut at {cut}");
        let found = scan.push(&UPLOAD_DONE[cut..]);
        assert!(found, "cut at {cut}");
    }
}

#[test]
fn the_marker_byte_by_byte_is_found_at_its_last_byte_only() {
    let mut scan = TailWindow::new();
    for (i, byte) in UPLOAD_DONE.iter().enumerate() {
        let found = scan.push(&[*byte]);
        assert_eq!(found, i == UPLOAD_DONE.len() - 1);
        assert!(scan.held() <= 19);
    }
}

#[test]
fn the_marker_after_payload_in_the_same_read_is_found() {
    let mut scan = TailWindow::new();
    let mut read = vec![1u8; 70_000];
    read.extend_from_slice(&UPLOAD_DONE);
    assert!(scan.push(&read));
}

#[test]
fn the_marker_followed_by_more_is_not_the_end() {
    let mut scan = TailWindow::new();
    let mut read = UPLOAD_DONE.to_vec();
    read.push(b'!');
    assert!(!scan.push(&read));
    assert!(!scan.push(b"NETBEAT_UPLOAD_DON"));
    assert!(scan.push(b"E"));
    assert!(!scan.push(b"E"));
    assert!(!scan.push(&[]));
}

#[test]
fn an_empty_read_changes_nothing() {
    let mut scan = TailWindow::new();
    assert!(!scan.push(&[]));
    assert_eq!(scan.held(), 0);
    assert!(scan.push(&UPLOAD_DONE));
    assert!(scan.push(&[]));
}

#[test]
fn the_marker_overlapping_itself_is_found() {
    // The message begins and ends with the same two letters.
    let mut scan = TailWindow::new();
    assert!(!scan.push(b"NETBEAT_UPLOAD_DO"));
    assert!(scan.push(b"NE"));
    assert!(!scan.push(b"TBEAT_UPLOAD_DO"));
    assert!(scan.push(b"NE"));
}

#[test]
fn detection_does_not_depend_on_how_the_stream_is_cut() {
    let mut stream = generate_random_buffer(500);
    stream.extend_from_slice(&UPLOAD_DONE);
    for size in [1usize, 2, 3, 5, 18, 19, 20, 64, 519] {
        let mut scan = TailWindow::new();
        let mut found = false;
        let mut fed = 0;
        for piece in stream.chunks(size) {
            found = scan.push(piece);
            fed += piece.len();
            if found {
                break;
            }
        }
        assert!(found, "pieces of {size}");
        assert_eq!(fed, stream.len(), "pieces of {size}");
    }
}

fn drain(reads: &[&[u8]]) -> (ServedUpload, usize) {
    let (mut upload, first) = ServedUpload::start(1024);
    assert_eq!(first, Operation::ReadExact { len: 20 });
    let begin = Sentinel::UploadStart.frame();
    let step = upload.step(Outcome::Frame(&begin));
    assert!(matches!(step, Step::Next(Operation::Receive { max: 1024 })));
    for (i, read) in reads.iter().enumerate() {
        match upload.step(Outcome::Frame(read)) {
            Step::Next(operation) => assert_eq!(operation, Operation::Receive { max: 1024 }),
            Step::Finished => return (upload, i + 1),
            Step::Failed(error) => panic!("{}", error.to_string()),
        }
    }
    (upload, reads.len())
}

#[test]
fn the_server_ends_an_upload_at_the_marker_however_it_arrives() {
    let (upload, reads) = drain(&[&[9u8; 1024], &[9u8; 10], b"NETBEAT_UPLOAD_DONE"]);
    assert_eq!((upload.stage, upload.end, reads), (ServedStage::Done, Some(UploadEnd::Marker), 3));

    let (upload, reads) = drain(&[&[9u8; 1024], b"xyzNETBEAT_UP", b"LOAD_DONE", b"never read"]);
    assert_eq!((upload.stage, upload.end, reads), (ServedStage::Done, Some(UploadEnd::Marker), 3));

    let (upload, reads) = drain(&[b"NETBEAT_UPLOAD_DONE and more", b"NETBEAT_", b"UPLOAD_", b"DONE"]);
    assert_eq!((upload.stage, upload.end, reads), (ServedStage::Done, Some(UploadEnd::Marker), 4));

    let (upload, reads) = drain(&[&[9u8; 100], &[]]);
    assert_eq!(
        (upload.stage, upload.end, reads),
        (ServedStage::Done, Some(UploadEnd::EndOfStream), 2)
    );

    let (upload, reads) = drain(&[&[9u8; 100]]);
    assert_eq!((upload.stage, upload.end, reads), (ServedStage::Moving, None, 1));
}
