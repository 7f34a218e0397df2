use ajour::conversation::{step, Event, Failure, Next, Notice, Progress, Turn};
use ajour::decision::ProtocolError;
use ajour::digest::HexError;
use ajour::metadata::Metadata;
use ajour::protocol::{Command, Status, UpdateStatus};

fn metadata(checksum: &str) -> Metadata {
    Metadata { version: b"1.2.3".to_vec(), checksum: checksum.to_string(), size: 200 }
}

fn status(version: &[u8], update: Option<(&[u8], u32)>) -> Status {
    Status {
        version: version.to_vec(),
        correlation_id: Some(7),
        mtu: Some(64),
        update: update.map(|(v, o)| UpdateStatus { version: v.to_vec(), offset: o }),
    }
}

fn found(metadata: Option<Metadata>) -> Event {
    Event::Metadata { found: Ok(metadata), backoff: Some(42) }
}

#[test]
fn a_conversation_starts_with_the_metadata() {
    assert_eq!(
        step(&status(b"1", None), Progress::Start, Event::Begin),
        Turn { progress: Progress::AwaitingMetadata, notices: vec![], next: Next::FetchMetadata }
    );
}

#[test]
fn without_metadata_the_device_waits() {
    assert_eq!(
        step(&status(b"1", None), Progress::AwaitingMetadata, found(None)),
        Turn {
            progress: Progress::Done,
            notices: vec![],
            next: Next::Reply(Command::Wait { correlation_id: Some(7), poll: Some(42) }),
        }
    );
}

#[test]
fn a_device_in_sync_is_told_so() {
    let md = metadata("00");
    assert_eq!(
        step(&status(b"1.2.3", None), Progress::AwaitingMetadata, found(Some(md.clone()))),
        Turn {
            progress: Progress::Done,
            notices: vec![Notice::Status(Ok(md)), Notice::Synced],
            next: Next::Reply(Command::Sync {
                version: b"1.2.3".to_vec(),
                correlation_id: Some(7),
                poll: None
            }),
        }
    );
}

#[test]
fn a_transfer_takes_two_turns() {
    let md = metadata("00");
    let st = status(b"1.0.0", Some((b"1.2.3", 192)));
    let turn = step(&st, Progress::AwaitingMetadata, found(Some(md.clone())));
    assert_eq!(
        turn,
        Turn {
            progress: Progress::AwaitingFirmware { metadata: md.clone(), offset: 192, mtu: 64 },
            notices: vec![Notice::Status(Ok(md)), Notice::Transfer { offset: 192, size: 200 }],
            next: Next::FetchFirmware,
        }
    );
    assert_eq!(
        step(&st, turn.progress, Event::Firmware(Ok(vec![0xab; 200]))),
        Turn {
            progress: Progress::Done,
            notices: vec![],
            next: Next::Reply(Command::Write {
                version: b"1.2.3".to_vec(),
                correlation_id: Some(7),
                offset: 192,
                data: vec![0xab; 8],
            }),
        }
    );
}

#[test]
fn the_end_of_a_transfer_activates() {
    let md = metadata("sha256:0102");
    let st = status(b"1.0.0", Some((b"1.2.3", 200)));
    let mut digest = [0u8; 32];
    digest[0] = 1;
    digest[1] = 2;
    assert_eq!(
        step(&st, Progress::AwaitingMetadata, found(Some(md.clone()))),
        Turn {
            progress: Progress::Done,
            notices: vec![Notice::Status(Ok(md)), Notice::Transfer { offset: 200, size: 200 }],
            next: Next::Reply(Command::Swap {
                version: b"1.2.3".to_vec(),
                correlation_id: Some(7),
                checksum: digest,
            }),
        }
    );
    let md = metadata("sha256:012");
    assert_eq!(
        step(&st, Progress::AwaitingMetadata, found(Some(md))).next,
        Next::Fail(Failure::Protocol(ProtocolError::Checksum(HexError::OddLength)))
    );
}

#[test]
fn store_failures_end_the_conversation() {
    let st = status(b"1.0.0", None);
    assert_eq!(
        step(
            &st,
            Progress::AwaitingMetadata,
            Event::Metadata { found: Err("down".to_string()), backoff: None }
        ),
        Turn {
            progress: Progress::Done,
            notices: vec![Notice::Status(Err("down".to_string()))],
            next: Next::Fail(Failure::Store("down".to_string())),
        }
    );
    let waiting = Progress::AwaitingFirmware { metadata: metadata("00"), offset: 0, mtu: 64 };
    assert_eq!(
        step(&st, waiting, Event::Firmware(Err("no blob".to_string()))),
        Turn {
            progress: Progress::Done,
            notices: vec![],
            next: Next::Fail(Failure::Store("no blob".to_string())),
        }
    );
    let waiting = Progress::AwaitingFirmware { metadata: metadata("00"), offset: 100, mtu: 64 };
    assert_eq!(
        step(&st, waiting, Event::Firmware(Ok(vec![0; 10]))).next,
        Next::Fail(Failure::Protocol(ProtocolError::ImpossibleOffset { offset: 100, available: 10 }))
    );
}

#[test]
fn events_out_of_turn_end_the_conversation() {
    let st = status(b"1.0.0", None);
    let out_of_turn =
        Turn { progress: Progress::Done, notices: vec![], next: Next::Fail(Failure::OutOfTurn) };
    assert_eq!(step(&st, Progress::Start, found(None)), out_of_turn);
    assert_eq!(step(&st, Progress::Start, Event::Firmware(Ok(vec![]))), out_of_turn);
    assert_eq!(step(&st, Progress::AwaitingMetadata, Event::Begin), out_of_turn);
    assert_eq!(step(&st, Progress::AwaitingMetadata, Event::Firmware(Ok(vec![]))), out_of_turn);
    let waiting = || Progress::AwaitingFirmware { metadata: metadata("00"), offset: 0, mtu: 64 };
    assert_eq!(step(&st, waiting(), Event::Begin), out_of_turn);
    assert_eq!(step(&st, waiting(), found(None)), out_of_turn);
    assert_eq!(step(&st, Progress::Done, Event::Begin), out_of_turn);
    assert_eq!(step(&st, Progress::Done, found(None)), out_of_turn);
    assert_eq!(step(&st, Progress::Done, Event::Firmware(Ok(vec![]))), out_of_turn);
}
