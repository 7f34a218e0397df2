use std::collections::BTreeMap;

use ajour::protocol::{Command, Status, UpdateStatus};
use ajour::wire::{decode_command, decode_status, encode_command, encode_status};
use serde_cbor::Value;

fn map(entries: Vec<(i128, Value)>) -> Value {
    let mut m = BTreeMap::new();
    for (k, v) in entries {
        m.insert(Value::Integer(k), v);
    }
    Value::Map(m)
}

fn opt(v: Option<u32>) -> Value {
    match v {
        Some(v) => Value::Integer(v as i128),
        None => Value::Null,
    }
}

fn status_value(s: &Status) -> Value {
    map(vec![
        (0, Value::Bytes(s.version.clone())),
        (1, opt(s.mtu)),
        (2, opt(s.correlation_id)),
        (
            3,
            match &s.update {
                Some(u) => map(vec![
                    (0, Value::Bytes(u.version.clone())),
                    (1, Value::Integer(u.offset as i128)),
                ]),
                None => Value::Null,
            },
        ),
    ])
}

fn command_value(c: &Command) -> Value {
    match c {
        Command::Wait { correlation_id, poll } => {
            map(vec![(0, map(vec![(0, opt(*correlation_id)), (1, opt(*poll))]))])
        }
        Command::Sync { version, correlation_id, poll } => map(vec![(
            1,
            map(vec![
                (0, Value::Bytes(version.clone())),
                (1, opt(*correlation_id)),
                (2, opt(*poll)),
            ]),
        )]),
        Command::Write { version, correlation_id, offset, data } => map(vec![(
            2,
            map(vec![
                (0, Value::Bytes(version.clone())),
                (1, opt(*correlation_id)),
                (2, Value::Integer(*offset as i128)),
                (3, Value::Bytes(data.clone())),
            ]),
        )]),
        Command::Swap { version, correlation_id, checksum } => map(vec![(
            3,
            map(vec![
                (0, Value::Bytes(version.clone())),
                (1, opt(*correlation_id)),
                (2, Value::Bytes(checksum.to_vec())),
            ]),
        )]),
    }
}

struct Lcg(u64);

impl Lcg {
    fn next(&mut self) -> u64 {
        self.0 = self.0.wrapping_mul(6364136223846793005).wrapping_add(1442695040888963407);
        self.0 >> 16
    }

    fn u32(&mut self) -> u32 {
        // Mix small and large numbers, so that every width of integer occurs.
        match self.next() % 5 {
            0 => (self.next() % 24) as u32,
            1 => (self.next() % 256) as u32,
            2 => (self.next() % 65536) as u32,
            3 => self.next() as u32,
            _ => [0, 23, 24, 255, 256, 65535, 65536, u32::MAX][(self.next() % 8) as usize],
        }
    }

    fn opt(&mut self) -> Option<u32> {
        if self.next() % 3 == 0 {
            None
        } else {
            Some(self.u32())
        }
    }

    fn bytes(&mut self) -> Vec<u8> {
        let len = match self.next() % 4 {
            0 => 0,
            1 => self.next() % 24,
            2 => self.next() % 300,
            _ => 250 + self.next() % 70000 / 100,
        };
        (0..len).map(|_| self.next() as u8).collect()
    }

    fn status(&mut self) -> Status {
        Status {
            version: self.bytes(),
            correlation_id: self.opt(),
            mtu: self.opt(),
            update: if self.next() % 2 == 0 {
                None
            } else {
                Some(UpdateStatus { version: self.bytes(), offset: self.u32() })
            },
        }
    }

    fn command(&mut self) -> Command {
        match self.next() % 4 {
            0 => Command::new_wait(self.opt(), self.opt()),
            1 => Command::new_sync(&self.bytes(), self.opt(), self.opt()),
            2 => Command::new_write(&self.bytes(), self.u32(), &self.bytes(), self.opt()),
            _ => Command::new_swap(&self.bytes(), &self.bytes(), self.opt()),
        }
    }
}

#[test]
fn status_frame_bytes() {
    let s = Status { version: vec![1], correlation_id: None, mtu: Some(4), update: None };
    assert_eq!(
        encode_status(&s),
        vec![0xa4, 0x00, 0x41, 0x01, 0x01, 0x04, 0x02, 0xf6, 0x03, 0xf6]
    );
    let s = Status {
        version: vec![1],
        correlation_id: Some(7),
        mtu: Some(64),
        update: Some(UpdateStatus { version: vec![2], offset: 128 }),
    };
    assert_eq!(
        encode_status(&s),
        vec![
            0xa4, 0x00, 0x41, 0x01, 0x01, 0x18, 0x40, 0x02, 0x07, 0x03, 0xa2, 0x00, 0x41, 0x02,
            0x01, 0x18, 0x80
        ]
    );
}

#[test]
fn command_frame_bytes() {
    assert_eq!(
        encode_command(&Command::new_wait(Some(42), None)),
        vec![0xa1, 0x00, 0xa2, 0x00, 0xf6, 0x01, 0x18, 0x2a]
    );
    assert_eq!(
        encode_command(&Command::new_sync(b"1.2", None, Some(1))),
        vec![0xa1, 0x01, 0xa3, 0x00, 0x43, b'1', b'.', b'2', 0x01, 0x01, 0x02, 0xf6]
    );
    assert_eq!(
        encode_command(&Command::new_write(&[1], 0x1234, &[9, 8], None)),
        vec![0xa1, 0x02, 0xa4, 0x00, 0x41, 0x01, 0x01, 0xf6, 0x02, 0x19, 0x12, 0x34, 0x03, 0x42, 9, 8]
    );
    let mut swap = vec![0xa1, 0x03, 0xa3, 0x00, 0x41, 0x01, 0x01, 0xf6, 0x02, 0x58, 0x20];
    swap.extend_from_slice(&[0x11; 32]);
    assert_eq!(encode_command(&Command::new_swap(&[1], &[0x11; 32], None)), swap);
}

#[test]
fn integers_use_their_shortest_form() {
    let frame = |mtu: u32| {
        encode_status(&Status { version: vec![], correlation_id: None, mtu: Some(mtu), update: None })
    };
    // a4 00 40 01, then the integer
    assert_eq!(&frame(0)[4..5], &[0x00]);
    assert_eq!(&frame(23)[4..5], &[0x17]);
    assert_eq!(&frame(24)[4..6], &[0x18, 0x18]);
    assert_eq!(&frame(255)[4..6], &[0x18, 0xff]);
    assert_eq!(&frame(256)[4..7], &[0x19, 0x01, 0x00]);
    assert_eq!(&frame(65535)[4..7], &[0x19, 0xff, 0xff]);
    assert_eq!(&frame(65536)[4..9], &[0x1a, 0x00, 0x01, 0x00, 0x00]);
    assert_eq!(&frame(u32::MAX)[4..9], &[0x1a, 0xff, 0xff, 0xff, 0xff]);
}

#[test]
fn long_byte_strings_carry_their_length() {
    let data = vec![0x5a; 70000];
    let frame = encode_command(&Command::new_write(&[], 0, &data, None));
    // a1 02 a4 00 40 01 f6 02 00 03, then the head of the data
    assert_eq!(&frame[10..15], &[0x5a, 0x00, 0x01, 0x11, 0x70]);
    assert_eq!(frame.len(), 15 + 70000);
    assert_eq!(decode_command(&frame), Some(Command::new_write(&[], 0, &data, None)));
}

#[test]
fn frames_are_what_a_cbor_reader_expects() {
    let mut rng = Lcg(1);
    for _ in 0..200 {
        let s = rng.status();
        let read: Value = serde_cbor::from_slice(&encode_status(&s)).unwrap();
        assert_eq!(read, status_value(&s));
        let c = rng.command();
        let read: Value = serde_cbor::from_slice(&encode_command(&c)).unwrap();
        assert_eq!(read, command_value(&c));
    }
}

#[test]
fn frames_are_what_a_cbor_writer_writes() {
    let mut rng = Lcg(2);
    for _ in 0..200 {
        let s = rng.status();
        assert_eq!(serde_cbor::to_vec(&status_value(&s)).unwrap(), encode_status(&s));
        let c = rng.command();
        assert_eq!(serde_cbor::to_vec(&command_value(&c)).unwrap(), encode_command(&c));
    }
}

#[test]
fn wire_round_trip() {
    let mut rng = Lcg(3);
    for _ in 0..1000 {
        let s = rng.status();
        assert_eq!(decode_status(&encode_status(&s)), Some(s));
        let c = rng.command();
        assert_eq!(decode_command(&encode_command(&c)), Some(c));
    }
}

#[test]
fn round_trip_of_each_variant() {
    let commands = vec![
        Command::new_wait(None, None),
        Command::new_wait(Some(42), Some(7)),
        Command::new_sync(b"1.2.3", None, None),
        Command::new_sync(b"", Some(u32::MAX), Some(0)),
        Command::new_write(b"1.2.3", 128, &[0xab; 64], Some(7)),
        Command::new_write(b"1.2.3", u32::MAX, &[], None),
        Command::new_swap(b"1.2.3", &[0; 32], None),
        Command::new_swap(b"1.2.3", &[0xff; 40], Some(1)),
    ];
    for c in commands {
        assert_eq!(decode_command(&encode_command(&c)), Some(c));
    }
    let statuses = vec![
        Status { version: b"1.0.0".to_vec(), correlation_id: None, mtu: None, update: None },
        Status {
            version: vec![],
            correlation_id: Some(0),
            mtu: Some(u32::MAX),
            update: Some(UpdateStatus { version: vec![0xf6], offset: 0 }),
        },
    ];
    for s in statuses {
        assert_eq!(decode_status(&encode_status(&s)), Some(s));
    }
}

#[test]
fn decoding_is_strict() {
    let s = Status { version: vec![1], correlation_id: None, mtu: Some(4), update: None };
    let frame = encode_status(&s);
    // nothing may follow a frame
    let mut longer = frame.clone();
    longer.push(0);
    assert_eq!(decode_status(&longer), None);
    // nothing may be missing
    assert_eq!(decode_status(&frame[..frame.len() - 1]), None);
    assert_eq!(decode_status(&[]), None);
    // an integer in a longer form than needed is refused
    assert_eq!(
        decode_status(&[0xa4, 0x00, 0x41, 0x01, 0x01, 0x18, 0x04, 0x02, 0xf6, 0x03, 0xf6]),
        None
    );
    // a fifth field is refused
    assert_eq!(
        decode_status(&[0xa5, 0x00, 0x41, 0x01, 0x01, 0x04, 0x02, 0xf6, 0x03, 0xf6, 0x04, 0xf6]),
        None
    );
    // fields out of order are refused
    assert_eq!(
        decode_status(&[0xa4, 0x01, 0x04, 0x00, 0x41, 0x01, 0x02, 0xf6, 0x03, 0xf6]),
        None
    );
    // a status is no command and a command is no status
    assert_eq!(decode_command(&frame), None);
    assert_eq!(decode_status(&encode_command(&Command::new_wait(None, None))), None);
    // a variant that does not exist
    assert_eq!(decode_command(&[0xa1, 0x04, 0xa2, 0x00, 0xf6, 0x01, 0xf6]), None);
    // a digest that is not 32 bytes long
    assert_eq!(
        decode_command(&[0xa1, 0x03, 0xa3, 0x00, 0x41, 0x01, 0x01, 0xf6, 0x02, 0x42, 0x01, 0x02]),
        None
    );
    // a byte string that claims more bytes than there are
    assert_eq!(decode_status(&[0xa4, 0x00, 0x45, 0x01, 0x01, 0x04, 0x02, 0xf6, 0x03, 0xf6]), None);
    // an integer of more than 32 bits
    assert_eq!(
        decode_status(&[
            0xa4, 0x00, 0x40, 0x01, 0x1b, 0, 0, 0, 1, 0, 0, 0, 0, 0x02, 0xf6, 0x03, 0xf6
        ]),
        None
    );
}
