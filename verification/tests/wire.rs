use rtr_client::failure::{Failure, FailureKind};
use rtr_client::payload::{self, Action, Timing};
use rtr_client::pdu::{
    self, Body, CacheReset, CacheResponse, EndOfData, Header, Message, Payload, Received,
    SerialNotify,
};
use rtr_client::session::FirstReply;
use rtr_client::state::State;
use rtr_client::wire::{get_be, put_be};

type Lost = &'static str;

fn header(version: u8, pdu: u8, session: u16, length: u32) -> Header {
    Header {
        version,
        pdu,
        session,
        length,
    }
}

#[test]
fn numbers_are_big_endian() {
    let mut out = vec![9];
    put_be(&mut out, 0x1234, 2);
    put_be(&mut out, 0x0102_0304, 4);
    assert_eq!(out, vec![9, 0x12, 0x34, 1, 2, 3, 4]);
    assert_eq!(get_be(&out, 1, 3), 0x1234);
    assert_eq!(get_be(&out, 3, 7), 0x0102_0304);
    assert_eq!(get_be(&[255; 16], 0, 16), u128::MAX);
}

#[test]
fn header_is_decoded() {
    assert_eq!(
        Header::decode(&[1, 3, 0x12, 0x34, 0, 0, 1, 8]),
        header(1, 3, 0x1234, 264)
    );
}

#[test]
fn queries_are_encoded() {
    let state = State {
        session: 0x1234,
        serial: 0xfffe_0001,
    };
    assert_eq!(
        Message::SerialQuery { version: 1, state }.encode(),
        vec![1, 1, 0x12, 0x34, 0, 0, 0, 12, 0xff, 0xfe, 0, 1]
    );
    assert_eq!(
        Message::ResetQuery { version: 0 }.encode(),
        vec![0, 2, 0, 0, 0, 0, 0, 8]
    );
}

#[test]
fn reports_are_encoded() {
    let report = pdu::Error {
        version: 1,
        code: 6,
        pdu: None,
    };
    assert_eq!(
        Message::Error(report).encode(),
        vec![1, 10, 0, 6, 0, 0, 0, 16, 0, 0, 0, 0, 0, 0, 0, 0]
    );
    let bytes = [
        1, 4, 0, 0, 0, 0, 0, 20, 1, 24, 25, 0, 192, 0, 2, 0, 0, 0, 251, 240,
    ];
    let vrp = match Received::decode(Header::decode(&bytes[..8]), &bytes[8..]) {
        Received::Vrp(vrp) => vrp,
        _ => panic!("not a VRP"),
    };
    let report = pdu::Error {
        version: 1,
        code: 7,
        pdu: Some(vrp),
    };
    let mut expected = vec![1, 10, 0, 7, 0, 0, 0, 36, 0, 0, 0, 20];
    expected.extend_from_slice(&bytes);
    expected.extend_from_slice(&[0, 0, 0, 0]);
    assert_eq!(Message::Error(report).encode(), expected);
}

#[test]
fn prefixes_are_decoded() {
    let head = header(1, 4, 0, 20);
    let received = Received::decode(head, &[1, 24, 25, 0, 192, 0, 2, 0, 0, 0, 251, 240]);
    let vrp = match received {
        Received::Vrp(vrp) => vrp,
        _ => panic!("not a VRP"),
    };
    assert_eq!(vrp.version(), 1);
    assert_eq!(
        vrp.to_payload(),
        (
            Action::Announce,
            payload::Payload::V4(payload::Ipv4Prefix {
                prefix: 0xc000_0200,
                prefix_len: 24,
                max_len: 25,
                asn: 64496,
            })
        )
    );

    let head = header(0, 6, 0, 32);
    let mut body = vec![2, 32, 48, 0, 0x20, 0x01, 0x0d, 0xb8];
    body.extend_from_slice(&[0; 11]);
    body.extend_from_slice(&[5, 0, 1, 0, 0]);
    let received = Received::decode(head, &body);
    assert_eq!(
        received,
        Received::Vrp(Payload::V6(pdu::Ipv6Prefix {
            header: head,
            flags: 2,
            prefix_len: 32,
            max_len: 48,
            zero: 0,
            prefix: 0x2001_0db8_0000_0000_0000_0000_0000_0005,
            asn: 65536,
        }))
    );
    match received {
        Received::Vrp(vrp) => assert_eq!(vrp.to_payload().0, Action::Withdraw),
        _ => panic!("not a VRP"),
    }
}

#[test]
fn end_of_data_is_decoded() {
    assert_eq!(
        Received::decode(header(0, 7, 17, 12), &[0, 0, 0, 41]),
        Received::End(EndOfData {
            version: 0,
            state: State {
                session: 17,
                serial: 41
            },
            timing: None,
        })
    );
    let body = [0, 0, 0, 41, 0, 0, 0, 120, 0, 0, 0, 60, 0, 0, 3, 132];
    assert_eq!(
        Received::decode(header(1, 7, 17, 24), &body),
        Received::End(EndOfData {
            version: 1,
            state: State {
                session: 17,
                serial: 41
            },
            timing: Some(Timing {
                refresh: 120,
                retry: 60,
                expire: 900
            }),
        })
    );
}

#[test]
fn bodies_are_sized() {
    let body = |header| Received::body::<Lost>(header);
    assert_eq!(body(header(1, 4, 0, 20)), Ok(Body::Read(12)));
    assert_eq!(body(header(1, 6, 0, 32)), Ok(Body::Read(24)));
    assert_eq!(body(header(0, 7, 0, 12)), Ok(Body::Read(4)));
    assert_eq!(body(header(1, 7, 0, 24)), Ok(Body::Read(16)));
    assert_eq!(body(header(1, 9, 0, 123)), Ok(Body::Skip(115)));
    assert_eq!(
        body(header(1, 4, 0, 21)),
        Err(Failure::InvalidLength(21))
    );
    assert_eq!(body(header(1, 6, 0, 20)), Err(Failure::InvalidLength(20)));
    assert_eq!(body(header(1, 7, 0, 12)), Err(Failure::InvalidLength(12)));
    assert_eq!(body(header(1, 9, 0, 7)), Err(Failure::InvalidLength(7)));
    assert_eq!(body(header(2, 7, 0, 24)), Err(Failure::UnknownVersion(2)));
    assert_eq!(body(header(1, 10, 2, 16)), Err(Failure::ServerError(2)));
    assert_eq!(body(header(1, 3, 0, 8)), Err(Failure::UnexpectedPdu(3)));
}

#[test]
fn first_replies_are_told_apart() {
    let read = |header| FirstReply::read::<Lost>(header);
    assert_eq!(
        read(header(1, 3, 17, 8)),
        Ok(FirstReply::Response(CacheResponse {
            version: 1,
            session: 17
        }))
    );
    assert_eq!(
        read(header(0, 8, 0, 8)),
        Ok(FirstReply::Reset(CacheReset { version: 0 }))
    );
    assert_eq!(read(header(1, 10, 2, 16)), Err(Failure::ServerError(2)));
    assert_eq!(read(header(1, 7, 17, 24)), Err(Failure::UnexpectedPdu(7)));
    assert_eq!(read(header(1, 3, 17, 9)), Err(Failure::InvalidLength(9)));
    assert_eq!(read(header(1, 8, 17, 12)), Err(Failure::InvalidLength(12)));
}

#[test]
fn other_headers_are_checked() {
    assert_eq!(
        CacheResponse::read::<Lost>(header(1, 3, 17, 8)),
        Ok(CacheResponse {
            version: 1,
            session: 17
        })
    );
    assert_eq!(
        CacheResponse::read::<Lost>(header(1, 8, 17, 8)),
        Err(Failure::UnexpectedPdu(8))
    );
    assert_eq!(
        CacheReset::read::<Lost>(header(1, 8, 0, 8)),
        Ok(CacheReset { version: 1 })
    );
    assert_eq!(SerialNotify::body::<Lost>(header(1, 0, 17, 12)), Ok(4));
    assert_eq!(
        SerialNotify::new(header(1, 0, 17, 12)),
        SerialNotify { version: 1 }
    );
    assert_eq!(
        Received::skipped(header(1, 9, 0, 123)),
        Received::Unsupported { version: 1 }
    );
    assert_eq!(
        SerialNotify::body::<Lost>(header(1, 0, 17, 8)),
        Err(Failure::InvalidLength(8))
    );
    assert_eq!(
        SerialNotify::body::<Lost>(header(1, 7, 17, 12)),
        Err(Failure::UnexpectedPdu(7))
    );
}

#[test]
fn failures_are_described() {
    let io: Failure<Lost> = Failure::Io {
        eof: true,
        error: "lost",
    };
    assert!(io.is_eof());
    assert_eq!(io.kind(), FailureKind::Io);
    assert_eq!(io.message(), "");
    let cases: Vec<(Failure<Lost>, FailureKind, &str)> = vec![
        (
            Failure::TimedOut,
            FailureKind::TimedOut,
            "server response timed out",
        ),
        (
            Failure::VersionChanged,
            FailureKind::InvalidData,
            "version has changed",
        ),
        (
            Failure::ServerError(65535),
            FailureKind::Other,
            "server reported error 65535",
        ),
        (
            Failure::ServerError(0),
            FailureKind::Other,
            "server reported error 0",
        ),
        (
            Failure::UnexpectedPdu(123),
            FailureKind::InvalidData,
            "unexpected PDU 123",
        ),
        (
            Failure::InvalidLength(4294967295),
            FailureKind::InvalidData,
            "invalid PDU length 4294967295",
        ),
        (
            Failure::UnknownVersion(20),
            FailureKind::InvalidData,
            "unknown version 20",
        ),
        (Failure::Rejected, FailureKind::Other, ""),
    ];
    for (failure, kind, message) in cases {
        assert!(!failure.is_eof());
        assert_eq!(failure.kind(), kind);
        assert_eq!(failure.message(), message);
    }
}

#[test]
fn messages_give_their_length() {
    let state = State {
        session: 1,
        serial: 2,
    };
    let vrp = match Received::decode(header(1, 6, 0, 32), &[7; 24]) {
        Received::Vrp(vrp) => Some(vrp),
        _ => None,
    };
    let messages = [
        Message::SerialQuery { version: 1, state },
        Message::ResetQuery { version: 1 },
        Message::Error(pdu::Error {
            version: 1,
            code: 6,
            pdu: None,
        }),
        Message::Error(pdu::Error {
            version: 1,
            code: 6,
            pdu: vrp,
        }),
    ];
    let mut lengths = Vec::new();
    for message in messages {
        let bytes = message.encode();
        let length = Header::decode(&bytes[..8]).length;
        assert_eq!(length as usize, bytes.len());
        lengths.push(length);
    }
    assert_eq!(lengths, vec![12, 8, 16, 48]);
}

#[test]
fn different_bytes_are_different_pdus() {
    let body = [1, 24, 25, 0, 192, 0, 2, 0, 0, 0, 251, 240];
    for at in 0..body.len() {
        let mut other = body;
        other[at] ^= 2;
        assert_ne!(
            Received::decode(header(1, 4, 0, 20), &body),
            Received::decode(header(1, 4, 0, 20), &other)
        );
    }
    let end = [0, 0, 0, 41, 0, 0, 0, 120, 0, 0, 0, 60, 0, 0, 3, 132];
    for at in 0..end.len() {
        let mut other = end;
        other[at] ^= 2;
        assert_ne!(
            Received::decode(header(1, 7, 17, 24), &end),
            Received::decode(header(1, 7, 17, 24), &other)
        );
    }
}
