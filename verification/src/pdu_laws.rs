//! Where on the wire the fields of a PDU are, and what they say.
//!
//! The laws here give each field of a PDU by the bytes that hold it. Bytes are
//! counted from zero, and all numbers are in network byte order.
use crate::failure::Failure;
use crate::payload::{self, Action};
use crate::pdu::{
    lemma_payload_size, Body, CacheReset, CacheResponse, EndOfData, Header, Message, Payload,
    Received, SerialNotify, CACHE_RESET, CACHE_RESPONSE, END_OF_DATA, ERROR, IPV4_PREFIX,
    IPV6_PREFIX, RESET_QUERY, ROUTER_KEY, SERIAL_NOTIFY, SERIAL_QUERY,
};
use crate::session::FirstReply;
use crate::wire::{
    be_bytes, be_limit, be_value, lemma_be_bytes_len, lemma_be_limits, lemma_value_of_bytes,
};
use vstd::arithmetic::div_mod::lemma_fundamental_div_mod_converse;
use vstd::prelude::*;

verus! {

//------------ Numbers -------------------------------------------------------

/// A byte that is appended becomes the lowest byte of the number, and all the
/// others move up by one.
pub proof fn appended_byte_is_the_lowest(bytes: Seq<u8>, byte: u8)
    ensures
        be_value(Seq::empty()) == 0,
        be_value(bytes.push(byte)) == be_value(bytes) * 256 + byte,
{
    assert(bytes.push(byte).drop_last() =~= bytes);
}

/// What two and four bytes stand for.
pub proof fn short_numbers(a: u8, b: u8, c: u8, d: u8)
    ensures
        be_value(seq![a, b]) == a * 0x100 + b,
        be_value(seq![a, b, c, d]) == a * 0x100_0000 + b * 0x1_0000 + c * 0x100 + d,
{
    let none = Seq::<u8>::empty();
    appended_byte_is_the_lowest(none, a);
    appended_byte_is_the_lowest(none.push(a), b);
    appended_byte_is_the_lowest(none.push(a).push(b), c);
    appended_byte_is_the_lowest(none.push(a).push(b).push(c), d);
    assert(seq![a, b] =~= none.push(a).push(b));
    assert(seq![a, b, c, d] =~= none.push(a).push(b).push(c).push(d));
}

/// A number is written in as many bytes as were asked for, and they stand for
/// the number as far as it fits into them. Each byte makes room for 256 times
/// as many numbers.
pub proof fn number_is_written_as_far_as_it_fits(value: nat, width: nat)
    ensures
        be_limit(0) == 1,
        be_limit(width + 1) == 256 * be_limit(width),
        be_bytes(value, width).len() == width,
        be_limit(width) > 0,
        be_value(be_bytes(value, width)) == value % be_limit(width),
    decreases width,
{
    if width > 0 {
        let less = (width - 1) as nat;
        number_is_written_as_far_as_it_fits(value / 256, less);
        let bytes = be_bytes(value, width);
        assert(bytes.drop_last() =~= be_bytes(value / 256, less));
        let limit = be_limit(less) as int;
        let high = (value / 256) as int;
        let rest = (high % limit) * 256 + value % 256;
        let times = high / limit;
        assert(value == times * (256 * limit) + rest) by (nonlinear_arith)
            requires
                limit > 0,
                high == value / 256,
                times == high / limit,
                rest == (high % limit) * 256 + value % 256,
        ;
        assert(0 <= high % limit <= limit - 1);
        lemma_fundamental_div_mod_converse(value as int, 256 * limit, times, rest);
    } else {
        assert(be_bytes(value, width) =~= Seq::empty());
    }
}

/// A number that was written into the middle of some bytes can be read there.
proof fn lemma_number_within(front: Seq<u8>, value: nat, width: nat, back: Seq<u8>)
    requires
        value < be_limit(width),
    ensures
        be_bytes(value, width).len() == width,
        (front + be_bytes(value, width) + back).len() == front.len() + width + back.len(),
        be_value(
            (front + be_bytes(value, width) + back).subrange(
                front.len() as int,
                (front.len() + width) as int,
            ),
        ) == value,
{
    lemma_be_bytes_len(value, width);
    lemma_value_of_bytes(value, width);
    assert((front + be_bytes(value, width) + back).subrange(
        front.len() as int,
        (front.len() + width) as int,
    ) =~= be_bytes(value, width));
}

/// What two bytes within others stand for.
proof fn lemma_two_bytes(bytes: Seq<u8>, at: int)
    requires
        0 <= at,
        at + 2 <= bytes.len(),
    ensures
        be_value(bytes.subrange(at, at + 2)) == bytes[at] * 0x100 + bytes[at + 1],
{
    short_numbers(bytes[at], bytes[at + 1], 0, 0);
    assert(bytes.subrange(at, at + 2) =~= seq![bytes[at], bytes[at + 1]]);
}

/// What four bytes within others stand for.
proof fn lemma_four_bytes(bytes: Seq<u8>, at: int)
    requires
        0 <= at,
        at + 4 <= bytes.len(),
    ensures
        be_value(bytes.subrange(at, at + 4)) == bytes[at] * 0x100_0000 + bytes[at + 1] * 0x1_0000
            + bytes[at + 2] * 0x100 + bytes[at + 3],
{
    short_numbers(bytes[at], bytes[at + 1], bytes[at + 2], bytes[at + 3]);
    assert(bytes.subrange(at, at + 4) =~= seq![
        bytes[at],
        bytes[at + 1],
        bytes[at + 2],
        bytes[at + 3],
    ]);
}

//------------ Headers -------------------------------------------------------

/// A header has eight bytes: the version, the type, two for the session and
/// four for the length.
pub proof fn header_fields_are_in_its_bytes(header: Header)
    ensures
        ({
            let bytes = header.bytes();
            &&& bytes.len() == 8
            &&& bytes[0] == header.version
            &&& bytes[1] == header.pdu
            &&& bytes[2] * 0x100 + bytes[3] == header.session
            &&& bytes[4] * 0x100_0000 + bytes[5] * 0x1_0000 + bytes[6] * 0x100 + bytes[7]
                == header.length
        }),
{
    let bytes = header.bytes();
    let start = seq![header.version, header.pdu];
    let session = be_bytes(header.session as nat, 2);
    let length = be_bytes(header.length as nat, 4);
    lemma_be_limits();
    lemma_number_within(start, header.session as nat, 2, length);
    lemma_number_within(start + session, header.length as nat, 4, Seq::empty());
    assert(start + session + length + Seq::<u8>::empty() =~= bytes);
    lemma_two_bytes(bytes, 2);
    lemma_four_bytes(bytes, 4);
}

/// A PDU that starts with a header has the fields of the header in its first
/// eight bytes.
proof fn lemma_starts_with_header(header: Header, rest: Seq<u8>)
    ensures
        ({
            let bytes = header.bytes() + rest;
            &&& bytes.len() == 8 + rest.len()
            &&& bytes[0] == header.version
            &&& bytes[1] == header.pdu
            &&& bytes[2] * 0x100 + bytes[3] == header.session
            &&& bytes[4] * 0x100_0000 + bytes[5] * 0x1_0000 + bytes[6] * 0x100 + bytes[7]
                == header.length
            &&& bytes.skip(8) == rest
        }),
{
    header_fields_are_in_its_bytes(header);
    let bytes = header.bytes() + rest;
    assert(bytes.skip(8) =~= rest);
    assert(forall|i: int| 0 <= i < 8 ==> bytes[i] == header.bytes()[i]);
}

//------------ Headers that stand for themselves ------------------------------

/// What is wrong with a header: first that its type is not the one that is
/// due, then that its length is not.
pub proof fn header_fault_is_its_type_or_length<E>(header: Header, pdu: u8, length: u32)
    ensures
        header.fault::<E>(pdu, length) is None <==> header.pdu == pdu && header.length == length,
        header.fault::<E>(pdu, length) matches Some(failure) ==> failure == if header.pdu != pdu {
            Failure::<E>::UnexpectedPdu(header.pdu)
        } else {
            Failure::InvalidLength(header.length)
        },
{
}

/// A cache response, a cache reset and a serial notify carry over the fields of
/// the header that they were read from.
pub proof fn replies_carry_over_their_header(header: Header)
    ensures
        CacheResponse::of(header).version == header.version,
        CacheResponse::of(header).session == header.session,
        CacheReset::of(header).version == header.version,
        SerialNotify::of(header).version == header.version,
{
}

/// The first reply to a serial query is a cache response, type 3, or a cache
/// reset, type 8. It has eight bytes, and its fields are those of its header.
/// An error report, type 10, is an error of the server with the code that the
/// header gives. Anything else is wrong because of its type or its length.
pub proof fn first_reply_is_read_from_its_header<E>(header: Header)
    ensures
        match FirstReply::reading::<E>(header) {
            Ok(FirstReply::Response(response)) => {
                &&& header.pdu == 3
                &&& header.length == 8
                &&& response.version == header.version
                &&& response.session == header.session
            },
            Ok(FirstReply::Reset(refusal)) => {
                &&& header.pdu == 8
                &&& header.length == 8
                &&& refusal.version == header.version
            },
            Err(Failure::ServerError(code)) => header.pdu == 10 && code == header.session,
            Err(Failure::UnexpectedPdu(pdu)) => {
                &&& pdu == header.pdu
                &&& pdu != 3
                &&& pdu != 8
                &&& pdu != 10
            },
            Err(Failure::InvalidLength(length)) => {
                &&& length == header.length
                &&& length != 8
                &&& header.pdu == 3 || header.pdu == 8
            },
            Err(_) => false,
        },
{
}

//------------ VRPs ----------------------------------------------------------

/// The version that a PDU with a VRP was sent in, like all of its header, is
/// what its first bytes say.
pub proof fn payload_starts_with_its_header(pdu: Payload)
    ensures
        ({
            let bytes = pdu.bytes();
            let header = pdu.header();
            &&& bytes[0] == header.version
            &&& bytes[1] == header.pdu
            &&& bytes[2] * 0x100 + bytes[3] == header.session
            &&& bytes[4] * 0x100_0000 + bytes[5] * 0x1_0000 + bytes[6] * 0x100 + bytes[7]
                == header.length
            &&& match pdu {
                Payload::V4(prefix) => header == prefix.header && bytes.len() == 20,
                Payload::V6(prefix) => header == prefix.header && bytes.len() == 32,
            }
        }),
{
    lemma_payload_size(pdu);
    let bytes = pdu.bytes();
    let rest = bytes.skip(8);
    header_fields_are_in_its_bytes(pdu.header());
    assert(bytes =~= pdu.header().bytes() + rest);
    lemma_starts_with_header(pdu.header(), rest);
}

/// What follows the header of an IPv4 prefix: the flags, the length of the
/// prefix, the length of the longest prefix, a byte that does not matter, the
/// address and the number of the autonomous system.
pub proof fn ipv4_fields_are_in_the_bytes(pdu: Payload)
    requires
        pdu is V4,
    ensures
        ({
            let bytes = pdu.bytes();
            let prefix = pdu->V4_0;
            &&& bytes.len() == 20
            &&& bytes[8] == prefix.flags
            &&& bytes[9] == prefix.prefix_len
            &&& bytes[10] == prefix.max_len
            &&& bytes[11] == prefix.zero
            &&& be_value(bytes.subrange(12, 16)) == prefix.prefix
            &&& be_value(bytes.subrange(16, 20)) == prefix.asn
        }),
{
    let bytes = pdu.bytes();
    let prefix = pdu->V4_0;
    header_fields_are_in_its_bytes(prefix.header);
    lemma_be_limits();
    let start = prefix.header.bytes() + seq![
        prefix.flags,
        prefix.prefix_len,
        prefix.max_len,
        prefix.zero,
    ];
    let address = be_bytes(prefix.prefix as nat, 4);
    let asn = be_bytes(prefix.asn as nat, 4);
    assert(start.len() == 12);
    lemma_number_within(start, prefix.prefix as nat, 4, asn);
    lemma_number_within(start + address, prefix.asn as nat, 4, Seq::empty());
    assert(start + address + asn =~= bytes);
    assert(start + address + asn + Seq::<u8>::empty() =~= bytes);
    assert(forall|i: int| 8 <= i < 12 ==> bytes[i] == start[i]);
}

/// What follows the header of an IPv6 prefix: the same as for an IPv4 prefix,
/// but for the address, which takes 16 bytes.
pub proof fn ipv6_fields_are_in_the_bytes(pdu: Payload)
    requires
        pdu is V6,
    ensures
        ({
            let bytes = pdu.bytes();
            let prefix = pdu->V6_0;
            &&& bytes.len() == 32
            &&& bytes[8] == prefix.flags
            &&& bytes[9] == prefix.prefix_len
            &&& bytes[10] == prefix.max_len
            &&& bytes[11] == prefix.zero
            &&& be_value(bytes.subrange(12, 28)) == prefix.prefix
            &&& be_value(bytes.subrange(28, 32)) == prefix.asn
        }),
{
    let bytes = pdu.bytes();
    let prefix = pdu->V6_0;
    header_fields_are_in_its_bytes(prefix.header);
    lemma_be_limits();
    let start = prefix.header.bytes() + seq![
        prefix.flags,
        prefix.prefix_len,
        prefix.max_len,
        prefix.zero,
    ];
    let address = be_bytes(prefix.prefix as nat, 16);
    let asn = be_bytes(prefix.asn as nat, 4);
    assert(start.len() == 12);
    lemma_number_within(start, prefix.prefix as nat, 16, asn);
    lemma_number_within(start + address, prefix.asn as nat, 4, Seq::empty());
    assert(start + address + asn =~= bytes);
    assert(start + address + asn + Seq::<u8>::empty() =~= bytes);
    assert(forall|i: int| 8 <= i < 12 ==> bytes[i] == start[i]);
}

/// What a PDU with a VRP says is what its bytes say, whatever the address
/// family. The VRP is announced if the lowest bit of the flags is set, or else
/// withdrawn, and the lengths, the address and the number of the autonomous
/// system are where they belong.
pub proof fn payload_says_what_its_bytes_say(pdu: Payload)
    ensures
        ({
            let bytes = pdu.bytes();
            let (action, vrp) = pdu.content();
            &&& action == if bytes[8] % 2 == 1 {
                Action::Announce
            } else {
                Action::Withdraw
            }
            &&& match vrp {
                payload::Payload::V4(prefix) => {
                    &&& pdu is V4
                    &&& bytes.len() == 20
                    &&& prefix.prefix_len == bytes[9]
                    &&& prefix.max_len == bytes[10]
                    &&& prefix.prefix == be_value(bytes.subrange(12, 16))
                    &&& prefix.asn == be_value(bytes.subrange(16, 20))
                },
                payload::Payload::V6(prefix) => {
                    &&& pdu is V6
                    &&& bytes.len() == 32
                    &&& prefix.prefix_len == bytes[9]
                    &&& prefix.max_len == bytes[10]
                    &&& prefix.prefix == be_value(bytes.subrange(12, 28))
                    &&& prefix.asn == be_value(bytes.subrange(28, 32))
                },
            }
        }),
{
    if pdu is V4 {
        ipv4_fields_are_in_the_bytes(pdu);
    } else {
        ipv6_fields_are_in_the_bytes(pdu);
    }
}

//------------ The end of the data -------------------------------------------

/// An end of data has type 7 and gives the session in its header and the serial
/// after it. If it has 24 bytes, the refresh, the retry and the expire time
/// follow, in that order. If it has 12, there is no timing.
pub proof fn end_says_what_its_bytes_say(end: EndOfData)
    ensures
        ({
            let bytes = end.bytes();
            &&& bytes[0] == end.version
            &&& bytes[1] == 7
            &&& bytes[2] * 0x100 + bytes[3] == end.state.session
            &&& bytes[4] * 0x100_0000 + bytes[5] * 0x1_0000 + bytes[6] * 0x100 + bytes[7]
                == bytes.len()
            &&& be_value(bytes.subrange(8, 12)) == end.state.serial
            &&& match end.timing {
                None => bytes.len() == 12,
                Some(timing) => {
                    &&& bytes.len() == 24
                    &&& be_value(bytes.subrange(12, 16)) == timing.refresh
                    &&& be_value(bytes.subrange(16, 20)) == timing.retry
                    &&& be_value(bytes.subrange(20, 24)) == timing.expire
                },
            }
        }),
{
    let bytes = end.bytes();
    let header = Header {
        version: end.version,
        pdu: 7,
        session: end.state.session,
        length: if end.timing is None {
            12
        } else {
            24
        },
    };
    lemma_be_limits();
    header_fields_are_in_its_bytes(header);
    let rest = bytes.skip(8);
    assert(bytes =~= header.bytes() + rest);
    lemma_starts_with_header(header, rest);
    let serial = be_bytes(end.state.serial as nat, 4);
    match end.timing {
        None => {
            lemma_number_within(header.bytes(), end.state.serial as nat, 4, Seq::empty());
        },
        Some(timing) => {
            let refresh = be_bytes(timing.refresh as nat, 4);
            let retry = be_bytes(timing.retry as nat, 4);
            let expire = be_bytes(timing.expire as nat, 4);
            let start = header.bytes() + serial;
            lemma_be_bytes_len(end.state.serial as nat, 4);
            lemma_be_bytes_len(timing.refresh as nat, 4);
            lemma_be_bytes_len(timing.retry as nat, 4);
            lemma_number_within(
                header.bytes(),
                end.state.serial as nat,
                4,
                refresh + retry + expire,
            );
            lemma_number_within(start, timing.refresh as nat, 4, retry + expire);
            lemma_number_within(start + refresh, timing.retry as nat, 4, expire);
            lemma_number_within(
                start + refresh + retry,
                timing.expire as nat,
                4,
                Seq::empty(),
            );
            assert(start + (refresh + retry + expire) =~= bytes);
            assert(start + refresh + (retry + expire) =~= bytes);
            assert(start + refresh + retry + expire =~= bytes);
            assert(start + refresh + retry + expire + Seq::<u8>::empty() =~= bytes);
        },
    }
}

//------------ What the client sends -----------------------------------------

/// A serial query has type 1 and twelve bytes, and names the session and the
/// serial of the state.
pub proof fn serial_query_names_its_state(message: Message)
    requires
        message is SerialQuery,
    ensures
        ({
            let bytes = message.bytes();
            let state = message->state;
            &&& bytes.len() == 12
            &&& bytes[0] == message->SerialQuery_version
            &&& bytes[0] == message.version_of()
            &&& bytes[1] == 1
            &&& bytes[2] * 0x100 + bytes[3] == state.session
            &&& bytes.subrange(4, 8) == seq![0u8, 0u8, 0u8, 12u8]
            &&& be_value(bytes.subrange(8, 12)) == state.serial
        }),
{
    let bytes = message.bytes();
    let state = message->state;
    let header = Header {
        version: message->SerialQuery_version,
        pdu: 1,
        session: state.session,
        length: 12,
    };
    lemma_be_limits();
    lemma_number_within(header.bytes(), state.serial as nat, 4, Seq::empty());
    lemma_starts_with_header(header, be_bytes(state.serial as nat, 4));
    assert(header.bytes() + be_bytes(state.serial as nat, 4) + Seq::<u8>::empty() =~= bytes);
    assert(bytes.subrange(4, 8) =~= seq![0u8, 0u8, 0u8, 12u8]);
}

/// A reset query has type 2 and eight bytes, and says nothing but its version.
pub proof fn reset_query_is_a_header(message: Message)
    requires
        message is ResetQuery,
    ensures
        message.bytes() == seq![
            message->ResetQuery_version,
            2u8,
            0u8,
            0u8,
            0u8,
            0u8,
            0u8,
            8u8,
        ],
        message.version_of() == message->ResetQuery_version,
{
    let header = Header {
        version: message->ResetQuery_version,
        pdu: 2,
        session: 0,
        length: 8,
    };
    header_fields_are_in_its_bytes(header);
    assert(message.bytes() =~= seq![
        message->ResetQuery_version,
        2u8,
        0u8,
        0u8,
        0u8,
        0u8,
        0u8,
        8u8,
    ]);
}

/// An error report has type 10 and gives its code in the header. After that
/// come the number of bytes of the PDU that caused the error, these bytes, and
/// the number of bytes of a text, which is zero.
pub proof fn error_report_holds_its_parts(message: Message)
    requires
        message is Error,
    ensures
        ({
            let bytes = message.bytes();
            let report = message->Error_0;
            let cause = match report.pdu {
                None => Seq::<u8>::empty(),
                Some(pdu) => pdu.bytes(),
            };
            let size = cause.len() as int;
            &&& bytes.len() == 16 + size
            &&& bytes[0] == report.version
            &&& bytes[0] == message.version_of()
            &&& bytes[1] == 10
            &&& bytes[2] * 0x100 + bytes[3] == report.code
            &&& bytes.subrange(4, 8) == seq![0u8, 0u8, 0u8, (16 + size) as u8]
            &&& bytes.subrange(8, 12) == seq![0u8, 0u8, 0u8, size as u8]
            &&& bytes.subrange(12, 12 + size) == cause
            &&& bytes.subrange(12 + size, 16 + size) == seq![0u8, 0u8, 0u8, 0u8]
            &&& size <= 32
        }),
{
    let bytes = message.bytes();
    let report = message->Error_0;
    let cause = report.cause();
    let size = cause.len() as int;
    if let Some(pdu) = report.pdu {
        lemma_payload_size(pdu);
    }
    lemma_be_limits();
    let header = Header {
        version: report.version,
        pdu: 10,
        session: report.code,
        length: (16 + size) as u32,
    };
    let count = be_bytes(cause.len(), 4);
    let text = be_bytes(0, 4);
    lemma_be_bytes_len(0, 4);
    lemma_starts_with_header(header, count + cause + text);
    lemma_number_within(header.bytes(), cause.len(), 4, cause + text);
    lemma_number_within(header.bytes() + count + cause, 0, 4, Seq::empty());
    assert(header.bytes() + (count + cause + text) =~= bytes);
    assert(header.bytes() + count + (cause + text) =~= bytes);
    assert(header.bytes() + count + cause + text =~= bytes);
    assert(header.bytes() + count + cause + text + Seq::<u8>::empty() =~= bytes);
    lemma_four_bytes(bytes, 8);
    lemma_four_bytes(bytes, 12 + size);
    assert(bytes.subrange(4, 8) =~= seq![0u8, 0u8, 0u8, (16 + size) as u8]);
    assert(bytes.subrange(8, 12) =~= seq![0u8, 0u8, 0u8, size as u8]);
    assert(bytes.subrange(12, 12 + size) =~= cause);
    assert(bytes.subrange(12 + size, 16 + size) =~= seq![0u8, 0u8, 0u8, 0u8]);
}

//------------ What the client receives --------------------------------------

/// What follows a cache response is read if it is a whole IPv4 prefix, type 4
/// and 20 bytes, a whole IPv6 prefix, type 6 and 32 bytes, or a whole end of
/// data, type 7 and 12 bytes in version 0 or 24 in version 1. It is skipped if
/// it is a router key, type 9. Either way the length tells how much there is
/// after the header.
pub proof fn body_is_what_the_header_announces(header: Header)
    ensures
        match Received::body_of(header) {
            Some(Body::Read(count)) => {
                &&& count + 8 == header.length
                &&& match header.pdu {
                    4 => header.length == 20,
                    6 => header.length == 32,
                    7 => header.version == 0 && header.length == 12 || header.version == 1
                        && header.length == 24,
                    _ => false,
                }
            },
            Some(Body::Skip(count)) => count + 8 == header.length && header.pdu == 9,
            None => match header.pdu {
                4 => header.length != 20,
                6 => header.length != 32,
                7 => match header.version {
                    0 => header.length != 12,
                    1 => header.length != 24,
                    _ => true,
                },
                9 => header.length < 8,
                _ => true,
            },
        },
{
}

/// What has no place after a cache response is refused with what is wrong with
/// it: the error that the server reports, type 10, an end of data in an unknown
/// version, a length that does not fit the type, or else the type.
pub proof fn refused_header_has_its_fault<E>(header: Header)
    requires
        Received::body_of(header) is None,
    ensures
        Received::fault_of::<E>(header) == match header.pdu {
            10 => Failure::<E>::ServerError(header.session),
            7 => if header.version == 0 || header.version == 1 {
                Failure::InvalidLength(header.length)
            } else {
                Failure::UnknownVersion(header.version)
            },
            4 => Failure::InvalidLength(header.length),
            6 => Failure::InvalidLength(header.length),
            9 => Failure::InvalidLength(header.length),
            _ => Failure::UnexpectedPdu(header.pdu),
        },
{
}

/// What was decoded is what its header and its body say. The type of the
/// header tells what it is, and the fields are taken from the header and from
/// the bytes of the body one after the other.
pub proof fn decoded_pdu_says_what_was_read(header: Header, body: Seq<u8>, received: Received)
    requires
        Received::body_of(header) matches Some(Body::Read(count)) && count == body.len(),
        received.bytes() == header.bytes() + body,
        header.pdu == 4 <==> (received matches Received::Vrp(Payload::V4(pdu)) && pdu.header
            == header),
        header.pdu == 6 <==> (received matches Received::Vrp(Payload::V6(pdu)) && pdu.header
            == header),
        header.pdu == 7 <==> received is End,
    ensures
        match received {
            Received::Vrp(Payload::V4(pdu)) => {
                &&& header.pdu == 4
                &&& pdu.header == header
                &&& pdu.flags == body[0]
                &&& pdu.prefix_len == body[1]
                &&& pdu.max_len == body[2]
                &&& pdu.zero == body[3]
                &&& pdu.prefix == be_value(body.subrange(4, 8))
                &&& pdu.asn == be_value(body.subrange(8, 12))
            },
            Received::Vrp(Payload::V6(pdu)) => {
                &&& header.pdu == 6
                &&& pdu.header == header
                &&& pdu.flags == body[0]
                &&& pdu.prefix_len == body[1]
                &&& pdu.max_len == body[2]
                &&& pdu.zero == body[3]
                &&& pdu.prefix == be_value(body.subrange(4, 20))
                &&& pdu.asn == be_value(body.subrange(20, 24))
            },
            Received::Unsupported { .. } => false,
            Received::End(end) => {
                &&& header.pdu == 7
                &&& end.version == header.version
                &&& end.state.session == header.session
                &&& end.state.serial == be_value(body.subrange(0, 4))
                &&& match end.timing {
                    None => header.version == 0,
                    Some(timing) => {
                        &&& header.version == 1
                        &&& timing.refresh == be_value(body.subrange(4, 8))
                        &&& timing.retry == be_value(body.subrange(8, 12))
                        &&& timing.expire == be_value(body.subrange(12, 16))
                    },
                }
            },
        },
{
    let bytes = header.bytes() + body;
    body_is_what_the_header_announces(header);
    lemma_starts_with_header(header, body);
    assert forall|from: int, to: int| 0 <= from <= to <= body.len() implies #[trigger]
        body.subrange(from, to) == bytes.subrange(from + 8, to + 8) by {
        assert(body.subrange(from, to) =~= bytes.subrange(from + 8, to + 8));
    }
    assert(forall|i: int| 0 <= i < body.len() ==> #[trigger] body[i] == bytes[i + 8]);
    match received {
        Received::Vrp(pdu) => {
            if pdu is V4 {
                ipv4_fields_are_in_the_bytes(pdu);
            } else {
                ipv6_fields_are_in_the_bytes(pdu);
            }
        },
        Received::Unsupported { .. } => {},
        Received::End(end) => {
            end_says_what_its_bytes_say(end);
        },
    }
}

//------------ Types ---------------------------------------------------------

/// Every type of PDU has its own number.
pub proof fn types_have_their_numbers()
    ensures
        SERIAL_NOTIFY == 0,
        SERIAL_QUERY == 1,
        RESET_QUERY == 2,
        CACHE_RESPONSE == 3,
        IPV4_PREFIX == 4,
        IPV6_PREFIX == 6,
        END_OF_DATA == 7,
        CACHE_RESET == 8,
        ROUTER_KEY == 9,
        ERROR == 10,
{
}

} // verus!
