//! Protocol data units, PDUs for short, and their form on the wire.
//!
//! Every PDU starts with a header of eight bytes. It gives the version of the
//! protocol, the type of the PDU, a field of sixteen bits whose meaning
//! depends on the type, and the length of the whole PDU. The versions 0 and 1
//! differ only in the end of data, which has no timing in version 0.
use crate::failure::Failure;
use crate::payload::{self, Action, Timing};
use crate::pdu_laws::{payload_says_what_its_bytes_say, payload_starts_with_its_header};
use crate::state::State;
use crate::wire::{
    be_bytes, be_value, get_be, lemma_be_bytes_len, lemma_be_limits, lemma_bytes_of_value, put_be,
};
use vstd::prelude::*;

verus! {

/// The type of a serial notify PDU.
pub const SERIAL_NOTIFY: u8 = 0;

/// The type of a serial query PDU.
pub const SERIAL_QUERY: u8 = 1;

/// The type of a reset query PDU.
pub const RESET_QUERY: u8 = 2;

/// The type of a cache response PDU.
pub const CACHE_RESPONSE: u8 = 3;

/// The type of an IPv4 prefix PDU.
pub const IPV4_PREFIX: u8 = 4;

/// The type of an IPv6 prefix PDU.
pub const IPV6_PREFIX: u8 = 6;

/// The type of an end of data PDU.
pub const END_OF_DATA: u8 = 7;

/// The type of a cache reset PDU.
pub const CACHE_RESET: u8 = 8;

/// The type of a router key PDU.
pub const ROUTER_KEY: u8 = 9;

/// The type of an error report PDU.
pub const ERROR: u8 = 10;

//------------ Header --------------------------------------------------------

/// The header of a PDU.
#[derive(Clone, Copy, Debug, PartialEq, Eq)]
pub struct Header {
    /// The version of the protocol.
    pub version: u8,

    /// The type of the PDU.
    pub pdu: u8,

    /// The session, an error code or nothing, depending on the type.
    pub session: u16,

    /// The length of the PDU, including the header.
    pub length: u32,
}

impl Header {
    /// The form of the header on the wire.
    pub open spec fn bytes(self) -> Seq<u8> {
        seq![self.version, self.pdu] + be_bytes(self.session as nat, 2)
            + be_bytes(self.length as nat, 4)
    }

    /// Decodes a header.
    pub fn decode(bytes: &[u8]) -> (header: Header)
        requires
            bytes@.len() == 8,
        ensures
            header.bytes() == bytes@,
            header.version == bytes@[0],
            header.pdu == bytes@[1],
            header.session == be_value(bytes@.subrange(2, 4)),
            header.length == be_value(bytes@.subrange(4, 8)),
    {
        proof {
            lemma_be_limits();
            lemma_bytes_of_value(bytes@.subrange(2, 4));
            lemma_bytes_of_value(bytes@.subrange(4, 8));
        }
        let header = Header {
            version: bytes[0],
            pdu: bytes[1],
            session: get_be(bytes, 2, 4) as u16,
            length: get_be(bytes, 4, 8) as u32,
        };
        assert(header.bytes() =~= bytes@);
        header
    }

    /// Appends the header to some bytes.
    fn encode(self, out: &mut Vec<u8>)
        ensures
            final(out)@ == old(out)@ + self.bytes(),
    {
        out.push(self.version);
        out.push(self.pdu);
        put_be(out, self.session as u128, 2);
        put_be(out, self.length as u128, 4);
        assert(out@ =~= old(out)@ + self.bytes());
    }

    /// What is wrong with a header where one of a given type and length is
    /// due.
    pub open spec fn fault<E>(self, pdu: u8, length: u32) -> Option<Failure<E>> {
        if self.pdu != pdu {
            Some(Failure::UnexpectedPdu(self.pdu))
        } else if self.length != length {
            Some(Failure::InvalidLength(self.length))
        } else {
            None
        }
    }

    /// Checks that the header is that of a PDU of a given type and length.
    pub fn expect<E>(self, pdu: u8, length: u32) -> (result: Result<(), Failure<E>>)
        ensures
            result == match self.fault::<E>(pdu, length) {
                None => Ok(()),
                Some(failure) => Err(failure),
            },
            result is Ok <==> self.pdu == pdu && self.length == length,
    {
        if self.pdu != pdu {
            Err(Failure::UnexpectedPdu(self.pdu))
        } else if self.length != length {
            Err(Failure::InvalidLength(self.length))
        } else {
            Ok(())
        }
    }
}

//------------ CacheResponse and CacheReset ----------------------------------

/// The server has data and will send it next.
#[derive(Clone, Copy, Debug, PartialEq, Eq)]
pub struct CacheResponse {
    /// The version of the protocol.
    pub version: u8,

    /// The session that the data belongs to.
    pub session: u16,
}

impl CacheResponse {
    /// The response that a header stands for, which is all there is to it.
    pub open spec fn of(header: Header) -> CacheResponse {
        CacheResponse { version: header.version, session: header.session }
    }

    /// Reads a cache response, which consists of a header only.
    pub fn read<E>(header: Header) -> (result: Result<CacheResponse, Failure<E>>)
        ensures
            result == match header.fault::<E>(CACHE_RESPONSE, 8) {
                None => Ok(CacheResponse::of(header)),
                Some(failure) => Err(failure),
            },
            result is Ok <==> header.pdu == 3 && header.length == 8,
            result matches Ok(response) ==> response.version == header.version && response.session
                == header.session,
    {
        match header.expect(CACHE_RESPONSE, 8) {
            Ok(()) => Ok(CacheResponse { version: header.version, session: header.session }),
            Err(failure) => Err(failure),
        }
    }
}

/// The server cannot update the data set that the client holds.
#[derive(Clone, Copy, Debug, PartialEq, Eq)]
pub struct CacheReset {
    /// The version of the protocol.
    pub version: u8,
}

impl CacheReset {
    /// The cache reset that a header stands for, which is all there is to it.
    pub open spec fn of(header: Header) -> CacheReset {
        CacheReset { version: header.version }
    }

    /// Reads a cache reset, which consists of a header only.
    pub fn read<E>(header: Header) -> (result: Result<CacheReset, Failure<E>>)
        ensures
            result == match header.fault::<E>(CACHE_RESET, 8) {
                None => Ok(CacheReset::of(header)),
                Some(failure) => Err(failure),
            },
            result is Ok <==> header.pdu == 8 && header.length == 8,
            result matches Ok(reset) ==> reset.version == header.version,
    {
        match header.expect(CACHE_RESET, 8) {
            Ok(()) => Ok(CacheReset { version: header.version }),
            Err(failure) => Err(failure),
        }
    }
}

//------------ SerialNotify --------------------------------------------------

/// The server has new data.
#[derive(Clone, Copy, Debug, PartialEq, Eq)]
pub struct SerialNotify {
    /// The version of the protocol.
    pub version: u8,
}

impl SerialNotify {
    /// The serial notify that starts with a header, as far as it matters.
    pub open spec fn of(header: Header) -> SerialNotify {
        SerialNotify { version: header.version }
    }

    /// Returns the serial notify that starts with a header.
    pub fn new(header: Header) -> (notify: SerialNotify)
        ensures
            notify == SerialNotify::of(header),
            notify.version == header.version,
    {
        SerialNotify { version: header.version }
    }

    /// Returns how many bytes follow the header of a serial notify.
    ///
    /// They hold the serial of the new data, which the client does not need:
    /// it will ask for whatever there is.
    pub fn body<E>(header: Header) -> (result: Result<usize, Failure<E>>)
        ensures
            result == match header.fault::<E>(SERIAL_NOTIFY, 12) {
                None => Ok(4usize),
                Some(failure) => Err(failure),
            },
            result is Ok <==> header.pdu == 0 && header.length == 12,
    {
        match header.expect(SERIAL_NOTIFY, 12) {
            Ok(()) => Ok(4),
            Err(failure) => Err(failure),
        }
    }
}

//------------ Payload -------------------------------------------------------

/// The origin of an IPv4 prefix is announced or withdrawn.
#[derive(Clone, Copy, Debug, PartialEq, Eq)]
pub struct Ipv4Prefix {
    pub header: Header,
    pub flags: u8,
    pub prefix_len: u8,
    pub max_len: u8,
    pub zero: u8,
    pub prefix: u32,
    pub asn: u32,
}

/// The origin of an IPv6 prefix is announced or withdrawn.
#[derive(Clone, Copy, Debug, PartialEq, Eq)]
pub struct Ipv6Prefix {
    pub header: Header,
    pub flags: u8,
    pub prefix_len: u8,
    pub max_len: u8,
    pub zero: u8,
    pub prefix: u128,
    pub asn: u32,
}

/// A PDU with a single VRP.
#[derive(Clone, Copy, Debug, PartialEq, Eq)]
pub enum Payload {
    V4(Ipv4Prefix),
    V6(Ipv6Prefix),
}

/// The action that the flags of a PDU ask for, given by their lowest bit.
pub open spec fn action_of(flags: u8) -> Action {
    if flags % 2 == 1 {
        Action::Announce
    } else {
        Action::Withdraw
    }
}

impl Payload {
    /// The form of the PDU on the wire.
    pub open spec fn bytes(self) -> Seq<u8> {
        match self {
            Payload::V4(pdu) => pdu.header.bytes()
                + seq![pdu.flags, pdu.prefix_len, pdu.max_len, pdu.zero]
                + be_bytes(pdu.prefix as nat, 4)
                + be_bytes(pdu.asn as nat, 4),
            Payload::V6(pdu) => pdu.header.bytes()
                + seq![pdu.flags, pdu.prefix_len, pdu.max_len, pdu.zero]
                + be_bytes(pdu.prefix as nat, 16)
                + be_bytes(pdu.asn as nat, 4),
        }
    }

    /// The header of the PDU.
    pub open spec fn header(self) -> Header {
        match self {
            Payload::V4(pdu) => pdu.header,
            Payload::V6(pdu) => pdu.header,
        }
    }

    /// The action and the VRP that the PDU carries.
    pub open spec fn content(self) -> (Action, payload::Payload) {
        match self {
            Payload::V4(pdu) => (
                action_of(pdu.flags),
                payload::Payload::V4(
                    payload::Ipv4Prefix {
                        prefix: pdu.prefix,
                        prefix_len: pdu.prefix_len,
                        max_len: pdu.max_len,
                        asn: pdu.asn,
                    },
                ),
            ),
            Payload::V6(pdu) => (
                action_of(pdu.flags),
                payload::Payload::V6(
                    payload::Ipv6Prefix {
                        prefix: pdu.prefix,
                        prefix_len: pdu.prefix_len,
                        max_len: pdu.max_len,
                        asn: pdu.asn,
                    },
                ),
            ),
        }
    }

    /// Returns the version of the protocol that the PDU was sent in.
    pub fn version(&self) -> (version: u8)
        ensures
            version == self.header().version,
            version == self.bytes()[0],
    {
        proof {
            payload_starts_with_its_header(*self);
        }
        match self {
            Payload::V4(pdu) => pdu.header.version,
            Payload::V6(pdu) => pdu.header.version,
        }
    }

    /// Returns the action and the VRP that the PDU carries.
    pub fn to_payload(&self) -> (content: (Action, payload::Payload))
        ensures
            content == self.content(),
            content.0 is Announce <==> self.bytes()[8] % 2 == 1,
    {
        proof {
            payload_says_what_its_bytes_say(*self);
        }
        match self {
            Payload::V4(pdu) => {
                let action = if pdu.flags % 2 == 1 {
                    Action::Announce
                } else {
                    Action::Withdraw
                };
                let vrp = payload::Ipv4Prefix {
                    prefix: pdu.prefix,
                    prefix_len: pdu.prefix_len,
                    max_len: pdu.max_len,
                    asn: pdu.asn,
                };
                (action, payload::Payload::V4(vrp))
            },
            Payload::V6(pdu) => {
                let action = if pdu.flags % 2 == 1 {
                    Action::Announce
                } else {
                    Action::Withdraw
                };
                let vrp = payload::Ipv6Prefix {
                    prefix: pdu.prefix,
                    prefix_len: pdu.prefix_len,
                    max_len: pdu.max_len,
                    asn: pdu.asn,
                };
                (action, payload::Payload::V6(vrp))
            },
        }
    }

    /// The number of bytes that the PDU has on the wire.
    pub open spec fn size(self) -> u32 {
        match self {
            Payload::V4(_) => 20,
            Payload::V6(_) => 32,
        }
    }

    /// Appends the PDU to some bytes.
    fn encode(self, out: &mut Vec<u8>)
        ensures
            final(out)@ == old(out)@ + self.bytes(),
    {
        match self {
            Payload::V4(pdu) => {
                pdu.header.encode(out);
                out.push(pdu.flags);
                out.push(pdu.prefix_len);
                out.push(pdu.max_len);
                out.push(pdu.zero);
                put_be(out, pdu.prefix as u128, 4);
                put_be(out, pdu.asn as u128, 4);
            },
            Payload::V6(pdu) => {
                pdu.header.encode(out);
                out.push(pdu.flags);
                out.push(pdu.prefix_len);
                out.push(pdu.max_len);
                out.push(pdu.zero);
                put_be(out, pdu.prefix, 16);
                put_be(out, pdu.asn as u128, 4);
            },
        }
        assert(out@ =~= old(out)@ + self.bytes());
    }
}

//------------ EndOfData -----------------------------------------------------

/// The server has sent all its data.
#[derive(Clone, Copy, Debug, PartialEq, Eq)]
pub struct EndOfData {
    /// The version of the protocol.
    pub version: u8,

    /// The data set that the client holds now.
    pub state: State,

    /// The timing parameters, which version 0 does not have.
    pub timing: Option<Timing>,
}

impl EndOfData {
    /// The form of the PDU on the wire.
    pub open spec fn bytes(self) -> Seq<u8> {
        Header {
            version: self.version,
            pdu: END_OF_DATA,
            session: self.state.session,
            length: if self.timing is None {
                12
            } else {
                24
            },
        }.bytes() + be_bytes(self.state.serial as nat, 4) + match self.timing {
            None => Seq::empty(),
            Some(timing) => be_bytes(timing.refresh as nat, 4)
                + be_bytes(timing.retry as nat, 4)
                + be_bytes(timing.expire as nat, 4),
        }
    }
}

//------------ Received ------------------------------------------------------

/// What the server sends after a cache response.
#[derive(Clone, Copy, Debug, PartialEq, Eq)]
pub enum Received {
    /// A VRP.
    Vrp(Payload),

    /// A legal piece of payload that this client has no use for.
    Unsupported {
        /// The version of the protocol.
        version: u8,
    },

    /// The end of the data.
    End(EndOfData),
}

/// What to do about the part of a PDU that follows its header.
#[derive(Clone, Copy, Debug, PartialEq, Eq)]
pub enum Body {
    /// It has this many bytes and they matter.
    Read(usize),

    /// It has this many bytes and they do not matter.
    Skip(u32),
}

impl Received {
    /// What follows the header of a PDU, or `None` if a PDU with that header
    /// has no place here.
    pub open spec fn body_of(header: Header) -> Option<Body> {
        if header.pdu == IPV4_PREFIX && header.length == 20 {
            Some(Body::Read(12))
        } else if header.pdu == IPV6_PREFIX && header.length == 32 {
            Some(Body::Read(24))
        } else if header.pdu == END_OF_DATA && header.version == 0 && header.length == 12 {
            Some(Body::Read(4))
        } else if header.pdu == END_OF_DATA && header.version == 1 && header.length == 24 {
            Some(Body::Read(16))
        } else if header.pdu == ROUTER_KEY && header.length >= 8 {
            Some(Body::Skip((header.length - 8) as u32))
        } else {
            None
        }
    }

    /// What is wrong with a header that has no place here.
    pub open spec fn fault_of<E>(header: Header) -> Failure<E> {
        if header.pdu == ERROR {
            Failure::ServerError(header.session)
        } else if header.pdu == END_OF_DATA && header.version > 1 {
            Failure::UnknownVersion(header.version)
        } else if header.pdu == IPV4_PREFIX || header.pdu == IPV6_PREFIX || header.pdu
            == END_OF_DATA || header.pdu == ROUTER_KEY {
            Failure::InvalidLength(header.length)
        } else {
            Failure::UnexpectedPdu(header.pdu)
        }
    }

    /// Returns what follows the header of a PDU.
    pub fn body<E>(header: Header) -> (result: Result<Body, Failure<E>>)
        ensures
            result == match Received::body_of(header) {
                Some(body) => Ok(body),
                None => Err(Received::fault_of::<E>(header)),
            },
    {
        match header.pdu {
            IPV4_PREFIX => match header.expect(IPV4_PREFIX, 20) {
                Ok(()) => Ok(Body::Read(12)),
                Err(failure) => Err(failure),
            },
            IPV6_PREFIX => match header.expect(IPV6_PREFIX, 32) {
                Ok(()) => Ok(Body::Read(24)),
                Err(failure) => Err(failure),
            },
            END_OF_DATA => {
                if header.version == 0 {
                    match header.expect(END_OF_DATA, 12) {
                        Ok(()) => Ok(Body::Read(4)),
                        Err(failure) => Err(failure),
                    }
                } else if header.version == 1 {
                    match header.expect(END_OF_DATA, 24) {
                        Ok(()) => Ok(Body::Read(16)),
                        Err(failure) => Err(failure),
                    }
                } else {
                    Err(Failure::UnknownVersion(header.version))
                }
            },
            ROUTER_KEY => {
                if header.length >= 8 {
                    Ok(Body::Skip(header.length - 8))
                } else {
                    Err(Failure::InvalidLength(header.length))
                }
            },
            ERROR => Err(Failure::ServerError(header.session)),
            _ => Err(Failure::UnexpectedPdu(header.pdu)),
        }
    }

    /// The form on the wire of what was received, as far as it matters.
    pub open spec fn bytes(self) -> Seq<u8> {
        match self {
            Received::Vrp(pdu) => pdu.bytes(),
            Received::Unsupported { .. } => Seq::empty(),
            Received::End(end) => end.bytes(),
        }
    }

    /// Returns what a PDU is received as whose body does not matter.
    pub fn skipped(header: Header) -> (received: Received)
        requires
            Received::body_of(header) matches Some(Body::Skip(_)),
        ensures
            received == (Received::Unsupported { version: header.version }),
    {
        Received::Unsupported { version: header.version }
    }

    /// Decodes a PDU.
    pub fn decode(header: Header, body: &[u8]) -> (received: Received)
        requires
            Received::body_of(header) matches Some(Body::Read(len)) && len == body@.len(),
        ensures
            received.bytes() == header.bytes() + body@,
            header.pdu == IPV4_PREFIX <==> (received matches Received::Vrp(Payload::V4(pdu))
                && pdu.header == header),
            header.pdu == IPV6_PREFIX <==> (received matches Received::Vrp(Payload::V6(pdu))
                && pdu.header == header),
            header.pdu == END_OF_DATA <==> received is End,
            received matches Received::End(end) ==> end.version == header.version
                && end.state.session == header.session,
    {
        proof {
            lemma_be_limits();
        }
        if header.pdu == IPV4_PREFIX {
            proof {
                lemma_bytes_of_value(body@.subrange(4, 8));
                lemma_bytes_of_value(body@.subrange(8, 12));
            }
            let pdu = Ipv4Prefix {
                header,
                flags: body[0],
                prefix_len: body[1],
                max_len: body[2],
                zero: body[3],
                prefix: get_be(body, 4, 8) as u32,
                asn: get_be(body, 8, 12) as u32,
            };
            let received = Received::Vrp(Payload::V4(pdu));
            assert(received.bytes() =~= header.bytes() + body@);
            received
        } else if header.pdu == IPV6_PREFIX {
            proof {
                lemma_bytes_of_value(body@.subrange(4, 20));
                lemma_bytes_of_value(body@.subrange(20, 24));
            }
            let pdu = Ipv6Prefix {
                header,
                flags: body[0],
                prefix_len: body[1],
                max_len: body[2],
                zero: body[3],
                prefix: get_be(body, 4, 20),
                asn: get_be(body, 20, 24) as u32,
            };
            let received = Received::Vrp(Payload::V6(pdu));
            assert(received.bytes() =~= header.bytes() + body@);
            received
        } else {
            proof {
                lemma_bytes_of_value(body@.subrange(0, 4));
            }
            let serial = get_be(body, 0, 4) as u32;
            let state = State { session: header.session, serial };
            let timing = if header.version == 0 {
                None
            } else {
                proof {
                    lemma_bytes_of_value(body@.subrange(4, 8));
                    lemma_bytes_of_value(body@.subrange(8, 12));
                    lemma_bytes_of_value(body@.subrange(12, 16));
                }
                Some(
                    Timing {
                        refresh: get_be(body, 4, 8) as u32,
                        retry: get_be(body, 8, 12) as u32,
                        expire: get_be(body, 12, 16) as u32,
                    },
                )
            };
            let end = EndOfData { version: header.version, state, timing };
            assert(end.bytes() =~= header.bytes() + body@);
            Received::End(end)
        }
    }
}

//------------ Message -------------------------------------------------------

/// A report of an error to the server.
#[derive(Clone, Copy, Debug, PartialEq, Eq)]
pub struct Error {
    /// The version of the protocol.
    pub version: u8,

    /// What kind of error this is.
    pub code: u16,

    /// The PDU that caused it, if there is one.
    pub pdu: Option<Payload>,
}

/// What the client sends.
#[derive(Clone, Copy, Debug, PartialEq, Eq)]
pub enum Message {
    /// Asks for what has changed since a known data set.
    SerialQuery {
        /// The version of the protocol.
        version: u8,

        /// The data set that the client holds.
        state: State,
    },

    /// Asks for everything.
    ResetQuery {
        /// The version of the protocol.
        version: u8,
    },

    /// Complains about what the server has sent.
    Error(Error),
}

impl Error {
    /// The bytes of the PDU that caused the error.
    pub open spec fn cause(self) -> Seq<u8> {
        match self.pdu {
            None => Seq::empty(),
            Some(pdu) => pdu.bytes(),
        }
    }
}

impl Message {
    /// The version of the protocol that the message is sent in.
    pub open spec fn version_of(self) -> u8 {
        match self {
            Message::SerialQuery { version, .. } => version,
            Message::ResetQuery { version } => version,
            Message::Error(report) => report.version,
        }
    }

    /// The form of the message on the wire.
    ///
    /// An error report holds, each after its length, the PDU that caused it
    /// and a text, which this client leaves empty.
    pub open spec fn bytes(self) -> Seq<u8> {
        match self {
            Message::SerialQuery { version, state } => Header {
                version,
                pdu: SERIAL_QUERY,
                session: state.session,
                length: 12,
            }.bytes() + be_bytes(state.serial as nat, 4),
            Message::ResetQuery { version } => Header {
                version,
                pdu: RESET_QUERY,
                session: 0,
                length: 8,
            }.bytes(),
            Message::Error(report) => Header {
                version: report.version,
                pdu: ERROR,
                session: report.code,
                length: (16 + report.cause().len()) as u32,
            }.bytes() + be_bytes(report.cause().len(), 4) + report.cause()
                + be_bytes(0, 4),
        }
    }

    /// Returns the form of the message on the wire.
    pub fn encode(self) -> (bytes: Vec<u8>)
        ensures
            bytes@ == self.bytes(),
            bytes@[0] == match self {
                Message::SerialQuery { version, .. } => version,
                Message::ResetQuery { version } => version,
                Message::Error(report) => report.version,
            },
    {
        let mut out: Vec<u8> = Vec::new();
        match self {
            Message::SerialQuery { version, state } => {
                let header = Header {
                    version,
                    pdu: SERIAL_QUERY,
                    session: state.session,
                    length: 12,
                };
                header.encode(&mut out);
                put_be(&mut out, state.serial as u128, 4);
            },
            Message::ResetQuery { version } => {
                let header = Header { version, pdu: RESET_QUERY, session: 0, length: 8 };
                header.encode(&mut out);
            },
            Message::Error(report) => {
                let size: u32 = match report.pdu {
                    None => 0,
                    Some(Payload::V4(_)) => 20,
                    Some(Payload::V6(_)) => 32,
                };
                proof {
                    if let Some(pdu) = report.pdu {
                        lemma_payload_size(pdu);
                    }
                }
                let header = Header {
                    version: report.version,
                    pdu: ERROR,
                    session: report.code,
                    length: 16 + size,
                };
                header.encode(&mut out);
                put_be(&mut out, size as u128, 4);
                if let Some(pdu) = report.pdu {
                    pdu.encode(&mut out);
                }
                put_be(&mut out, 0, 4);
            },
        }
        assert(out@ =~= self.bytes());
        out
    }
}

/// The size of a payload PDU is the number of its bytes.
pub proof fn lemma_payload_size(pdu: Payload)
    ensures
        pdu.bytes().len() == pdu.size(),
{
    let header = pdu.header();
    lemma_be_bytes_len(header.session as nat, 2);
    lemma_be_bytes_len(header.length as nat, 4);
    match pdu {
        Payload::V4(pdu) => {
            lemma_be_bytes_len(pdu.prefix as nat, 4);
            lemma_be_bytes_len(pdu.asn as nat, 4);
        },
        Payload::V6(pdu) => {
            lemma_be_bytes_len(pdu.prefix as nat, 16);
            lemma_be_bytes_len(pdu.asn as nat, 4);
        },
    }
}

} // verus!
