//! What can go wrong in a conversation.
use vstd::prelude::*;
use vstd::string::*;

verus! {

/// The reason for which an operation of the client ended.
///
/// The parameter `E` is the error type of the socket, whose values are
/// carried through as they are.
#[derive(Debug, PartialEq, Eq)]
pub enum Failure<E> {
    /// Reading from or writing to the socket failed.
    Io {
        /// Whether the server closed the connection.
        eof: bool,

        /// What the socket reported.
        error: E,
    },

    /// The server did not reply in time.
    TimedOut,

    /// The server sent a version that differs from its earlier ones.
    VersionChanged,

    /// The server reported an error with this code.
    ServerError(u16),

    /// The server sent a PDU of a type that has no place here.
    UnexpectedPdu(u8),

    /// The server sent a PDU whose length does not fit its type.
    InvalidLength(u32),

    /// The server ended its data with a PDU of a version without known form.
    UnknownVersion(u8),

    /// The target did not accept what the server sent.
    Rejected,
}

/// The broad kind of a failure.
#[derive(Clone, Copy, Debug, PartialEq, Eq)]
pub enum FailureKind {
    /// The error of the socket says what kind of failure this is.
    Io,

    /// Something took too long.
    TimedOut,

    /// The server sent something that it should not have.
    InvalidData,

    /// Anything else.
    Other,
}

/// The decimal digit for a number below ten.
pub open spec fn digit(value: nat) -> char {
    (48 + value) as char
}

/// A number in decimal notation.
pub open spec fn decimal(value: nat) -> Seq<char>
    decreases value,
{
    if value < 10 {
        seq![digit(value)]
    } else {
        decimal(value / 10).push(digit(value % 10))
    }
}

/// Returns the decimal digit for a number below ten.
fn digit_str(value: u32) -> (text: &'static str)
    requires
        value < 10,
    ensures
        text@ == seq![digit(value as nat)],
{
    proof {
        reveal_strlit("0");
        reveal_strlit("1");
        reveal_strlit("2");
        reveal_strlit("3");
        reveal_strlit("4");
        reveal_strlit("5");
        reveal_strlit("6");
        reveal_strlit("7");
        reveal_strlit("8");
        reveal_strlit("9");
    }
    let text = match value {
        0 => "0",
        1 => "1",
        2 => "2",
        3 => "3",
        4 => "4",
        5 => "5",
        6 => "6",
        7 => "7",
        8 => "8",
        _ => "9",
    };
    assert(text@ =~= seq![digit(value as nat)]);
    text
}

/// Appends a number in decimal notation.
fn append_decimal(text: &mut String, value: u32)
    ensures
        final(text)@ == old(text)@ + decimal(value as nat),
    decreases value,
{
    if value >= 10 {
        append_decimal(text, value / 10);
    }
    text.append(digit_str(value % 10));
    assert(text@ =~= old(text)@ + decimal(value as nat));
}

impl<E> Failure<E> {
    /// Whether the failure is that the server closed the connection.
    pub open spec fn closed(self) -> bool {
        self matches Failure::Io { eof: true, .. }
    }

    /// Returns whether the failure is that the server closed the connection.
    pub fn is_eof(&self) -> (eof: bool)
        ensures
            eof == self.closed(),
            eof <==> (*self matches Failure::Io { eof: true, .. }),
    {
        match self {
            Failure::Io { eof, .. } => *eof,
            _ => false,
        }
    }

    /// The broad kind of the failure.
    pub open spec fn kind_of(self) -> FailureKind {
        match self {
            Failure::Io { .. } => FailureKind::Io,
            Failure::TimedOut => FailureKind::TimedOut,
            Failure::ServerError(_) | Failure::Rejected => FailureKind::Other,
            _ => FailureKind::InvalidData,
        }
    }

    /// Returns the broad kind of the failure.
    pub fn kind(&self) -> (kind: FailureKind)
        ensures
            kind == self.kind_of(),
    {
        match self {
            Failure::Io { .. } => FailureKind::Io,
            Failure::TimedOut => FailureKind::TimedOut,
            Failure::ServerError(_) => FailureKind::Other,
            Failure::Rejected => FailureKind::Other,
            _ => FailureKind::InvalidData,
        }
    }

    /// The message that describes the failure.
    pub open spec fn message_of(self) -> Seq<char> {
        match self {
            Failure::Io { .. } => Seq::empty(),
            Failure::TimedOut => "server response timed out"@,
            Failure::VersionChanged => "version has changed"@,
            Failure::ServerError(code) => "server reported error "@ + decimal(code as nat),
            Failure::UnexpectedPdu(pdu) => "unexpected PDU "@ + decimal(pdu as nat),
            Failure::InvalidLength(length) => "invalid PDU length "@ + decimal(length as nat),
            Failure::UnknownVersion(version) => "unknown version "@ + decimal(version as nat),
            Failure::Rejected => Seq::empty(),
        }
    }

    /// Returns the message that describes the failure.
    ///
    /// It is empty for a failure of the socket, whose error has its own, and
    /// for a rejection, which the target knows all about.
    pub fn message(&self) -> (message: String)
        ensures
            message@ == self.message_of(),
    {
        let mut message = String::new();
        match self {
            Failure::Io { .. } => {},
            Failure::TimedOut => {
                message.append("server response timed out");
            },
            Failure::VersionChanged => {
                message.append("version has changed");
            },
            Failure::ServerError(code) => {
                message.append("server reported error ");
                append_decimal(&mut message, *code as u32);
            },
            Failure::UnexpectedPdu(pdu) => {
                message.append("unexpected PDU ");
                append_decimal(&mut message, *pdu as u32);
            },
            Failure::InvalidLength(length) => {
                message.append("invalid PDU length ");
                append_decimal(&mut message, *length);
            },
            Failure::UnknownVersion(version) => {
                message.append("unknown version ");
                append_decimal(&mut message, *version as u32);
            },
            Failure::Rejected => {},
        }
        assert(message@ =~= self.message_of());
        message
    }
}

//------------ Laws ----------------------------------------------------------

/// The number that a text stands for in decimal notation.
pub open spec fn decimal_value(text: Seq<char>) -> int
    decreases text.len(),
{
    if text.len() == 0 {
        0
    } else {
        decimal_value(text.drop_last()) * 10 + (text.last() as int - '0' as int)
    }
}

/// Decimal notation stands for the number, consists of digits only, and does
/// not start with a zero unless that is all there is.
pub proof fn decimal_notation_stands_for_the_number(value: nat)
    ensures
        decimal_value(decimal(value)) == value,
        decimal(value).len() > 0,
        decimal(value).len() > 1 ==> decimal(value)[0] != '0',
        value > 0 ==> decimal(value)[0] != '0',
        forall|i: int|
            0 <= i < decimal(value).len() ==> '0' <= #[trigger] decimal(value)[i] <= '9',
    decreases value,
{
    let text = decimal(value);
    if value < 10 {
        assert(text.drop_last() =~= Seq::empty());
        reveal_with_fuel(decimal_value, 2);
    } else {
        decimal_notation_stands_for_the_number(value / 10);
        assert(text.drop_last() =~= decimal(value / 10));
    }
}

/// Only an error of the socket can mean that the connection is closed, and it
/// does if it says so.
pub proof fn closed_connection_is_reported_by_the_socket<E>(failure: Failure<E>)
    ensures
        match failure {
            Failure::Io { eof, .. } => failure.closed() == eof,
            _ => !failure.closed(),
        },
{
}

/// A failure of the socket is of the kind that the socket says, a late reply is
/// a timeout, and what the server should not have sent is invalid data. An
/// error that the server reports and one that the target finds are neither.
pub proof fn kind_tells_who_is_to_blame<E>(failure: Failure<E>)
    ensures
        failure.kind_of() is Io <==> failure is Io,
        failure.kind_of() is TimedOut <==> failure is TimedOut,
        failure.kind_of() is Other <==> failure is ServerError || failure is Rejected,
        failure.kind_of() is InvalidData <==> failure is VersionChanged || failure is UnexpectedPdu
            || failure is InvalidLength || failure is UnknownVersion,
{
}

/// The message says what happened and, where that is a number, ends with the
/// number in decimal notation. There is none for a failure that others report.
pub proof fn message_says_what_happened<E>(failure: Failure<E>)
    ensures
        match failure {
            Failure::Io { .. } => failure.message_of().len() == 0,
            Failure::TimedOut => failure.message_of() == "server response timed out"@,
            Failure::VersionChanged => failure.message_of() == "version has changed"@,
            Failure::ServerError(code) => failure.message_of() == "server reported error "@
                + decimal(code as nat),
            Failure::UnexpectedPdu(pdu) => failure.message_of() == "unexpected PDU "@ + decimal(
                pdu as nat,
            ),
            Failure::InvalidLength(length) => failure.message_of() == "invalid PDU length "@
                + decimal(length as nat),
            Failure::UnknownVersion(version) => failure.message_of() == "unknown version "@
                + decimal(version as nat),
            Failure::Rejected => failure.message_of().len() == 0,
        },
{
}

} // verus!
