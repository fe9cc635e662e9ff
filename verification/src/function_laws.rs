//! What the functions of the library return, whatever they are given.
//!
//! Each law here is about any call of a function that may have taken place:
//! what the arguments and the result have to do with each other.
use crate::client::Client;
use crate::clock::Moment;
use crate::failure::{decimal, Failure, FailureKind};
use crate::laws::{acceptable, follows, given_up, spoken, Point};
use crate::payload::{self, Action, Timing};
use crate::pdu::{
    Body, CacheReset, CacheResponse, EndOfData, Error, Header, Message, Payload, Received,
    SerialNotify,
};
use crate::pdu_laws::{
    body_is_what_the_header_announces, decoded_pdu_says_what_was_read,
    error_report_holds_its_parts, first_reply_is_read_from_its_header,
    number_is_written_as_far_as_it_fits,
    payload_says_what_its_bytes_say, payload_starts_with_its_header, refused_header_has_its_fault,
    reset_query_is_a_header, serial_query_names_its_state,
};
use crate::session::{
    try_io, Command, Elapsed, Event, FirstReply, Job, Next, Outcome, Session, Stage, Task, Wait,
};
use crate::state::State;
use crate::step_laws::{asking, asking_for_all, up_to_date};
use crate::target::{VrpError, VrpTarget};
use crate::wire::{be_bytes, be_limit, be_value, get_be, put_be};
use tokio::time::Instant;
use vstd::prelude::*;

verus! {

//------------ The client ----------------------------------------------------

/// A new client has the socket, the target and the state that it was given. It
/// remembers no version, no timing but the usual one, and is due at once.
pub proof fn new_client_has_what_it_was_given<S, T>(
    sock: S,
    target: T,
    state: Option<State>,
    client: Client<S, T>,
)
    requires
        call_ensures(Client::<S, T>::new, (sock, target, state), client),
    ensures
        client@.sock == sock,
        client@.target == target,
        client@.session == (Session {
            state,
            version: None,
            timing: Timing { refresh: 3600, retry: 600, expire: 7200 },
            next_update: None,
        }),
{
}

/// A client hands out its parts as they are.
pub proof fn client_hands_out_its_parts<S, T>(
    client: Client<S, T>,
    target: &T,
    kept: T,
    state: Option<State>,
    session: Session,
    origin: Instant,
)
    requires
        call_ensures(Client::<S, T>::target, (&client,), target),
        call_ensures(Client::<S, T>::into_target, (client,), kept),
        call_ensures(Client::<S, T>::state, (&client,), state),
        call_ensures(Client::<S, T>::session, (&client,), session),
        call_ensures(Client::<S, T>::origin, (&client,), origin),
    ensures
        *target == client@.target,
        kept == client@.target,
        state == client@.session.state,
        session == client@.session,
        origin == client@.origin,
{
}

/// Running starts with a query, which changes nothing about the client.
pub proof fn running_starts_with_a_query<S, T: VrpTarget, E>(
    client: &mut Client<S, T>,
    next: Next<T::Update, E>,
)
    requires
        call_ensures(Client::<S, T>::run::<E>, (client,), next),
    ensures
        final(client)@ == old(client)@,
        next == asking::<T::Update, E>(old(client)@.session, Job::Run),
{
}

/// A single update starts with a query, or with a wait until it is due if it
/// was put off. Either way it is not put off any more, and nothing else about
/// the client changes.
pub proof fn update_starts_when_it_is_due<S, T: VrpTarget, E>(
    client: &mut Client<S, T>,
    next: Next<T::Update, E>,
)
    requires
        call_ensures(Client::<S, T>::update::<E>, (client,), next),
    ensures
        ({
            let before = old(client)@;
            let after = final(client)@;
            &&& after.sock == before.sock
            &&& after.target == before.target
            &&& after.origin == before.origin
            &&& after.session == (Session { next_update: None, ..before.session })
            &&& next == match before.session.next_update {
                None => asking::<T::Update, E>(before.session, Job::Update),
                Some(due) => Next::<T::Update, E>::Do(
                    Command::AwaitNotify(Wait::Until(due)),
                    Task { job: Job::Update, stage: Stage::Notify },
                ),
            }
        }),
{
}

/// A reset starts with a reset query, which changes nothing about the client.
pub proof fn reset_starts_with_a_reset_query<S, T: VrpTarget, E>(
    client: &mut Client<S, T>,
    next: Next<T::Update, E>,
)
    requires
        call_ensures(Client::<S, T>::reset::<E>, (client,), next),
    ensures
        final(client)@ == old(client)@,
        next == asking_for_all::<T::Update, E>(old(client)@.session, Job::Reset),
{
}

/// A step leads from one point of a conversation to the next, whatever the
/// command was that the event came of. It leaves the socket and the instant
/// from which the client counts alone.
pub proof fn step_goes_on_with_the_conversation<S, T: VrpTarget, E>(
    client: &mut Client<S, T>,
    command: Command,
    task: Task<T::Update>,
    event: Event<E>,
    next: Next<T::Update, E>,
)
    requires
        task.awaits(event),
        call_ensures(Client::<S, T>::step::<E>, (client, task, event), next),
    ensures
        final(client)@.sock == old(client)@.sock,
        final(client)@.origin == old(client)@.origin,
        follows(
            Point {
                origin: old(client)@.origin,
                session: old(client)@.session,
                target: old(client)@.target,
                next: Next::Do(command, task),
            },
            event,
            Point {
                origin: final(client)@.origin,
                session: final(client)@.session,
                target: final(client)@.target,
                next,
            },
        ),
{
}

//------------ The session ---------------------------------------------------

/// [`Session::new`] remembers the state and nothing else.
pub proof fn new_session_has_its_state(state: Option<State>, session: Session)
    requires
        call_ensures(Session::new, (state,), session),
    ensures
        session == (Session {
            state,
            version: None,
            timing: Timing { refresh: 3600, retry: 600, expire: 7200 },
            next_update: None,
        }),
{
}

/// [`Session::query`] asks for what has changed since the state, or for
/// everything if there is none.
pub proof fn session_asks<U, E>(session: Session, job: Job, next: Next<U, E>)
    requires
        call_ensures(Session::query::<U, E>, (&session, job), next),
    ensures
        next == asking::<U, E>(session, job),
{
}

/// [`Session::serial`] asks for what has changed since a state.
pub proof fn session_asks_for_changes<U, E>(
    session: Session,
    job: Job,
    state: State,
    next: Next<U, E>,
)
    requires
        call_ensures(Session::serial::<U, E>, (&session, job, state), next),
    ensures
        next == asking::<U, E>(Session { state: Some(state), ..session }, job),
{
}

/// [`Session::reset`] asks for everything.
pub proof fn session_asks_for_all<U, E>(session: Session, job: Job, next: Next<U, E>)
    requires
        call_ensures(Session::reset::<U, E>, (&session, job), next),
    ensures
        next == asking_for_all::<U, E>(session, job),
{
}

/// [`Session::pushed`] goes on with the data if the update has taken the VRP,
/// and otherwise tells the server what was wrong with it.
pub proof fn answer_to_a_vrp_is_passed_on<U, E>(
    session: Session,
    job: Job,
    reset: bool,
    update: U,
    pdu: Payload,
    result: Result<(), VrpError>,
    next: Next<U, E>,
)
    requires
        call_ensures(
            Session::pushed::<U, E>,
            (&session, job, reset, update, pdu, result),
            next,
        ),
    ensures
        next == match result {
            Ok(_) => Next::<U, E>::Do(
                Command::ReadPayload,
                Task { job, stage: Stage::Receive { reset, update } },
            ),
            Err(error) => Next::Do(
                Command::Send(
                    Message::Error(
                        Error { version: spoken(session), code: error.code(), pdu: Some(pdu) },
                    ),
                ),
                Task { job, stage: Stage::Refuse { reset } },
            ),
        },
{
}

/// [`Session::applied`] goes on with a wait for the refresh time if the target
/// has taken the update, and otherwise tells the server what was wrong.
pub proof fn answer_to_an_update_is_passed_on<U, E>(
    session: Session,
    job: Job,
    reset: bool,
    result: Result<(), VrpError>,
    next: Next<U, E>,
)
    requires
        call_ensures(Session::applied::<U, E>, (&session, job, reset, result), next),
    ensures
        next == match result {
            Ok(_) => Next::<U, E>::Do(
                Command::AwaitNotify(Wait::For(session.timing.refresh)),
                Task { job, stage: Stage::Notify },
            ),
            Err(error) => Next::Do(
                Command::Send(
                    Message::Error(
                        Error { version: spoken(session), code: error.code(), pdu: None },
                    ),
                ),
                Task { job, stage: Stage::Refuse { reset } },
            ),
        },
{
}

/// What [`Session::version`] returns is the version that is remembered, or 1.
pub proof fn version_is_the_one_remembered(session: Session, version: u8)
    requires
        call_ensures(Session::version, (&session,), version),
    ensures
        version == spoken(session),
{
}

/// [`Session::test_version`] fails if and only if another version is
/// remembered.
pub proof fn version_is_tested<E>(session: Session, version: u8, result: Result<(), Failure<E>>)
    requires
        call_ensures(Session::test_version::<E>, (&session, version), result),
    ensures
        match result {
            Ok(_) => acceptable(session, version),
            Err(failure) => !acceptable(session, version) && failure is VersionChanged,
        },
{
}

/// [`Session::check_version`] fails if and only if another version is
/// remembered, and then changes nothing. Otherwise the version is remembered
/// from then on.
pub proof fn version_is_checked<E>(
    session: &mut Session,
    version: u8,
    result: Result<(), Failure<E>>,
)
    requires
        call_ensures(Session::check_version::<E>, (session, version), result),
    ensures
        match result {
            Ok(_) => acceptable(*old(session), version) && *final(session) == (Session {
                version: Some(version),
                ..*old(session)
            }),
            Err(failure) => !acceptable(*old(session), version) && failure is VersionChanged
                && *final(session) == *old(session),
        },
{
}

/// [`Session::end`] fails if and only if another version is remembered, and
/// then changes nothing. Otherwise what the end of data says is remembered.
pub proof fn end_is_remembered<E>(
    session: &mut Session,
    end: EndOfData,
    result: Result<(), Failure<E>>,
)
    requires
        call_ensures(Session::end::<E>, (session, end), result),
    ensures
        match result {
            Ok(_) => acceptable(*old(session), end.version) && *final(session) == up_to_date(
                *old(session),
                end,
            ),
            Err(failure) => !acceptable(*old(session), end.version) && failure is VersionChanged
                && *final(session) == *old(session),
        },
{
}

/// [`Session::schedule`] sets the due time to the refresh time, in nanoseconds,
/// after the moment that it is given, and changes nothing else.
pub proof fn update_is_scheduled(session: &mut Session, now: Moment)
    requires
        now.nanos <= 18_446_744_073_709_551_615_999_999_999,
        call_ensures(Session::schedule, (session, now), ()),
    ensures
        final(session).state == old(session).state,
        final(session).version == old(session).version,
        final(session).timing == old(session).timing,
        final(session).next_update matches Some(due) && due.nanos == now.nanos
            + old(session).timing.refresh * 1_000_000_000,
{
}

/// [`Command::limit`] gives the first reply one second and a notification as
/// long as the command says.
pub proof fn command_has_its_limit(command: Command, limit: Option<Wait>)
    requires
        call_ensures(Command::limit, (&command,), limit),
    ensures
        limit == match command {
            Command::AwaitNotify(wait) => Some(wait),
            Command::ReadFirstReply => Some(Wait::For(1)),
            Command::ReadCacheResponse => Some(Wait::For(1)),
            Command::Send(_) => None,
            Command::ReadPayload => None,
        },
{
}

/// [`Task::accepts`] accepts an event if and only if it is of the kind that is
/// due at the stage of the task.
pub proof fn task_accepts_what_is_due<U, E>(task: Task<U>, event: Event<E>, accepted: bool)
    requires
        call_ensures(Task::<U>::accepts::<E>, (&task, &event), accepted),
    ensures
        accepted <==> match event {
            Event::Notified(_) => task.stage is Notify,
            Event::Sent(_) => task.stage is Query || task.stage is Refuse,
            Event::FirstReply(_) => task.stage == (Stage::<U>::Reply { reset: false }),
            Event::CacheResponse(_) => task.stage == (Stage::<U>::Reply { reset: true }),
            Event::Received(_) => task.stage is Receive,
        },
{
}

/// [`Job::fail`] returns the failure as what came of the job, but for a client
/// that runs and whose server has closed the connection.
pub proof fn job_fails_with_its_failure<U, E>(
    job: Job,
    failure: Failure<E>,
    outcome: Outcome<U, E>,
)
    requires
        call_ensures(Job::fail::<U, E>, (job, failure), outcome),
    ensures
        Next::<U, E>::Done(outcome) == given_up::<U, E>(job, failure),
{
}

/// [`try_io`] returns the result of an operation, or that it has timed out.
pub proof fn result_is_passed_on<R, E>(
    outcome: Result<Result<R, Failure<E>>, Elapsed>,
    result: Result<R, Failure<E>>,
)
    requires
        call_ensures(try_io::<R, E>, (outcome,), result),
    ensures
        match outcome {
            Ok(inner) => result == inner,
            Err(_) => result == Err::<R, Failure<E>>(Failure::TimedOut),
        },
{
}

/// Whatever [`FirstReply::read`] returns, the header says so: it is a response
/// or a cache reset with the fields of the header, the error that the server
/// reports, or what is wrong with the header.
pub proof fn first_reply_is_read<E>(header: Header, result: Result<FirstReply, Failure<E>>)
    requires
        call_ensures(FirstReply::read::<E>, (header,), result),
    ensures
        match result {
            Ok(FirstReply::Response(response)) => {
                &&& header.pdu == 3
                &&& header.length == 8
                &&& response.version == header.version
                &&& response.session == header.session
            },
            Ok(FirstReply::Reset(reset)) => {
                &&& header.pdu == 8
                &&& header.length == 8
                &&& reset.version == header.version
            },
            Err(Failure::ServerError(code)) => header.pdu == 10 && code == header.session,
            Err(Failure::UnexpectedPdu(pdu)) => {
                &&& pdu == header.pdu
                &&& pdu != 3
                &&& pdu != 8
                &&& pdu != 10
            },
            Err(Failure::InvalidLength(length)) => {
                &&& length == header.length
                &&& length != 8
                &&& header.pdu == 3 || header.pdu == 8
            },
            Err(_) => false,
        },
{
    first_reply_is_read_from_its_header::<E>(header);
}

//------------ Numbers -------------------------------------------------------

/// [`Moment::later`] adds the seconds, a thousand million nanoseconds each.
pub proof fn moment_is_later(moment: Moment, secs: u32, later: Moment)
    requires
        moment.nanos + secs * 1_000_000_000 <= u128::MAX,
        call_ensures(Moment::later, (moment, secs), later),
    ensures
        later.nanos == moment.nanos + secs * 1_000_000_000,
{
}

/// [`put_be`] appends as many bytes as it was told to. They stand for the
/// number as far as it fits into them.
pub proof fn number_is_put(out: &mut Vec<u8>, value: u128, width: usize)
    requires
        call_ensures(put_be, (out, value, width), ()),
    ensures
        final(out)@.len() == old(out)@.len() + width,
        final(out)@.take(old(out)@.len() as int) == old(out)@,
        be_value(final(out)@.skip(old(out)@.len() as int)) == value as nat % be_limit(
            width as nat,
        ),
{
    number_is_written_as_far_as_it_fits(value as nat, width as nat);
    assert(final(out)@.take(old(out)@.len() as int) =~= old(out)@);
    assert(final(out)@.skip(old(out)@.len() as int) =~= be_bytes(value as nat, width as nat));
}

/// [`get_be`] returns the number that the bytes in a range stand for.
pub proof fn number_is_got(bytes: &[u8], from: usize, to: usize, value: u128)
    requires
        from <= to <= bytes@.len(),
        to - from <= 16,
        call_ensures(get_be, (bytes, from, to), value),
    ensures
        value == be_value(bytes@.subrange(from as int, to as int)),
{
}

//------------ PDUs ----------------------------------------------------------

/// [`Header::decode`] reads the version, the type, the session and the length,
/// one after the other.
pub proof fn header_is_decoded(bytes: &[u8], header: Header)
    requires
        bytes@.len() == 8,
        call_ensures(Header::decode, (bytes,), header),
    ensures
        header.version == bytes@[0],
        header.pdu == bytes@[1],
        header.session == be_value(bytes@.subrange(2, 4)),
        header.length == be_value(bytes@.subrange(4, 8)),
{
}

/// [`Header::expect`] fails if and only if the type or the length is not the
/// one expected, and says which it is instead.
pub proof fn header_is_expected<E>(
    header: Header,
    pdu: u8,
    length: u32,
    result: Result<(), Failure<E>>,
)
    requires
        call_ensures(Header::expect::<E>, (header, pdu, length), result),
    ensures
        match result {
            Ok(_) => header.pdu == pdu && header.length == length,
            Err(Failure::UnexpectedPdu(found)) => header.pdu == found && found != pdu,
            Err(Failure::InvalidLength(found)) => {
                &&& header.pdu == pdu
                &&& header.length == found
                &&& found != length
            },
            Err(_) => false,
        },
{
}

/// Whatever [`CacheResponse::read`] returns, it is a response with the version
/// and the session of the header if and only if the header is that of a whole
/// cache response. Otherwise it is what is wrong with the header.
pub proof fn cache_response_is_read<E>(header: Header, result: Result<CacheResponse, Failure<E>>)
    requires
        call_ensures(CacheResponse::read::<E>, (header,), result),
    ensures
        match result {
            Ok(response) => {
                &&& header.pdu == 3
                &&& header.length == 8
                &&& response.version == header.version
                &&& response.session == header.session
            },
            Err(Failure::UnexpectedPdu(pdu)) => header.pdu == pdu && pdu != 3,
            Err(Failure::InvalidLength(length)) => {
                &&& header.pdu == 3
                &&& header.length == length
                &&& length != 8
            },
            Err(_) => false,
        },
{
}

/// Whatever [`CacheReset::read`] returns, it is a cache reset with the version
/// of the header if and only if the header is that of a whole cache reset.
/// Otherwise it is what is wrong with the header.
pub proof fn cache_reset_is_read<E>(header: Header, result: Result<CacheReset, Failure<E>>)
    requires
        call_ensures(CacheReset::read::<E>, (header,), result),
    ensures
        match result {
            Ok(reset) => {
                &&& header.pdu == 8
                &&& header.length == 8
                &&& reset.version == header.version
            },
            Err(Failure::UnexpectedPdu(pdu)) => header.pdu == pdu && pdu != 8,
            Err(Failure::InvalidLength(length)) => {
                &&& header.pdu == 8
                &&& header.length == length
                &&& length != 8
            },
            Err(_) => false,
        },
{
}

/// Whatever [`SerialNotify::new`] returns has the version of the header.
pub proof fn serial_notify_has_its_version(header: Header, notify: SerialNotify)
    requires
        call_ensures(SerialNotify::new, (header,), notify),
    ensures
        notify.version == header.version,
{
}

/// [`SerialNotify::body`] returns how much of a whole serial notify, type 0 and
/// twelve bytes, follows its header, or what is wrong with the header.
pub proof fn serial_notify_has_its_length<E>(header: Header, result: Result<usize, Failure<E>>)
    requires
        call_ensures(SerialNotify::body::<E>, (header,), result),
    ensures
        match result {
            Ok(count) => {
                &&& header.pdu == 0
                &&& header.length == 12
                &&& count + 8 == header.length
            },
            Err(Failure::UnexpectedPdu(pdu)) => header.pdu == pdu && pdu != 0,
            Err(Failure::InvalidLength(length)) => {
                &&& header.pdu == 0
                &&& header.length == length
                &&& length != 12
            },
            Err(_) => false,
        },
{
}

/// [`Payload::version`] returns what the first byte of the PDU says.
pub proof fn payload_has_its_version(pdu: Payload, version: u8)
    requires
        call_ensures(Payload::version, (&pdu,), version),
    ensures
        version == pdu.bytes()[0],
        match pdu {
            Payload::V4(prefix) => version == prefix.header.version,
            Payload::V6(prefix) => version == prefix.header.version,
        },
{
    payload_starts_with_its_header(pdu);
}

/// [`Payload::to_payload`] returns what the bytes of the PDU say, whatever the
/// address family: to announce the VRP if the lowest bit of the flags is set
/// or else to withdraw it, and the VRP with its fields where they belong.
pub proof fn payload_is_taken_from_its_bytes(
    pdu: Payload,
    content: (Action, payload::Payload),
)
    requires
        call_ensures(Payload::to_payload, (&pdu,), content),
    ensures
        ({
            let bytes = pdu.bytes();
            &&& content.0 == if bytes[8] % 2 == 1 {
                Action::Announce
            } else {
                Action::Withdraw
            }
            &&& match content.1 {
                payload::Payload::V4(prefix) => {
                    &&& pdu is V4
                    &&& prefix.prefix_len == bytes[9]
                    &&& prefix.max_len == bytes[10]
                    &&& prefix.prefix == be_value(bytes.subrange(12, 16))
                    &&& prefix.asn == be_value(bytes.subrange(16, 20))
                },
                payload::Payload::V6(prefix) => {
                    &&& pdu is V6
                    &&& prefix.prefix_len == bytes[9]
                    &&& prefix.max_len == bytes[10]
                    &&& prefix.prefix == be_value(bytes.subrange(12, 28))
                    &&& prefix.asn == be_value(bytes.subrange(28, 32))
                },
            }
        }),
{
    payload_says_what_its_bytes_say(pdu);
}

/// [`Received::body`] tells how much follows the header and whether it is to be
/// read, or what is wrong with the header.
pub proof fn body_is_announced<E>(header: Header, result: Result<Body, Failure<E>>)
    requires
        call_ensures(Received::body::<E>, (header,), result),
    ensures
        match result {
            Ok(Body::Read(count)) => {
                &&& count + 8 == header.length
                &&& match header.pdu {
                    4 => header.length == 20,
                    6 => header.length == 32,
                    7 => header.version == 0 && header.length == 12 || header.version == 1
                        && header.length == 24,
                    _ => false,
                }
            },
            Ok(Body::Skip(count)) => count + 8 == header.length && header.pdu == 9,
            Err(Failure::ServerError(code)) => header.pdu == 10 && code == header.session,
            Err(Failure::UnknownVersion(version)) => {
                &&& header.pdu == 7
                &&& version == header.version
                &&& version > 1
            },
            Err(Failure::InvalidLength(length)) => {
                &&& length == header.length
                &&& match header.pdu {
                    4 => length != 20,
                    6 => length != 32,
                    7 => header.version == 0 && length != 12 || header.version == 1 && length
                        != 24,
                    9 => length < 8,
                    _ => false,
                }
            },
            Err(Failure::UnexpectedPdu(pdu)) => {
                &&& pdu == header.pdu
                &&& match pdu {
                    4 => false,
                    6 => false,
                    7 => false,
                    9 => false,
                    10 => false,
                    _ => true,
                }
            },
            Err(_) => false,
        },
{
    body_is_what_the_header_announces(header);
    if Received::body_of(header) is None {
        refused_header_has_its_fault::<E>(header);
    }
}

/// [`Received::skipped`] remembers the version only.
pub proof fn skipped_pdu_has_its_version(header: Header, received: Received)
    requires
        Received::body_of(header) matches Some(Body::Skip(_)),
        call_ensures(Received::skipped, (header,), received),
    ensures
        received matches Received::Unsupported { version } && version == header.version,
{
}

/// [`Received::decode`] returns what the header and the body say: the fields
/// are taken from the body one after the other.
pub proof fn pdu_is_decoded(header: Header, body: &[u8], received: Received)
    requires
        Received::body_of(header) matches Some(Body::Read(count)) && count == body@.len(),
        call_ensures(Received::decode, (header, body), received),
    ensures
        match received {
            Received::Vrp(Payload::V4(pdu)) => {
                &&& header.pdu == 4
                &&& pdu.header == header
                &&& pdu.flags == body@[0]
                &&& pdu.prefix_len == body@[1]
                &&& pdu.max_len == body@[2]
                &&& pdu.zero == body@[3]
                &&& pdu.prefix == be_value(body@.subrange(4, 8))
                &&& pdu.asn == be_value(body@.subrange(8, 12))
            },
            Received::Vrp(Payload::V6(pdu)) => {
                &&& header.pdu == 6
                &&& pdu.header == header
                &&& pdu.flags == body@[0]
                &&& pdu.prefix_len == body@[1]
                &&& pdu.max_len == body@[2]
                &&& pdu.zero == body@[3]
                &&& pdu.prefix == be_value(body@.subrange(4, 20))
                &&& pdu.asn == be_value(body@.subrange(20, 24))
            },
            Received::Unsupported { .. } => false,
            Received::End(end) => {
                &&& header.pdu == 7
                &&& end.version == header.version
                &&& end.state.session == header.session
                &&& end.state.serial == be_value(body@.subrange(0, 4))
                &&& match end.timing {
                    None => header.version == 0,
                    Some(timing) => {
                        &&& header.version == 1
                        &&& timing.refresh == be_value(body@.subrange(4, 8))
                        &&& timing.retry == be_value(body@.subrange(8, 12))
                        &&& timing.expire == be_value(body@.subrange(12, 16))
                    },
                }
            },
        },
{
    decoded_pdu_says_what_was_read(header, body@, received);
}

/// [`Message::encode`] writes the version, the type, the session or the code,
/// the length of the message, and then the serial or the PDU that is reported.
pub proof fn message_is_encoded(message: Message, bytes: Vec<u8>)
    requires
        call_ensures(Message::encode, (message,), bytes),
    ensures
        match message {
            Message::SerialQuery { version, state } => {
                &&& bytes@.len() == 12
                &&& bytes@[0] == version
                &&& bytes@[1] == 1
                &&& bytes@[2] * 0x100 + bytes@[3] == state.session
                &&& bytes@.subrange(4, 8) == seq![0u8, 0u8, 0u8, 12u8]
                &&& be_value(bytes@.subrange(8, 12)) == state.serial
            },
            Message::ResetQuery { version } => bytes@ == seq![
                version,
                2u8,
                0u8,
                0u8,
                0u8,
                0u8,
                0u8,
                8u8,
            ],
            Message::Error(report) => {
                let cause = match report.pdu {
                    None => Seq::<u8>::empty(),
                    Some(pdu) => pdu.bytes(),
                };
                let size = cause.len() as int;
                &&& bytes@.len() == 16 + size
                &&& bytes@[0] == report.version
                &&& bytes@[1] == 10
                &&& bytes@[2] * 0x100 + bytes@[3] == report.code
                &&& bytes@.subrange(4, 8) == seq![0u8, 0u8, 0u8, (16 + size) as u8]
                &&& bytes@.subrange(8, 12) == seq![0u8, 0u8, 0u8, size as u8]
                &&& bytes@.subrange(12, 12 + size) == cause
                &&& bytes@.subrange(12 + size, 16 + size) == seq![0u8, 0u8, 0u8, 0u8]
            },
        },
{
    match message {
        Message::SerialQuery { .. } => serial_query_names_its_state(message),
        Message::ResetQuery { .. } => reset_query_is_a_header(message),
        Message::Error(_) => error_report_holds_its_parts(message),
    }
}

//------------ Errors --------------------------------------------------------

/// [`VrpError::report`] gives the server the code of the error, in the version
/// asked for and with the PDU that caused it.
pub proof fn error_is_reported(
    error: VrpError,
    version: u8,
    pdu: Option<Payload>,
    message: Message,
)
    requires
        call_ensures(VrpError::report, (error, version, pdu), message),
    ensures
        message == Message::Error(
            Error {
                version,
                code: match error {
                    VrpError::UnknownWithdraw => 6,
                    VrpError::DuplicateAnnounce => 7,
                    VrpError::Corrupt => 0,
                    VrpError::Internal => 1,
                },
                pdu,
            },
        ),
{
}

/// [`VrpError::error_code`] tells the errors apart.
pub proof fn error_has_its_code(error: VrpError, code: u16)
    requires
        call_ensures(VrpError::error_code, (error,), code),
    ensures
        match code {
            6 => error is UnknownWithdraw,
            7 => error is DuplicateAnnounce,
            0 => error is Corrupt,
            1 => error is Internal,
            _ => false,
        },
{
}

/// [`Failure::is_eof`] tells whether the socket has said that the connection
/// is closed.
pub proof fn closed_connection_is_told<E>(failure: Failure<E>, eof: bool)
    requires
        call_ensures(Failure::<E>::is_eof, (&failure,), eof),
    ensures
        eof <==> (failure matches Failure::Io { eof: true, .. }),
{
}

/// [`Failure::kind`] tells who is to blame: the socket, the time, or the server
/// that has sent invalid data, unless it or the target has found an error.
pub proof fn failure_has_its_kind<E>(failure: Failure<E>, kind: FailureKind)
    requires
        call_ensures(Failure::<E>::kind, (&failure,), kind),
    ensures
        match kind {
            FailureKind::Io => failure is Io,
            FailureKind::TimedOut => failure is TimedOut,
            FailureKind::InvalidData => failure is VersionChanged || failure is UnexpectedPdu
                || failure is InvalidLength || failure is UnknownVersion,
            FailureKind::Other => failure is ServerError || failure is Rejected,
        },
{
}

/// [`Failure::message`] says what happened, with the number that the failure
/// carries in decimal notation at the end.
pub proof fn failure_has_its_message<E>(failure: Failure<E>, message: String)
    requires
        call_ensures(Failure::<E>::message, (&failure,), message),
    ensures
        message@ == match failure {
            Failure::Io { .. } => Seq::<char>::empty(),
            Failure::TimedOut => "server response timed out"@,
            Failure::VersionChanged => "version has changed"@,
            Failure::ServerError(code) => "server reported error "@ + decimal(code as nat),
            Failure::UnexpectedPdu(pdu) => "unexpected PDU "@ + decimal(pdu as nat),
            Failure::InvalidLength(length) => "invalid PDU length "@ + decimal(length as nat),
            Failure::UnknownVersion(version) => "unknown version "@ + decimal(version as nat),
            Failure::Rejected => Seq::<char>::empty(),
        },
{
}

} // verus!
