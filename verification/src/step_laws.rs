//! What a single step of a conversation does.
//!
//! Where [`crate::laws`] speaks of conversations as a whole, the laws here say
//! for each stage and each event what the step hands on: which command, which
//! task, which session and which target.
use crate::clock::{shows, Moment};
use crate::failure::Failure;
use crate::laws::{
    acceptable, conversation, failure_of, follows, given_up, in_reset, put_off, sound, spoken,
    version_in, Point,
};
use crate::payload::Timing;
use crate::pdu::{self, CacheResponse, EndOfData, Error, Message, Received};
use crate::session::{
    Command, Elapsed, Event, FirstReply, Job, Next, Outcome, Session, Stage, Task, Wait,
};
use crate::state::State;
use crate::target::{VrpError, VrpTarget, VrpUpdate};
use vstd::prelude::*;

verus! {

//------------ Queries -------------------------------------------------------

/// How a job goes on that asks the server for data: with a serial query for
/// the state that the client is in, or with a reset query if it is in none.
pub open spec fn asking<U, E>(session: Session, job: Job) -> Next<U, E> {
    match session.state {
        Some(state) => Next::Do(
            Command::Send(Message::SerialQuery { version: spoken(session), state }),
            Task { job, stage: Stage::Query { reset: false } },
        ),
        None => asking_for_all(session, job),
    }
}

/// How a job goes on that asks the server for all its data.
pub open spec fn asking_for_all<U, E>(session: Session, job: Job) -> Next<U, E> {
    Next::Do(
        Command::Send(Message::ResetQuery { version: spoken(session) }),
        Task { job, stage: Stage::Query { reset: true } },
    )
}

/// A client that is to run asks for data at once. So does one that is to fetch
/// a single update, unless it has put that off, in which case it waits until
/// the moment that it has set. One that is to reset asks for all data.
pub proof fn jobs_start_with_a_query_or_a_wait<U, E>(session: Session)
    ensures
        session.query_next::<U, E>(Job::Run) == asking::<U, E>(session, Job::Run),
        session.update_next::<U, E>() == match session.next_update {
            None => asking::<U, E>(session, Job::Update),
            Some(due) => Next::<U, E>::Do(
                Command::AwaitNotify(Wait::Until(due)),
                Task { job: Job::Update, stage: Stage::Notify },
            ),
        },
        session.reset_next::<U, E>(Job::Reset) == asking_for_all::<U, E>(session, Job::Reset),
{
}

/// When the wait is over, with or without a notification, the client asks for
/// data. Nothing else changes.
pub proof fn client_asks_after_the_wait<T: VrpTarget, E>(
    before: Point<T, E>,
    event: Event<E>,
    after: Point<T, E>,
)
    requires
        follows(before, event, after),
        match event {
            Event::Notified(Err(_)) => true,
            Event::Notified(Ok(Ok(notify))) => acceptable(before.session, notify.version),
            _ => false,
        },
    ensures
        after.session == before.session,
        after.target == before.target,
        after.next == asking::<T::Update, E>(before.session, before.task().job),
{
}

/// Once a query is sent, the reply to that very query is read: any first reply
/// to a serial query, a cache response to a reset query. Nothing else changes.
pub proof fn sent_query_awaits_its_reply<T: VrpTarget, E>(
    before: Point<T, E>,
    after: Point<T, E>,
    reset: bool,
)
    requires
        follows(before, Event::Sent(Ok(())), after),
        before.task().stage == (Stage::<T::Update>::Query { reset }),
    ensures
        after.session == before.session,
        after.target == before.target,
        after.next matches Next::Do(command, task) && task.job == before.task().job && task.stage
            == (Stage::<T::Update>::Reply { reset }) && match command {
            Command::ReadCacheResponse => reset,
            Command::ReadFirstReply => !reset,
            _ => false,
        },
{
}

/// A cache reset makes the client forget its state and ask for all data.
/// Nothing else changes.
pub proof fn cache_reset_makes_client_ask_for_all<T: VrpTarget, E>(
    before: Point<T, E>,
    version: u8,
    after: Point<T, E>,
)
    requires
        follows(
            before,
            Event::FirstReply(Ok(Ok(FirstReply::Reset(pdu::CacheReset { version })))),
            after,
        ),
        acceptable(before.session, version),
    ensures
        after.session.state is None,
        after.session.version == before.session.version,
        after.session.timing == before.session.timing,
        after.session.next_update == before.session.next_update,
        after.target == before.target,
        after.next == asking_for_all::<T::Update, E>(before.session, before.task().job),
{
}

//------------ Data ----------------------------------------------------------

/// The cache response that an event brings, if it brings one.
pub open spec fn response_in<E>(event: Event<E>) -> Option<CacheResponse> {
    match event {
        Event::FirstReply(Ok(Ok(FirstReply::Response(response)))) => Some(response),
        Event::CacheResponse(Ok(Ok(response))) => Some(response),
        _ => None,
    }
}

/// Whatever the job and the query, a cache response in an acceptable version
/// makes the client receive data: its version is remembered, an update for the
/// kind of query that was sent is started, and the data is read.
pub proof fn announced_data_is_received<T: VrpTarget, E>(
    before: Point<T, E>,
    event: Event<E>,
    after: Point<T, E>,
    response: CacheResponse,
    reset: bool,
)
    requires
        follows(before, event, after),
        before.task().stage == (Stage::<T::Update>::Reply { reset }),
        response_in(event) == Some(response),
        acceptable(before.session, response.version),
    ensures
        after.receiving(),
        after.next == Next::<T::Update, E>::Do(
            Command::ReadPayload,
            Task {
                job: before.task().job,
                stage: Stage::Receive { reset, update: after.update() },
            },
        ),
        before.target.starts(reset, &after.target, &after.update()),
        after.session == (Session { version: Some(response.version), ..before.session }),
{
    let update = choose|update: T::Update| #[trigger]
        before.target.starts(reset, &after.target, &update) && after.next
            == after.session.receive_next::<T::Update, E>(before.task().job, reset, update);
    assert(update == after.update());
}

/// A VRP in an acceptable version is pushed to the update with the action and
/// the content of its PDU. If the update takes it, the next piece of data is
/// read into the update. If not, the server is sent the error and the PDU.
pub proof fn arriving_vrp_is_pushed<T: VrpTarget, E>(
    before: Point<T, E>,
    pdu: pdu::Payload,
    after: Point<T, E>,
    reset: bool,
    update: T::Update,
)
    requires
        follows(before, Event::Received(Ok(Received::Vrp(pdu))), after),
        before.task().stage == (Stage::Receive { reset, update }),
        acceptable(before.session, pdu.header().version),
    ensures
        after.session == (Session { version: Some(pdu.header().version), ..before.session }),
        after.target == before.target,
        exists|pushed: T::Update, result: Result<(), VrpError>|
            #![trigger update.pushes(pdu.content().0, pdu.content().1, &pushed, result)]
            update.pushes(pdu.content().0, pdu.content().1, &pushed, result) && after.next
                == match result {
                Ok(_) => Next::<T::Update, E>::Do(
                    Command::ReadPayload,
                    Task {
                        job: before.task().job,
                        stage: Stage::Receive { reset, update: pushed },
                    },
                ),
                Err(error) => Next::Do(
                    Command::Send(
                        Message::Error(
                            Error {
                                version: pdu.header().version,
                                code: error.code(),
                                pdu: Some(pdu),
                            },
                        ),
                    ),
                    Task { job: before.task().job, stage: Stage::Refuse { reset } },
                ),
            },
{
    let job = before.task().job;
    let content = pdu.content();
    let (pushed, result) = choose|pushed: T::Update, result| #[trigger]
        before.update().pushes(content.0, content.1, &pushed, result) && after.next
            == after.session.pushed_next::<T::Update, E>(job, reset, pushed, pdu, result);
    assert(update.pushes(pdu.content().0, pdu.content().1, &pushed, result));
    assert(after.next == after.session.pushed_next::<T::Update, E>(
        job,
        reset,
        pushed,
        pdu,
        result,
    ));
}

/// Payload that the client does not support, in an acceptable version, changes
/// nothing at all: the next piece of data is read.
pub proof fn unsupported_payload_changes_nothing<T: VrpTarget, E>(
    before: Point<T, E>,
    version: u8,
    after: Point<T, E>,
    reset: bool,
    update: T::Update,
)
    requires
        follows(before, Event::Received(Ok(Received::Unsupported { version })), after),
        before.task().stage == (Stage::Receive { reset, update }),
        acceptable(before.session, version),
    ensures
        after.session == before.session,
        after.target == before.target,
        after.next == Next::<T::Update, E>::Do(
            Command::ReadPayload,
            Task { job: before.task().job, stage: Stage::Receive { reset, update } },
        ),
{
}

/// What the client remembers once the server has sent all its data.
pub open spec fn up_to_date(session: Session, end: EndOfData) -> Session {
    Session {
        state: Some(end.state),
        version: Some(end.version),
        timing: match end.timing {
            Some(timing) => timing,
            None => session.timing,
        },
        next_update: session.next_update,
    }
}

/// At the end of the data, a client that runs remembers what the PDU says and
/// applies the update to its target, for the kind of query that was sent and
/// with the timing that it now remembers. If the target takes it, the client
/// waits for the refresh time. If not, the server is sent the error.
pub proof fn running_client_applies_at_the_end<T: VrpTarget, E>(
    before: Point<T, E>,
    end: EndOfData,
    after: Point<T, E>,
    reset: bool,
    update: T::Update,
)
    requires
        follows(before, Event::Received(Ok(Received::End(end))), after),
        before.task() == (Task { job: Job::Run, stage: Stage::Receive { reset, update } }),
        acceptable(before.session, end.version),
    ensures
        after.session == up_to_date(before.session, end),
        exists|result: Result<(), VrpError>|
            #![trigger before.target.applies(
                update,
                reset,
                after.session.timing,
                &after.target,
                result,
            )]
            before.target.applies(update, reset, after.session.timing, &after.target, result)
                && after.next == match result {
                Ok(_) => Next::<T::Update, E>::Do(
                    Command::AwaitNotify(Wait::For(after.session.timing.refresh)),
                    Task { job: Job::Run, stage: Stage::Notify },
                ),
                Err(error) => Next::Do(
                    Command::Send(
                        Message::Error(
                            Error { version: end.version, code: error.code(), pdu: None },
                        ),
                    ),
                    Task { job: Job::Run, stage: Stage::Refuse { reset } },
                ),
            },
{
    let result = choose|result| #[trigger]
        before.target.applies(update, reset, after.session.timing, &after.target, result)
            && after.next == after.session.applied_next::<T::Update, E>(Job::Run, reset, result);
    assert(before.target.applies(update, reset, after.session.timing, &after.target, result));
    assert(after.next == after.session.applied_next::<T::Update, E>(Job::Run, reset, result));
}

/// At the end of the data, a job for a single update is done. It remembers what
/// the PDU says, leaves the target alone and hands out the update as it is. If
/// it was to fetch the update when it is due, the next one is put off by the
/// refresh time, counted from a moment that the clock shows.
pub proof fn single_update_is_handed_out_at_the_end<T: VrpTarget, E>(
    before: Point<T, E>,
    end: EndOfData,
    after: Point<T, E>,
    reset: bool,
    update: T::Update,
)
    requires
        follows(before, Event::Received(Ok(Received::End(end))), after),
        before.task().stage == (Stage::Receive { reset, update }),
        !(before.task().job is Run),
        acceptable(before.session, end.version),
    ensures
        after.next == Next::<T::Update, E>::Done(Outcome::Update(Ok(update))),
        after.target == before.target,
        before.task().job is Update ==> put_off(
            before.origin,
            up_to_date(before.session, end),
            after.session,
        ),
        before.task().job is Reset ==> after.session == up_to_date(before.session, end),
{
}

//------------ Ends ----------------------------------------------------------

/// Why a step makes a job fail, if it does: because of a failure that the event
/// reports, or because the server has used a version that differs from the one
/// that the client remembers.
pub open spec fn reason_to_fail<T: VrpTarget, E>(
    before: Point<T, E>,
    event: Event<E>,
) -> Option<Failure<E>> {
    match failure_of(before.task().stage, event) {
        Some(failure) => Some(failure),
        None => match version_in(event) {
            Some(version) => if acceptable(before.session, version) {
                None
            } else {
                Some(Failure::VersionChanged)
            },
            None => None,
        },
    }
}

/// A job that has a reason to fail fails for that reason. The target is left
/// alone and what the client remembers is too, but for a job that fetches a
/// single update and has got as far as a reset query: that one is put off.
pub proof fn job_fails_for_its_reason<T: VrpTarget, E>(
    before: Point<T, E>,
    event: Event<E>,
    after: Point<T, E>,
    failure: Failure<E>,
)
    requires
        follows(before, event, after),
        reason_to_fail(before, event) == Some(failure),
    ensures
        after.next == given_up::<T::Update, E>(before.task().job, failure),
        after.target == before.target,
        if before.task().job is Update && in_reset(before.task().stage) {
            put_off(before.origin, before.session, after.session)
        } else {
            after.session == before.session
        },
{
}

/// A job that has no reason to fail does not fail, whatever the job: it goes
/// on with a task of its own, or, if it is for a single update and the server
/// has sent all its data, it is done and hands out the update.
pub proof fn job_fails_for_no_other_reason<T: VrpTarget, E>(
    before: Point<T, E>,
    event: Event<E>,
    after: Point<T, E>,
)
    requires
        follows(before, event, after),
        reason_to_fail(before, event) is None,
    ensures
        if !(before.task().job is Run) && (event matches Event::Received(Ok(Received::End(_)))) {
            after.next == Next::<T::Update, E>::Done(Outcome::Update(Ok(before.update())))
        } else {
            after.next matches Next::Do(_, task) && task.job == before.task().job
        },
{
}

/// What the next update is due for is counted from the clock: if a step sets
/// it, then to the refresh time that the client then remembers, in nanoseconds,
/// after a moment that the clock shows. It is set if and only if a job for a
/// single update is done that was successful or had got as far as a reset
/// query.
pub proof fn due_time_is_counted_from_the_clock<T: VrpTarget, E>(
    before: Point<T, E>,
    event: Event<E>,
    after: Point<T, E>,
)
    requires
        follows(before, event, after),
    ensures
        if before.task().job is Update && (after.next matches Next::Done(outcome) && (in_reset(
            before.task().stage,
        ) || (outcome matches Outcome::Update(Ok(_))))) {
            exists|now: Moment| #[trigger]
                shows(before.origin, now) && (after.session.next_update matches Some(due)
                    && due.nanos == now.nanos + after.session.timing.refresh * 1_000_000_000)
        } else {
            after.session.next_update == before.session.next_update
        },
{
}

//------------ Queries and their data ----------------------------------------

/// Whether a query of a kind is being sent at a point.
pub open spec fn sends_query<T: VrpTarget, E>(point: Point<T, E>, reset: bool) -> bool {
    match point.next {
        Next::Do(Command::Send(Message::ResetQuery { .. }), _) => reset,
        Next::Do(Command::Send(Message::SerialQuery { .. }), _) => !reset,
        _ => false,
    }
}

/// From the query on, until the next one is sent or waited for, the client
/// knows of which kind the last query was.
pub proof fn last_query_is_remembered<T: VrpTarget, E>(
    points: Seq<Point<T, E>>,
    events: Seq<Event<E>>,
    reset: bool,
    i: int,
)
    requires
        conversation(points, events),
        0 <= i < points.len(),
        sends_query(points[0], reset),
        points[0].task().stage is Query,
        in_reset(points[0].task().stage) == reset,
        forall|k: int|
            1 <= k <= i ==> !sends_query(#[trigger] points[k], true) && !sends_query(
                points[k],
                false,
            ),
        points[i].next is Do,
        !(points[i].task().stage is Notify),
    ensures
        in_reset(points[i].task().stage) == reset,
    decreases i,
{
    if i > 0 {
        assert(follows(points[i - 1], events[i - 1], points[i]));
        assert(!sends_query(points[i], true) && !sends_query(points[i], false));
        last_query_is_remembered(points, events, reset, i - 1);
    }
}

/// The target is told the truth about the query. What starts an update, and
/// what applies it, is told that it is for a reset query if and only if the
/// last query that the client has sent was one.
pub proof fn target_is_told_the_kind_of_query<T: VrpTarget, E>(
    points: Seq<Point<T, E>>,
    events: Seq<Event<E>>,
    reset: bool,
    i: int,
)
    requires
        conversation(points, events),
        0 <= i < events.len(),
        sends_query(points[0], reset),
        sound(points[0].task().job, points[0].next),
        forall|k: int|
            1 <= k <= i ==> !sends_query(#[trigger] points[k], true) && !sends_query(
                points[k],
                false,
            ),
        !(points[i].task().stage is Notify),
        reason_to_fail(points[i], events[i]) is None,
    ensures
        response_in(events[i]) is Some ==> points[i].target.starts(
            reset,
            &points[i + 1].target,
            &points[i + 1].update(),
        ) && points[i + 1].task().stage == (Stage::Receive {
            reset,
            update: points[i + 1].update(),
        }),
        points[i].task().job is Run && (events[i] matches Event::Received(Ok(Received::End(_))))
            ==> exists|result: Result<(), VrpError>| #[trigger]
            points[i].target.applies(
                points[i].update(),
                reset,
                points[i + 1].session.timing,
                &points[i + 1].target,
                result,
            ),
{
    let here = points[i];
    let there = points[i + 1];
    assert(follows(here, events[i], there));
    last_query_is_remembered(points, events, reset, i);
    if let Some(response) = response_in(events[i]) {
        announced_data_is_received(here, events[i], there, response, reset);
    }
    if let Event::Received(Ok(Received::End(end))) = events[i] {
        if here.task().job is Run {
            running_client_applies_at_the_end(here, end, there, reset, here.update());
        }
    }
}

//------------ The session ---------------------------------------------------

/// A client that has not spoken with its server remembers nothing but the state
/// that it was given. Until it is told otherwise, it refreshes every hour,
/// retries after ten minutes and lets data expire after two hours.
pub proof fn fresh_session_knows_its_state_only(state: Option<State>)
    ensures
        ({
            let session = Session::fresh(state);
            &&& session.state == state
            &&& session.version is None
            &&& session.timing == (Timing { refresh: 3600, retry: 600, expire: 7200 })
            &&& session.next_update is None
        }),
{
}

/// In whatever session, a client speaks the version that it remembers or else
/// version 1, and its queries are the ones that they are named after.
pub proof fn queries_are_what_they_are_named_after<U, E>(session: Session, job: Job, state: State)
    ensures
        session.speaks() == spoken(session),
        session.serial_next::<U, E>(job, state) == Next::<U, E>::Do(
            Command::Send(Message::SerialQuery { version: spoken(session), state }),
            Task { job, stage: Stage::Query { reset: false } },
        ),
        session.reset_next::<U, E>(job) == asking_for_all::<U, E>(session, job),
        session.query_next::<U, E>(job) == asking::<U, E>(session, job),
{
}

/// A session accepts every version as long as it remembers none, and then that
/// one only. What it takes note of changes what it should and nothing else.
pub proof fn session_takes_note(session: Session, version: u8, end: EndOfData, now: Moment)
    requires
        now.nanos <= 18_446_744_073_709_551_615_999_999_999,
    ensures
        session.agrees(version) == acceptable(session, version),
        session.having_heard(version) == (Session { version: Some(version), ..session }),
        session.having_ended(end) == up_to_date(session, end),
        ({
            let after = session.scheduled_at(now);
            &&& after == Session { next_update: after.next_update, ..session }
            &&& after.next_update matches Some(due)
            &&& due.nanos == now.nanos + session.timing.refresh * 1_000_000_000
        }),
{
}

/// In whatever session, what the update and the target answer decides how the
/// job goes on: with the data or the wait that comes next, or with a report of
/// the error in the version that the client speaks.
pub proof fn answers_decide_how_to_go_on<U, E>(
    session: Session,
    job: Job,
    reset: bool,
    update: U,
    pdu: pdu::Payload,
    error: VrpError,
)
    ensures
        session.receive_next::<U, E>(job, reset, update) == Next::<U, E>::Do(
            Command::ReadPayload,
            Task { job, stage: Stage::Receive { reset, update } },
        ),
        session.pushed_next::<U, E>(job, reset, update, pdu, Ok(())) == Next::<U, E>::Do(
            Command::ReadPayload,
            Task { job, stage: Stage::Receive { reset, update } },
        ),
        session.pushed_next::<U, E>(job, reset, update, pdu, Err(error)) == Next::<U, E>::Do(
            Command::Send(
                Message::Error(
                    Error { version: spoken(session), code: error.code(), pdu: Some(pdu) },
                ),
            ),
            Task { job, stage: Stage::Refuse { reset } },
        ),
        session.applied_next::<U, E>(job, reset, Ok(())) == Next::<U, E>::Do(
            Command::AwaitNotify(Wait::For(session.timing.refresh)),
            Task { job, stage: Stage::Notify },
        ),
        session.applied_next::<U, E>(job, reset, Err(error)) == Next::<U, E>::Do(
            Command::Send(
                Message::Error(Error { version: spoken(session), code: error.code(), pdu: None }),
            ),
            Task { job, stage: Stage::Refuse { reset } },
        ),
{
}

//------------ Commands and events -------------------------------------------

/// The first reply to a query has one second to arrive, and a serial notify as
/// long as the client says. Nothing else has a limit.
pub proof fn only_replies_and_notifications_are_limited(command: Command)
    ensures
        match command {
            Command::AwaitNotify(wait) => command.time_limit() == Some(wait),
            Command::ReadFirstReply => command.time_limit() == Some(Wait::For(1)),
            Command::ReadCacheResponse => command.time_limit() == Some(Wait::For(1)),
            Command::Send(_) => command.time_limit() is None,
            Command::ReadPayload => command.time_limit() is None,
        },
{
}

/// An operation that was complete in time has its own result. One that was not
/// has timed out.
pub proof fn late_operation_has_timed_out<R, E>(outcome: Result<Result<R, Failure<E>>, Elapsed>)
    ensures
        crate::session::timely(outcome) == match outcome {
            Ok(Ok(value)) => Ok::<R, Failure<E>>(value),
            Ok(Err(failure)) => Err(failure),
            Err(_) => Err(Failure::TimedOut),
        },
{
}

/// A failure ends each job in the way that it is said to.
pub proof fn failure_becomes_the_outcome<U, E>(job: Job, failure: Failure<E>)
    ensures
        Next::<U, E>::Done(job.failing(failure)) == given_up::<U, E>(job, failure),
{
}

/// An event is what came of a command if it is of the kind that carrying out
/// the command gives: a client that goes on soundly is told the truth.
pub proof fn event_comes_of_its_command<U, E>(job: Job, next: Next<U, E>, event: Event<E>)
    requires
        next is Do,
        sound(job, next),
    ensures
        next->Do_1.awaits(event) <==> match next->Do_0 {
            Command::AwaitNotify(_) => event is Notified,
            Command::Send(_) => event is Sent,
            Command::ReadFirstReply => event is FirstReply,
            Command::ReadCacheResponse => event is CacheResponse,
            Command::ReadPayload => event is Received,
        },
{
}

} // verus!
