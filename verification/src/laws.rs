//! What holds of a conversation as a whole.
//!
//! A conversation is what results from starting a job and handing an event to
//! [`crate::client::Client::step`] for each command that it asks for. The laws
//! are stated of any stretch of one.
use crate::client::{announced, completed, transition};
use crate::clock::{shows, Moment, MAX_NANOS, NANOS_PER_SEC};
use crate::failure::Failure;
use crate::payload::{Action, Payload};
use crate::pdu::{
    self, lemma_payload_size, EndOfData, Header, Message, Received, END_OF_DATA, ERROR,
    RESET_QUERY, SERIAL_QUERY,
};
use crate::session::{
    Command, Event, FirstReply, Job, Next, Outcome, Session, Stage, Task, Wait,
    IO_TIMEOUT,
};
use crate::state::State;
use crate::target::{VrpError, VrpTarget, VrpUpdate};
use crate::wire::{
    be_bytes, be_limit, be_value, lemma_be_bytes_len, lemma_be_limits, lemma_value_of_bytes,
};
use tokio::time::Instant;
use vstd::prelude::*;

verus! {

//------------ Conversations -------------------------------------------------

/// A point in a conversation.
pub struct Point<T: VrpTarget, E> {
    /// The instant from which the client counts its time.
    pub origin: Instant,

    /// What the client remembers of the server.
    pub session: Session,

    /// The target of the client.
    pub target: T,

    /// How the job goes on from here.
    pub next: Next<T::Update, E>,
}

impl<T: VrpTarget, E> Point<T, E> {
    /// The task at hand, as long as the job is not done.
    pub open spec fn task(self) -> Task<T::Update> {
        self.next->Do_1
    }

    /// Whether the client is receiving data.
    pub open spec fn receiving(self) -> bool {
        self.next is Do && self.task().stage is Receive
    }

    /// Where the data is collected that is being received.
    pub open spec fn update(self) -> T::Update {
        self.task().stage->update
    }
}

/// Whether an event leads from one point to another.
pub open spec fn follows<T: VrpTarget, E>(
    before: Point<T, E>,
    event: Event<E>,
    after: Point<T, E>,
) -> bool {
    &&& before.next is Do
    &&& before.task().awaits(event)
    &&& after.origin == before.origin
    &&& transition(
        before.origin,
        (before.session, before.target),
        before.task(),
        event,
        (after.session, after.target),
        after.next,
    )
}

/// Whether the events lead from each point to the one after it.
pub open spec fn conversation<T: VrpTarget, E>(
    points: Seq<Point<T, E>>,
    events: Seq<Event<E>>,
) -> bool {
    &&& points.len() == events.len() + 1
    &&& forall|i: int|
        0 <= i < events.len() ==> follows(points[i], #[trigger] events[i], points[i + 1])
}

/// The failure that an event reports to a client at some stage.
///
/// Not to be notified in time is no failure. Not to get a reply in time is.
pub open spec fn failure_of<U, E>(stage: Stage<U>, event: Event<E>) -> Option<Failure<E>> {
    match event {
        Event::Notified(Ok(Err(failure))) => Some(failure),
        Event::Notified(_) => None,
        Event::Sent(Err(failure)) => Some(failure),
        Event::Sent(Ok(())) => if stage is Refuse {
            Some(Failure::Rejected)
        } else {
            None
        },
        Event::FirstReply(Ok(Ok(_))) => None,
        Event::FirstReply(Ok(Err(failure))) => Some(failure),
        Event::FirstReply(Err(_)) => Some(Failure::TimedOut),
        Event::CacheResponse(Ok(Ok(_))) => None,
        Event::CacheResponse(Ok(Err(failure))) => Some(failure),
        Event::CacheResponse(Err(_)) => Some(Failure::TimedOut),
        Event::Received(Ok(_)) => None,
        Event::Received(Err(failure)) => Some(failure),
    }
}

/// The version of the PDU that an event brings, if it brings one.
pub open spec fn version_in<E>(event: Event<E>) -> Option<u8> {
    match event {
        Event::Notified(Ok(Ok(notify))) => Some(notify.version),
        Event::FirstReply(Ok(Ok(FirstReply::Response(response)))) => Some(response.version),
        Event::FirstReply(Ok(Ok(FirstReply::Reset(refusal)))) => Some(refusal.version),
        Event::CacheResponse(Ok(Ok(response))) => Some(response.version),
        Event::Received(Ok(Received::Vrp(pdu))) => Some(pdu.header().version),
        Event::Received(Ok(Received::Unsupported { version })) => Some(version),
        Event::Received(Ok(Received::End(end))) => Some(end.version),
        _ => None,
    }
}

/// Whether the version of the PDU that an event brings is remembered.
///
/// That is so for the PDUs that announce or hand over data. A serial notify, a
/// cache reset and payload that the client does not support are only held to
/// what is remembered already.
pub open spec fn settles_version<E>(event: Event<E>) -> bool {
    match event {
        Event::FirstReply(Ok(Ok(FirstReply::Response(_)))) => true,
        Event::CacheResponse(Ok(Ok(_))) => true,
        Event::Received(Ok(Received::Vrp(_))) => true,
        Event::Received(Ok(Received::End(_))) => true,
        _ => false,
    }
}

/// The version that a client uses: the one that it remembers, or 1.
pub open spec fn spoken(session: Session) -> u8 {
    match session.version {
        Some(version) => version,
        None => 1,
    }
}

/// Whether a version does not differ from the one that a client remembers.
pub open spec fn acceptable(session: Session, version: u8) -> bool {
    session.version matches Some(remembered) ==> remembered == version
}

/// How a job goes on that fails: it does not. To a client that runs, it is no
/// failure that the server has closed the connection.
pub open spec fn given_up<U, E>(job: Job, failure: Failure<E>) -> Next<U, E> {
    match (job, failure) {
        (Job::Run, Failure::Io { eof: true, .. }) => Next::Done(Outcome::Run(Ok(()))),
        (Job::Run, _) => Next::Done(Outcome::Run(Err(failure))),
        (Job::Update, _) => Next::Done(Outcome::Update(Err(failure))),
        (Job::Reset, _) => Next::Done(Outcome::Update(Err(failure))),
    }
}

/// Whether the next update has been put off by the refresh time, in
/// nanoseconds from a moment that the clock shows, and nothing else changed.
pub open spec fn put_off(origin: Instant, before: Session, after: Session) -> bool {
    &&& after.state == before.state
    &&& after.version == before.version
    &&& after.timing == before.timing
    &&& exists|now: Moment| #[trigger]
        shows(origin, now) && (after.next_update matches Some(due) && due.nanos == now.nanos
            + before.timing.refresh * 1_000_000_000)
}

/// Whether a client at some stage is busy with a reset query.
pub open spec fn in_reset<U>(stage: Stage<U>) -> bool {
    match stage {
        Stage::Notify => false,
        Stage::Query { reset } => reset,
        Stage::Reply { reset } => reset,
        Stage::Receive { reset, .. } => reset,
        Stage::Refuse { reset } => reset,
    }
}

//------------ The job -------------------------------------------------------

/// Whether a command is the one that belongs to a stage.
pub open spec fn suits<U>(command: Command, stage: Stage<U>) -> bool {
    match stage {
        Stage::Notify => command is AwaitNotify,
        Stage::Query { reset } => if reset {
            command matches Command::Send(Message::ResetQuery { .. })
        } else {
            command matches Command::Send(Message::SerialQuery { .. })
        },
        Stage::Reply { reset } => if reset {
            command is ReadCacheResponse
        } else {
            command is ReadFirstReply
        },
        Stage::Receive { .. } => command is ReadPayload,
        Stage::Refuse { .. } => command matches Command::Send(Message::Error(_)),
    }
}

/// Whether a job goes on in a way that makes sense for it: a command comes
/// with a task of that job whose stage it suits, and the outcome is of the
/// kind that the job has.
pub open spec fn sound<U, E>(job: Job, next: Next<U, E>) -> bool {
    match next {
        Next::Do(command, task) => task.job == job && suits(command, task.stage),
        Next::Done(outcome) => outcome is Run <==> job is Run,
    }
}

/// Every job starts in a way that makes sense for it.
pub proof fn jobs_start_soundly<U, E>(session: Session)
    ensures
        sound(Job::Run, session.query_next::<U, E>(Job::Run)),
        sound(Job::Update, session.update_next::<U, E>()),
        sound(Job::Reset, session.reset_next::<U, E>(Job::Reset)),
{
}

/// The first query of a job is sent in the version that the client remembers
/// and asks for what the client needs: the changes to its state, or everything
/// if it has no state or was asked to reset.
pub proof fn first_query_fits_the_session<U, E>(session: Session, job: Job)
    ensures
        session.query_next::<U, E>(job) matches Next::Do(Command::Send(message), _)
            && message.version_of() == spoken(session) && match session.state {
            Some(state) => message matches Message::SerialQuery { state: named, .. } && named
                == state,
            None => message is ResetQuery,
        },
        session.reset_next::<U, E>(job) matches Next::Do(Command::Send(message), _)
            && message.version_of() == spoken(session) && message is ResetQuery,
{
}

/// Every job goes on in a way that makes sense for it.
pub proof fn jobs_go_on_soundly<T: VrpTarget, E>(
    before: Point<T, E>,
    event: Event<E>,
    after: Point<T, E>,
)
    requires
        follows(before, event, after),
    ensures
        sound(before.task().job, after.next),
{
}

/// The first reply to a query, whatever the query and the job, has the time
/// [`IO_TIMEOUT`] to arrive. What follows it, and what the client sends, has
/// all the time there is.
pub proof fn first_reply_has_its_time<T: VrpTarget, E>(
    before: Point<T, E>,
    event: Event<E>,
    after: Point<T, E>,
)
    requires
        follows(before, event, after),
        after.next is Do,
    ensures
        match after.task().stage {
            Stage::Notify => after.next->Do_0.time_limit() is Some,
            Stage::Reply { .. } => after.next->Do_0.time_limit() == Some(Wait::For(IO_TIMEOUT)),
            Stage::Query { .. } | Stage::Receive { .. } | Stage::Refuse { .. } => {
                after.next->Do_0.time_limit() is None
            },
        },
{
}

/// A job that asks for all data at once never sends a serial query.
pub proof fn reset_job_sends_no_serial_query<T: VrpTarget, E>(
    points: Seq<Point<T, E>>,
    events: Seq<Event<E>>,
    i: int,
)
    requires
        conversation(points, events),
        points[0].next == points[0].session.reset_next::<T::Update, E>(Job::Reset),
        0 <= i < points.len(),
    ensures
        points[i].next matches Next::Do(command, task) ==> task.job is Reset && in_reset(task.stage)
            && !(command matches Command::Send(Message::SerialQuery { .. })),
    decreases i,
{
    if i > 0 {
        reset_job_sends_no_serial_query(points, events, i - 1);
        assert(follows(points[i - 1], events[i - 1], points[i]));
    }
}

//------------ The version ---------------------------------------------------

/// Once the server has used a version, the client remembers that version for
/// good.
pub proof fn version_is_kept<T: VrpTarget, E>(
    points: Seq<Point<T, E>>,
    events: Seq<Event<E>>,
    i: int,
    j: int,
)
    requires
        conversation(points, events),
        0 <= i <= j < points.len(),
        points[i].session.version is Some,
    ensures
        points[j].session.version == points[i].session.version,
    decreases j - i,
{
    if i < j {
        version_is_kept(points, events, i, j - 1);
        assert(follows(points[j - 1], events[j - 1], points[j]));
    }
}

/// A PDU in a version that differs from the one remembered makes the job fail,
/// whatever PDU it is, and nothing else changes. If the version does not
/// differ, those PDUs that announce or hand over data make the client remember
/// it.
pub proof fn version_must_not_change<T: VrpTarget, E>(
    before: Point<T, E>,
    event: Event<E>,
    after: Point<T, E>,
    version: u8,
)
    requires
        follows(before, event, after),
        version_in(event) == Some(version),
    ensures
        acceptable(before.session, version) ==> after.session.version == if settles_version(event) {
            Some(version)
        } else {
            before.session.version
        },
        !acceptable(before.session, version) ==> {
            &&& after.next == given_up::<T::Update, E>(
                before.task().job,
                Failure::VersionChanged,
            )
            &&& after.target == before.target
            &&& after.session.state == before.session.state
            &&& after.session.version == before.session.version
            &&& after.session.timing == before.session.timing
        },
{
}

/// Whatever the client sends, it sends in the version that it remembers, and
/// in version 1 if there is none to remember.
pub proof fn messages_use_the_version<T: VrpTarget, E>(
    before: Point<T, E>,
    event: Event<E>,
    after: Point<T, E>,
    message: Message,
)
    requires
        follows(before, event, after),
        after.next matches Next::Do(Command::Send(sent), _) && sent == message,
    ensures
        message.version_of() == spoken(after.session),
{
}

/// Once the server has used a version, every message that follows is in that
/// version.
pub proof fn conversation_keeps_to_its_version<T: VrpTarget, E>(
    points: Seq<Point<T, E>>,
    events: Seq<Event<E>>,
    i: int,
    j: int,
    message: Message,
)
    requires
        conversation(points, events),
        0 <= i < j < points.len(),
        points[i].session.version is Some,
        points[j].next matches Next::Do(Command::Send(sent), _) && sent == message,
    ensures
        Some(message.version_of()) == points[i].session.version,
{
    version_is_kept(points, events, i, j);
    assert(follows(points[j - 1], events[j - 1], points[j]));
    messages_use_the_version(points[j - 1], events[j - 1], points[j], message);
}

//------------ Failures ------------------------------------------------------

/// A failure ends the job, whenever it happens.
pub proof fn failure_ends_the_job<T: VrpTarget, E>(
    before: Point<T, E>,
    event: Event<E>,
    after: Point<T, E>,
    failure: Failure<E>,
)
    requires
        follows(before, event, after),
        failure_of(before.task().stage, event) == Some(failure),
    ensures
        after.next == given_up::<T::Update, E>(before.task().job, failure),
{
}

/// A client that runs stops only because of a failure or because the server
/// has changed its version.
pub proof fn run_stops_on_failure_only<T: VrpTarget, E>(
    before: Point<T, E>,
    event: Event<E>,
    after: Point<T, E>,
)
    requires
        follows(before, event, after),
        before.task().job is Run,
        after.next is Done,
    ensures
        failure_of(before.task().stage, event) is Some || (version_in(event) matches Some(version)
            && !acceptable(before.session, version)),
{
}

/// A client that runs ends well if and only if the server has closed the
/// connection.
pub proof fn run_ends_well_when_closed<T: VrpTarget, E>(
    before: Point<T, E>,
    event: Event<E>,
    after: Point<T, E>,
)
    requires
        follows(before, event, after),
        before.task().job is Run,
    ensures
        after.next == Next::<T::Update, E>::Done(Outcome::Run(Ok(()))) <==> (failure_of(
            before.task().stage,
            event,
        ) matches Some(Failure::Io { eof: true, .. })),
{
}

/// Where a job fails, neither the target nor what the client remembers of the
/// data changes: what was received of the update is dropped.
pub proof fn failure_drops_the_update<T: VrpTarget, E>(
    before: Point<T, E>,
    event: Event<E>,
    after: Point<T, E>,
)
    requires
        follows(before, event, after),
        after.next matches Next::Done(outcome) && !(outcome matches Outcome::Update(Ok(_))),
    ensures
        after.target == before.target,
        after.session.state == before.session.state,
        after.session.version == before.session.version,
        after.session.timing == before.session.timing,
{
}

//------------ The state -----------------------------------------------------

/// The state changes only at the end of the data, to the state that is given
/// there, or in a cache reset, which makes the client forget it.
pub proof fn state_follows_the_server<T: VrpTarget, E>(
    before: Point<T, E>,
    event: Event<E>,
    after: Point<T, E>,
)
    requires
        follows(before, event, after),
    ensures
        match event {
            Event::Received(Ok(Received::End(end))) => if acceptable(before.session, end.version) {
                after.session.state == Some(end.state)
            } else {
                after.session.state == before.session.state
            },
            Event::FirstReply(Ok(Ok(FirstReply::Reset(refusal)))) => if acceptable(
                before.session,
                refusal.version,
            ) {
                after.session.state is None
            } else {
                after.session.state == before.session.state
            },
            _ => after.session.state == before.session.state,
        },
{
}

/// The timing changes only at the end of the data, and only if timing is given
/// there.
pub proof fn timing_follows_the_server<T: VrpTarget, E>(
    before: Point<T, E>,
    event: Event<E>,
    after: Point<T, E>,
)
    requires
        follows(before, event, after),
    ensures
        match event {
            Event::Received(Ok(Received::End(EndOfData { version, timing: Some(timing), .. }))) =>
            if acceptable(before.session, version) {
                after.session.timing == timing
            } else {
                after.session.timing == before.session.timing
            },
            _ => after.session.timing == before.session.timing,
        },
{
}

/// A serial query names the state that the client is in. A reset query is
/// sent only where there is no state or where all data was asked for.
pub proof fn queries_name_the_state<T: VrpTarget, E>(
    before: Point<T, E>,
    event: Event<E>,
    after: Point<T, E>,
)
    requires
        follows(before, event, after),
    ensures
        after.next matches Next::Do(Command::Send(Message::SerialQuery { state, .. }), _)
            ==> after.session.state == Some(state),
        after.next matches Next::Do(Command::Send(Message::ResetQuery { .. }), task)
            ==> after.session.state is None || task.job is Reset,
{
}

/// A cache reset in an acceptable version is answered with a reset query,
/// whatever the job.
pub proof fn cache_reset_leads_to_reset_query<T: VrpTarget, E>(
    before: Point<T, E>,
    event: Event<E>,
    after: Point<T, E>,
)
    requires
        follows(before, event, after),
        event matches Event::FirstReply(Ok(Ok(FirstReply::Reset(refusal))))
            && acceptable(before.session, refusal.version),
    ensures
        after.session == (Session { state: None, ..before.session }),
        after.target == before.target,
        after.next == after.session.reset_next::<T::Update, E>(before.task().job),
{
}

/// The point that is the same but for the state.
pub open spec fn with_state<T: VrpTarget, E>(
    point: Point<T, E>,
    state: Option<State>,
) -> Point<T, E> {
    Point { session: Session { state, ..point.session }, ..point }
}

/// How a reset query goes on does not depend on the state that the client is
/// in. The state stays what it is until the server gives a new one.
pub proof fn reset_query_ignores_the_state<T: VrpTarget, E>(
    before: Point<T, E>,
    event: Event<E>,
    after: Point<T, E>,
    state: Option<State>,
)
    requires
        follows(before, event, after),
        in_reset(before.task().stage),
    ensures
        follows(
            with_state(before, state),
            event,
            with_state(
                after,
                match event {
                    Event::Received(Ok(Received::End(end))) => if acceptable(
                        before.session,
                        end.version,
                    ) {
                        Some(end.state)
                    } else {
                        state
                    },
                    _ => state,
                },
            ),
        ),
{
    let job = before.task().job;
    let old = (before.session, before.target);
    let new = (after.session, after.target);
    match event {
        Event::CacheResponse(Ok(Ok(response))) => if acceptable(before.session, response.version) {
            announcement_starts_an_update(before, event, after);
            let other_old = (with_state(before, state).session, before.target);
            let other_new = (with_state(after, state).session, after.target);
            assert(other_old.1.starts(true, &other_new.1, &after.update()));
            assert(announced(before.origin, other_old, job, true, response, other_new, after.next));
        },
        Event::Received(Ok(Received::Vrp(pdu))) => if acceptable(
            before.session,
            pdu.header().version,
        ) {
            let content = pdu.content();
            let (pushed, result) = choose|pushed: T::Update, result| #[trigger]
                before.update().pushes(content.0, content.1, &pushed, result) && after.next
                    == after.session.pushed_next::<T::Update, E>(job, true, pushed, pdu, result);
            assert(before.update().pushes(content.0, content.1, &pushed, result));
        },
        Event::Received(Ok(Received::End(end))) => if acceptable(before.session, end.version)
            && job is Run {
            let timing = after.session.timing;
            let result = choose|result| #[trigger]
                old.1.applies(before.update(), true, timing, &new.1, result) && after.next
                    == after.session.applied_next::<T::Update, E>(job, true, result);
            assert(old.1.applies(before.update(), true, timing, &new.1, result));
        },
        _ => {},
    }
}

//------------ The target ----------------------------------------------------

/// The target is touched only when the server announces its data, to start an
/// update, and when a client that runs has got all of it, to apply the update.
pub proof fn target_is_left_alone<T: VrpTarget, E>(
    before: Point<T, E>,
    event: Event<E>,
    after: Point<T, E>,
)
    requires
        follows(before, event, after),
        !(before.task().stage is Reply && after.receiving()),
        !(before.task().job is Run && event matches Event::Received(Ok(Received::End(_)))),
    ensures
        after.target == before.target,
{
}

/// Payload that the client does not support changes nothing if it comes in an
/// acceptable version.
pub proof fn unsupported_payload_is_ignored<T: VrpTarget, E>(
    before: Point<T, E>,
    version: u8,
    after: Point<T, E>,
)
    requires
        follows(before, Event::Received(Ok(Received::Unsupported { version })), after),
        acceptable(before.session, version),
    ensures
        after.session == before.session,
        after.target == before.target,
        after.task() == before.task(),
        after.next == Next::<T::Update, E>::Do(Command::ReadPayload, before.task()),
{
}

/// The VRPs that some events bring, in the order in which they arrive.
pub open spec fn vrps<E>(events: Seq<Event<E>>) -> Seq<(Action, Payload)>
    decreases events.len(),
{
    if events.len() == 0 {
        Seq::empty()
    } else {
        match events.last() {
            Event::Received(Ok(Received::Vrp(pdu))) => vrps(events.drop_last()).push(pdu.content()),
            _ => vrps(events.drop_last()),
        }
    }
}

/// Whether an update may result from another one by pushing some VRPs to it,
/// one after the other, each of which is accepted.
pub open spec fn pushes_all<U: VrpUpdate>(
    before: U,
    vrps: Seq<(Action, Payload)>,
    after: U,
) -> bool
    decreases vrps.len(),
{
    if vrps.len() == 0 {
        after == before
    } else {
        exists|mid: U|
            pushes_all(before, vrps.drop_last(), mid) && #[trigger] mid.pushes(
                vrps.last().0,
                vrps.last().1,
                &after,
                Ok(()),
            )
    }
}

/// A VRP that arrives is pushed to the update. If that goes well, the next
/// piece of data is read.
proof fn vrp_is_pushed<T: VrpTarget, E>(
    before: Point<T, E>,
    pdu: pdu::Payload,
    after: Point<T, E>,
)
    requires
        follows(before, Event::Received(Ok(Received::Vrp(pdu))), after),
        after.receiving(),
    ensures
        before.update().pushes(pdu.content().0, pdu.content().1, &after.update(), Ok(())),
{
    let task = before.task();
    let reset = task.stage->Receive_reset;
    assert(acceptable(before.session, pdu.header().version));
    let (pushed, result) = choose|pushed: T::Update, result|
        #[trigger] before.update().pushes(pdu.content().0, pdu.content().1, &pushed, result)
            && after.next == after.session.pushed_next::<T::Update, E>(
            task.job,
            reset,
            pushed,
            pdu,
            result,
        );
    assert(after.next == after.session.pushed_next::<T::Update, E>(
        task.job,
        reset,
        pushed,
        pdu,
        result,
    ));
    assert(result->Ok_0 == ());
}

/// While data is being received, each VRP is pushed to the update as it
/// arrives: all of them, unfiltered, in their order and nothing else. The job,
/// the kind of the query and the target stay the same.
pub proof fn update_gets_what_arrives<T: VrpTarget, E>(
    points: Seq<Point<T, E>>,
    events: Seq<Event<E>>,
)
    requires
        conversation(points, events),
        forall|i: int| 0 <= i < points.len() ==> (#[trigger] points[i]).receiving(),
    ensures
        pushes_all(points[0].update(), vrps(events), points.last().update()),
        points.last().task() == (Task {
            job: points[0].task().job,
            stage: Stage::Receive {
                reset: points[0].task().stage->Receive_reset,
                update: points.last().update(),
            },
        }),
        points.last().target == points[0].target,
        points.last().session.state == points[0].session.state,
        points.last().session.timing == points[0].session.timing,
        points.last().session.next_update == points[0].session.next_update,
    decreases events.len(),
{
    if events.len() > 0 {
        let n = events.len() - 1;
        let front = points.drop_last();
        assert forall|i: int| 0 <= i < events.drop_last().len() implies follows(
            front[i],
            #[trigger] events.drop_last()[i],
            front[i + 1],
        ) by {
            assert(follows(points[i], events[i], points[i + 1]));
        }
        update_gets_what_arrives(front, events.drop_last());
        let before = points[n];
        let after = points[n + 1];
        assert(front.last() == before);
        assert(follows(before, events[n], after));
        assert(before.receiving() && after.receiving());
        if let Event::Received(Ok(Received::Vrp(pdu))) = events[n] {
            assert(vrps(events).drop_last() =~= vrps(events.drop_last()));
            assert(pushes_all(points[0].update(), vrps(events).drop_last(), before.update()));
            vrp_is_pushed(before, pdu, after);
            let last = vrps(events).last();
            assert(before.update().pushes(last.0, last.1, &after.update(), Ok(())));
            assert(pushes_all(points[0].update(), vrps(events), after.update()));
        } else {
            assert(after.update() == before.update());
        }
    }
}

/// The point of a client that receives the data of a query of the given kind
/// and is the same in everything else.
pub open spec fn with_query<T: VrpTarget, E>(point: Point<T, E>, reset: bool) -> Point<T, E> {
    Point {
        next: Next::Do(
            point.next->Do_0,
            Task {
                job: point.task().job,
                stage: Stage::Receive { reset, update: point.update() },
            },
        ),
        ..point
    }
}

/// As long as data is being received, it is treated in the same way for serial
/// queries and for reset queries.
pub proof fn queries_treat_data_alike<T: VrpTarget, E>(
    before: Point<T, E>,
    event: Event<E>,
    after: Point<T, E>,
    reset: bool,
)
    requires
        follows(before, event, after),
        before.receiving(),
        after.receiving(),
    ensures
        follows(with_query(before, reset), event, with_query(after, reset)),
{
}

/// An update that is a plain vector ends up with exactly the VRPs that have
/// arrived, behind what was there at the start.
pub proof fn vector_holds_what_arrives<T: VrpTarget<Update = Vec<(Action, Payload)>>, E>(
    points: Seq<Point<T, E>>,
    events: Seq<Event<E>>,
)
    requires
        conversation(points, events),
        forall|i: int| 0 <= i < points.len() ==> (#[trigger] points[i]).receiving(),
    ensures
        points.last().update()@ == points[0].update()@ + vrps(events),
{
    update_gets_what_arrives(points, events);
    vector_pushes_all(points[0].update(), vrps(events), points.last().update());
}

/// Pushing VRPs to a vector appends them.
proof fn vector_pushes_all(
    before: Vec<(Action, Payload)>,
    vrps: Seq<(Action, Payload)>,
    after: Vec<(Action, Payload)>,
)
    requires
        pushes_all(before, vrps, after),
    ensures
        after@ == before@ + vrps,
    decreases vrps.len(),
{
    if vrps.len() > 0 {
        let mid = choose|mid: Vec<(Action, Payload)>|
            pushes_all(before, vrps.drop_last(), mid) && #[trigger] mid.pushes(
                vrps.last().0,
                vrps.last().1,
                &after,
                Ok(()),
            );
        vector_pushes_all(before, vrps.drop_last(), mid);
        assert(after@ =~= before@ + vrps);
    } else {
        assert(after@ =~= before@ + vrps);
    }
}

/// When the server announces its data, an update is started, and the target is
/// told for what kind of query.
pub proof fn announcement_starts_an_update<T: VrpTarget, E>(
    before: Point<T, E>,
    event: Event<E>,
    after: Point<T, E>,
)
    requires
        follows(before, event, after),
        before.task().stage is Reply,
        after.receiving(),
    ensures
        before.target.starts(
            before.task().stage->Reply_reset,
            &after.target,
            &after.update(),
        ),
        after.task() == (Task {
            job: before.task().job,
            stage: Stage::Receive {
                reset: before.task().stage->Reply_reset,
                update: after.update(),
            },
        }),
{
    let job = before.task().job;
    let reset = before.task().stage->Reply_reset;
    let update = choose|update: T::Update| #[trigger]
        before.target.starts(reset, &after.target, &update) && after.next
            == after.session.receive_next::<T::Update, E>(job, reset, update);
    assert(after.next == after.session.receive_next::<T::Update, E>(job, reset, update));
}

/// An exchange hands over what the server has sent. The update that is started
/// for it gets every VRP in the order of their arrival. Then the client takes
/// over the state and the timing, and the update is applied if the client
/// runs, with the flag that it was started with, and returned if not.
pub proof fn exchange_hands_over_the_data<T: VrpTarget, E>(
    points: Seq<Point<T, E>>,
    events: Seq<Event<E>>,
    end: EndOfData,
)
    requires
        conversation(points, events),
        events.len() >= 2,
        points[0].task().stage is Reply,
        forall|i: int| 1 <= i < events.len() ==> (#[trigger] points[i]).receiving(),
        events.last() == Event::<E>::Received(Ok(Received::End(end))),
        acceptable(points[events.len() - 1].session, end.version),
    ensures
        ({
            let job = points[0].task().job;
            let reset = points[0].task().stage->Reply_reset;
            let started = points[1];
            let filled = points[events.len() - 1];
            let done = points.last();
            &&& points[0].target.starts(reset, &started.target, &started.update())
            &&& pushes_all(
                started.update(),
                vrps(events.subrange(1, events.len() - 1)),
                filled.update(),
            )
            &&& completed(
                filled.origin,
                (
                    Session {
                        state: Some(end.state),
                        version: Some(end.version),
                        timing: match end.timing {
                            Some(timing) => timing,
                            None => points[0].session.timing,
                        },
                        next_update: points[0].session.next_update,
                    },
                    started.target,
                ),
                job,
                reset,
                filled.update(),
                (done.session, done.target),
                done.next,
            )
        }),
{
    let n = events.len() as int;
    assert(follows(points[0], events[0], points[1]));
    assert(points[1].receiving());
    announcement_starts_an_update(points[0], events[0], points[1]);
    let middle = points.subrange(1, n);
    let arriving = events.subrange(1, n - 1);
    assert forall|i: int| 0 <= i < arriving.len() implies follows(
        middle[i],
        #[trigger] arriving[i],
        middle[i + 1],
    ) by {
        assert(follows(points[i + 1], events[i + 1], points[i + 2]));
    }
    assert forall|i: int| 0 <= i < middle.len() implies (#[trigger] middle[i]).receiving() by {
        assert(points[i + 1].receiving());
    }
    update_gets_what_arrives(middle, arriving);
    assert(middle[0] == points[1]);
    assert(middle.last() == points[n - 1]);
    assert(follows(points[n - 1], events[n - 1], points[n]));
}

/// A VRP that the update does not accept is reported to the server, together
/// with the PDU that brought it. Sending the report is the last thing to
/// happen: then the job has failed.
pub proof fn rejected_vrp_is_reported<T: VrpTarget, E>(
    before: Point<T, E>,
    pdu: pdu::Payload,
    after: Point<T, E>,
)
    requires
        follows(before, Event::Received(Ok(Received::Vrp(pdu))), after),
        acceptable(before.session, pdu.header().version),
        !after.receiving(),
    ensures
        exists|update: T::Update, error: VrpError| #[trigger]
            before.update().pushes(pdu.content().0, pdu.content().1, &update, Err(error))
                && after.next == Next::<T::Update, E>::Do(
                Command::Send(
                    Message::Error(
                        pdu::Error {
                            version: pdu.header().version,
                            code: error.code(),
                            pdu: Some(pdu),
                        },
                    ),
                ),
                Task {
                    job: before.task().job,
                    stage: Stage::Refuse { reset: before.task().stage->Receive_reset },
                },
            ),
{
    let task = before.task();
    let reset = task.stage->Receive_reset;
    let (pushed, result) = choose|pushed: T::Update, result|
        #[trigger] before.update().pushes(pdu.content().0, pdu.content().1, &pushed, result)
            && after.next == after.session.pushed_next::<T::Update, E>(
            task.job,
            reset,
            pushed,
            pdu,
            result,
        );
    assert(after.next == after.session.pushed_next::<T::Update, E>(
        task.job,
        reset,
        pushed,
        pdu,
        result,
    ));
    let error = result->Err_0;
    assert(before.update().pushes(pdu.content().0, pdu.content().1, &pushed, Err(error)));
}

/// An update that the target does not accept is reported to the server.
pub proof fn rejected_update_is_reported<T: VrpTarget, E>(
    before: Point<T, E>,
    end: EndOfData,
    after: Point<T, E>,
)
    requires
        follows(before, Event::Received(Ok(Received::End(end))), after),
        before.task().job is Run,
        acceptable(before.session, end.version),
        !(after.next matches Next::Do(Command::AwaitNotify(_), _)),
    ensures
        exists|error: VrpError| #[trigger]
            before.target.applies(
                before.update(),
                before.task().stage->Receive_reset,
                after.session.timing,
                &after.target,
                Err(error),
            ) && after.next == Next::<T::Update, E>::Do(
                Command::Send(
                    Message::Error(
                        pdu::Error { version: end.version, code: error.code(), pdu: None },
                    ),
                ),
                Task {
                    job: Job::Run,
                    stage: Stage::Refuse { reset: before.task().stage->Receive_reset },
                },
            ),
{
    let reset = before.task().stage->Receive_reset;
    let result = choose|result| #[trigger]
        before.target.applies(before.update(), reset, after.session.timing, &after.target, result)
            && after.next == after.session.applied_next::<T::Update, E>(Job::Run, reset, result);
    assert(after.next == after.session.applied_next::<T::Update, E>(Job::Run, reset, result));
    let error = result->Err_0;
    assert(before.target.applies(
        before.update(),
        reset,
        after.session.timing,
        &after.target,
        Err(error),
    ));
}

/// Different errors have different codes.
pub proof fn error_codes_differ(a: VrpError, b: VrpError)
    requires
        a != b,
    ensures
        a.code() != b.code(),
{
}

//------------ Waiting -------------------------------------------------------

/// A query follows the wait, whether or not the server has notified the client,
/// as long as it does so in an acceptable version.
pub proof fn wait_leads_to_a_query<T: VrpTarget, E>(
    before: Point<T, E>,
    event: Event<E>,
    after: Point<T, E>,
)
    requires
        follows(before, event, after),
        before.task().stage is Notify,
        failure_of(before.task().stage, event) is None,
        version_in(event) matches Some(version) ==> acceptable(before.session, version),
    ensures
        after.session == before.session,
        after.target == before.target,
        after.next == before.session.query_next::<T::Update, E>(before.task().job),
{
}

/// As a job goes on, the client waits for a notification only where it runs and
/// has applied an update, and then for the refresh time that it was told last.
pub proof fn run_waits_for_the_refresh_time<T: VrpTarget, E>(
    before: Point<T, E>,
    event: Event<E>,
    after: Point<T, E>,
    wait: Wait,
)
    requires
        follows(before, event, after),
        after.next matches Next::Do(Command::AwaitNotify(given), _) && given == wait,
    ensures
        wait == Wait::For(after.session.timing.refresh),
        before.task().job is Run,
        before.target.applies(
            before.update(),
            before.task().stage->Receive_reset,
            after.session.timing,
            &after.target,
            Ok(()),
        ),
{
    let task = before.task();
    let reset = task.stage->Receive_reset;
    let result = choose|result| #[trigger]
        before.target.applies(before.update(), reset, after.session.timing, &after.target, result)
            && after.next == after.session.applied_next::<T::Update, E>(task.job, reset, result);
    assert(after.next == after.session.applied_next::<T::Update, E>(task.job, reset, result));
    assert(result->Ok_0 == ());
}

/// When the next update is due changes only when a job is done.
pub proof fn due_time_is_set_at_the_end<T: VrpTarget, E>(
    before: Point<T, E>,
    event: Event<E>,
    after: Point<T, E>,
)
    requires
        follows(before, event, after),
        after.next is Do,
    ensures
        after.session.next_update == before.session.next_update,
{
}

/// A single update is put off when it is done, if it was successful or if it
/// has fallen back to a reset query. Otherwise nothing is put off.
pub proof fn single_update_is_put_off<T: VrpTarget, E>(
    before: Point<T, E>,
    event: Event<E>,
    after: Point<T, E>,
    result: Result<T::Update, Failure<E>>,
)
    requires
        follows(before, event, after),
        before.task().job is Update,
        after.next == Next::<T::Update, E>::Done(Outcome::Update(result)),
    ensures
        result is Ok || in_reset(before.task().stage) ==> {
            &&& after.session.next_update matches Some(due)
            &&& after.session.timing.refresh * NANOS_PER_SEC <= due.nanos
        },
        result is Err && !in_reset(before.task().stage) ==> after.session == before.session,
{
}

/// A single update that was put off at some moment is next waited for until
/// the refresh time has passed from that moment.
pub proof fn put_off_update_is_waited_for<U, E>(session: Session, now: Moment)
    requires
        now.nanos <= MAX_NANOS,
    ensures
        session.scheduled_at(now).update_next::<U, E>() == Next::<U, E>::Do(
            Command::AwaitNotify(
                Wait::Until(
                    Moment { nanos: (now.nanos + session.timing.refresh * NANOS_PER_SEC) as u128 },
                ),
            ),
            Task { job: Job::Update, stage: Stage::Notify },
        ),
        now.nanos + session.timing.refresh * NANOS_PER_SEC <= u128::MAX,
{
}

//------------ The wire ------------------------------------------------------

/// The bytes of a header determine the header.
pub proof fn header_bytes_are_unique(a: Header, b: Header)
    requires
        a.bytes() == b.bytes(),
    ensures
        a == b,
{
    be_fields(a);
    be_fields(b);
    assert(a.bytes()[0] == b.bytes()[0]);
    assert(a.bytes()[1] == b.bytes()[1]);
}

/// A header has eight bytes, and its fields can be read back from them.
proof fn be_fields(header: Header)
    ensures
        header.bytes().len() == 8,
        header.bytes()[0] == header.version,
        header.bytes()[1] == header.pdu,
        be_value(header.bytes().subrange(2, 4)) == header.session,
        be_value(header.bytes().subrange(4, 8)) == header.length,
{
    lemma_be_limits();
    lemma_be_bytes_len(header.session as nat, 2);
    lemma_be_bytes_len(header.length as nat, 4);
    lemma_value_of_bytes(header.session as nat, 2);
    lemma_value_of_bytes(header.length as nat, 4);
    assert(header.bytes().subrange(2, 4) =~= be_bytes(header.session as nat, 2));
    assert(header.bytes().subrange(4, 8) =~= be_bytes(header.length as nat, 4));
}

/// Two sequences that start with as many bytes are equal only part by part.
proof fn prefix_is_unique(a: Seq<u8>, x: Seq<u8>, b: Seq<u8>, y: Seq<u8>)
    requires
        a.len() == b.len(),
        a + x == b + y,
    ensures
        a == b,
        x == y,
{
    assert((a + x).take(a.len() as int) =~= a);
    assert((b + y).take(a.len() as int) =~= b);
    assert((a + x).skip(a.len() as int) =~= x);
    assert((b + y).skip(a.len() as int) =~= y);
}

/// Two sequences that end with a number are equal only if they are equal up to
/// the number and the numbers are equal.
proof fn be_suffix_is_unique(a: Seq<u8>, x: nat, b: Seq<u8>, y: nat, width: nat)
    requires
        x < be_limit(width),
        y < be_limit(width),
        a + be_bytes(x, width) == b + be_bytes(y, width),
    ensures
        a == b,
        x == y,
{
    lemma_be_bytes_len(x, width);
    lemma_be_bytes_len(y, width);
    lemma_value_of_bytes(x, width);
    lemma_value_of_bytes(y, width);
    assert((a + be_bytes(x, width)).len() == a.len() + width);
    assert((b + be_bytes(y, width)).len() == b.len() + width);
    prefix_is_unique(a, be_bytes(x, width), b, be_bytes(y, width));
}

/// The bytes of a payload PDU determine the PDU.
pub proof fn payload_bytes_are_unique(a: pdu::Payload, b: pdu::Payload)
    requires
        a.bytes() == b.bytes(),
    ensures
        a == b,
{
    lemma_payload_size(a);
    lemma_payload_size(b);
    lemma_be_limits();
    be_fields(a.header());
    be_fields(b.header());
    let ha = a.header().bytes();
    let hb = b.header().bytes();
    match (a, b) {
        (pdu::Payload::V4(p), pdu::Payload::V4(q)) => {
            let fp = seq![p.flags, p.prefix_len, p.max_len, p.zero];
            let fq = seq![q.flags, q.prefix_len, q.max_len, q.zero];
            be_suffix_is_unique(
                ha + fp + be_bytes(p.prefix as nat, 4),
                p.asn as nat,
                hb + fq + be_bytes(q.prefix as nat, 4),
                q.asn as nat,
                4,
            );
            be_suffix_is_unique(ha + fp, p.prefix as nat, hb + fq, q.prefix as nat, 4);
            prefix_is_unique(ha, fp, hb, fq);
            header_bytes_are_unique(p.header, q.header);
            assert(fp[0] == fq[0] && fp[1] == fq[1] && fp[2] == fq[2] && fp[3] == fq[3]);
        },
        (pdu::Payload::V6(p), pdu::Payload::V6(q)) => {
            let fp = seq![p.flags, p.prefix_len, p.max_len, p.zero];
            let fq = seq![q.flags, q.prefix_len, q.max_len, q.zero];
            be_suffix_is_unique(
                ha + fp + be_bytes(p.prefix as nat, 16),
                p.asn as nat,
                hb + fq + be_bytes(q.prefix as nat, 16),
                q.asn as nat,
                4,
            );
            be_suffix_is_unique(ha + fp, p.prefix as nat, hb + fq, q.prefix as nat, 16);
            prefix_is_unique(ha, fp, hb, fq);
            header_bytes_are_unique(p.header, q.header);
            assert(fp[0] == fq[0] && fp[1] == fq[1] && fp[2] == fq[2] && fp[3] == fq[3]);
        },
        _ => {},
    }
}

/// The header with which an end of data starts.
spec fn end_header(end: EndOfData) -> Header {
    Header {
        version: end.version,
        pdu: END_OF_DATA,
        session: end.state.session,
        length: if end.timing is None {
            12
        } else {
            24
        },
    }
}

/// The bytes of an end of data determine it.
pub proof fn end_bytes_are_unique(a: EndOfData, b: EndOfData)
    requires
        a.bytes() == b.bytes(),
    ensures
        a == b,
{
    lemma_be_limits();
    let ha = end_header(a);
    let hb = end_header(b);
    be_fields(ha);
    be_fields(hb);
    assert(a.bytes().take(8) =~= ha.bytes());
    assert(b.bytes().take(8) =~= hb.bytes());
    header_bytes_are_unique(ha, hb);
    let sa = ha.bytes() + be_bytes(a.state.serial as nat, 4);
    let sb = hb.bytes() + be_bytes(b.state.serial as nat, 4);
    match (a.timing, b.timing) {
        (Some(t), Some(u)) => {
            let (x1, x2, x3) = (
                be_bytes(t.refresh as nat, 4),
                be_bytes(t.retry as nat, 4),
                be_bytes(t.expire as nat, 4),
            );
            let (y1, y2, y3) = (
                be_bytes(u.refresh as nat, 4),
                be_bytes(u.retry as nat, 4),
                be_bytes(u.expire as nat, 4),
            );
            assert(a.bytes() =~= sa + x1 + x2 + x3);
            assert(b.bytes() =~= sb + y1 + y2 + y3);
            be_suffix_is_unique(sa + x1 + x2, t.expire as nat, sb + y1 + y2, u.expire as nat, 4);
            be_suffix_is_unique(sa + x1, t.retry as nat, sb + y1, u.retry as nat, 4);
            be_suffix_is_unique(sa, t.refresh as nat, sb, u.refresh as nat, 4);
        },
        _ => {
            assert(a.bytes() =~= sa);
            assert(b.bytes() =~= sb);
        },
    }
    be_suffix_is_unique(
        ha.bytes(),
        a.state.serial as nat,
        hb.bytes(),
        b.state.serial as nat,
        4,
    );
}

/// The length that the header of a message gives is the number of bytes that
/// the message has.
pub proof fn message_length_is_right(message: Message)
    ensures
        be_value(message.bytes().subrange(4, 8)) == message.bytes().len(),
{
    let header = match message {
        Message::SerialQuery { version, state } => Header {
            version,
            pdu: SERIAL_QUERY,
            session: state.session,
            length: 12,
        },
        Message::ResetQuery { version } => Header {
            version,
            pdu: RESET_QUERY,
            session: 0,
            length: 8,
        },
        Message::Error(report) => Header {
            version: report.version,
            pdu: ERROR,
            session: report.code,
            length: (16 + report.cause().len()) as u32,
        },
    };
    be_fields(header);
    assert(message.bytes().subrange(4, 8) =~= header.bytes().subrange(4, 8));
    match message {
        Message::SerialQuery { state, .. } => {
            lemma_be_bytes_len(state.serial as nat, 4);
        },
        Message::ResetQuery { .. } => {},
        Message::Error(report) => {
            lemma_be_bytes_len(report.cause().len(), 4);
            lemma_be_bytes_len(0, 4);
            if let Some(pdu) = report.pdu {
                lemma_payload_size(pdu);
            }
        },
    }
}

/// A report of a VRP that was not accepted holds the bytes of the PDU that
/// brought it, just as they were received.
pub proof fn report_holds_the_pdu(
    header: Header,
    body: Seq<u8>,
    pdu: pdu::Payload,
    report: pdu::Error,
)
    requires
        pdu.bytes() == header.bytes() + body,
        report.pdu == Some(pdu),
    ensures
        Message::Error(report).bytes().subrange(12, 12 + pdu.size()) == header.bytes() + body,
{
    be_fields(
        Header {
            version: report.version,
            pdu: ERROR,
            session: report.code,
            length: (16 + report.cause().len()) as u32,
        },
    );
    lemma_be_bytes_len(report.cause().len(), 4);
    lemma_payload_size(pdu);
    assert(Message::Error(report).bytes().subrange(12, 12 + pdu.size()) =~= pdu.bytes());
}

} // verus!
