//! The RTR client.
//!
//! This module implements a generic RTR client through [`Client`]. In order
//! to use the client, you will need to provide a type that implements
//! [`VrpTarget`] as well as one that implements
//! [`VrpUpdate`]. The former represents the place where
//! all the information received via the RTR client is stored, while the
//! latter receives a set of updates and applies it to the target.
use crate::clock::{present, shows, Moment, MAX_NANOS};
use crate::failure::Failure;
use crate::pdu::{CacheResponse, EndOfData, Payload, Received};
use crate::session::{
    try_io, Command, Event, FirstReply, Job, Next, Outcome, Session, Stage, Task, Wait,
};
use crate::state::State;
pub use crate::target::{VrpError, VrpTarget, VrpUpdate};
use tokio::time::Instant;
use vstd::pervasive::unreached;
use vstd::prelude::*;

verus! {

//------------ Transitions ---------------------------------------------------

/// Whether `after` is what a session becomes when its next update is put off:
/// the refresh time is counted from a moment that the clock shows.
pub open spec fn put_off_from(origin: Instant, before: Session, after: Session) -> bool {
    &&& before.scheduled(after)
    &&& exists|now: Moment| #[trigger]
        shows(origin, now) && now.nanos <= MAX_NANOS && after == before.scheduled_at(now)
}

/// How a job goes on when something has failed.
///
/// The failure is what comes of the job. A single update that has fallen back
/// to a reset query is put off all the same.
pub open spec fn failed<U, E>(
    origin: Instant,
    before: Session,
    job: Job,
    reset: bool,
    failure: Failure<E>,
    after: Session,
    next: Next<U, E>,
) -> bool {
    &&& next == Next::Done(job.failing::<U, E>(failure))
    &&& if job is Update && reset {
        put_off_from(origin, before, after)
    } else {
        after == before
    }
}

/// How a job goes on when the server has announced its data.
///
/// If it does so in an acceptable version, an update is started.
pub open spec fn announced<T: VrpTarget, E>(
    origin: Instant,
    before: (Session, T),
    job: Job,
    reset: bool,
    response: CacheResponse,
    after: (Session, T),
    next: Next<T::Update, E>,
) -> bool {
    if before.0.agrees(response.version) {
        &&& after.0 == before.0.having_heard(response.version)
        &&& exists|update: T::Update| #[trigger]
            before.1.starts(reset, &after.1, &update) && next == after.0.receive_next::<
                T::Update,
                E,
            >(job, reset, update)
    } else {
        &&& after.1 == before.1
        &&& failed(origin, before.0, job, reset, Failure::VersionChanged, after.0, next)
    }
}

/// How a job goes on when the server has sent a VRP.
///
/// If it does so in an acceptable version, the VRP is pushed to the update.
pub open spec fn delivered<T: VrpTarget, E>(
    origin: Instant,
    before: (Session, T),
    job: Job,
    reset: bool,
    update: T::Update,
    pdu: Payload,
    after: (Session, T),
    next: Next<T::Update, E>,
) -> bool {
    &&& after.1 == before.1
    &&& if before.0.agrees(pdu.header().version) {
        &&& after.0 == before.0.having_heard(pdu.header().version)
        &&& exists|pushed: T::Update, result|
            #[trigger] update.pushes(pdu.content().0, pdu.content().1, &pushed, result) && next
                == after.0.pushed_next::<T::Update, E>(job, reset, pushed, pdu, result)
    } else {
        failed(origin, before.0, job, reset, Failure::VersionChanged, after.0, next)
    }
}

/// How a job goes on when an update is complete.
///
/// A client that runs applies it. Otherwise it is what comes of the job.
pub open spec fn completed<T: VrpTarget, E>(
    origin: Instant,
    before: (Session, T),
    job: Job,
    reset: bool,
    update: T::Update,
    after: (Session, T),
    next: Next<T::Update, E>,
) -> bool {
    match job {
        Job::Run => {
            &&& after.0 == before.0
            &&& exists|result| #[trigger]
                before.1.applies(update, reset, before.0.timing, &after.1, result) && next
                    == before.0.applied_next::<T::Update, E>(job, reset, result)
        },
        Job::Update => {
            &&& after.1 == before.1
            &&& put_off_from(origin, before.0, after.0)
            &&& next == Next::<T::Update, E>::Done(Outcome::Update(Ok(update)))
        },
        Job::Reset => {
            &&& after == before
            &&& next == Next::<T::Update, E>::Done(Outcome::Update(Ok(update)))
        },
    }
}

/// How a job goes on when the server has sent all its data.
pub open spec fn ended<T: VrpTarget, E>(
    origin: Instant,
    before: (Session, T),
    job: Job,
    reset: bool,
    update: T::Update,
    end: EndOfData,
    after: (Session, T),
    next: Next<T::Update, E>,
) -> bool {
    if before.0.agrees(end.version) {
        completed(origin, (before.0.having_ended(end), before.1), job, reset, update, after, next)
    } else {
        &&& after.1 == before.1
        &&& failed(origin, before.0, job, reset, Failure::VersionChanged, after.0, next)
    }
}

/// How a task goes on after an event: what the session and the target become
/// and what is to be done next.
pub open spec fn transition<T: VrpTarget, E>(
    origin: Instant,
    before: (Session, T),
    task: Task<T::Update>,
    event: Event<E>,
    after: (Session, T),
    next: Next<T::Update, E>,
) -> bool {
    let job = task.job;
    match (task.stage, event) {
        (Stage::Notify, Event::Notified(Ok(Err(failure)))) => {
            &&& after.1 == before.1
            &&& failed(origin, before.0, job, false, failure, after.0, next)
        },
        (Stage::Notify, Event::Notified(Ok(Ok(notify)))) => {
            &&& after.1 == before.1
            &&& if before.0.agrees(notify.version) {
                &&& after.0 == before.0
                &&& next == before.0.query_next::<T::Update, E>(job)
            } else {
                failed(origin, before.0, job, false, Failure::VersionChanged, after.0, next)
            }
        },
        (Stage::Notify, Event::Notified(Err(_))) => {
            &&& after == before
            &&& next == before.0.query_next::<T::Update, E>(job)
        },
        (Stage::Query { reset }, Event::Sent(Ok(()))) => {
            &&& after == before
            &&& next == Next::<T::Update, E>::Do(
                if reset {
                    Command::ReadCacheResponse
                } else {
                    Command::ReadFirstReply
                },
                Task { job, stage: Stage::Reply { reset } },
            )
        },
        (Stage::Query { reset }, Event::Sent(Err(failure))) => {
            &&& after.1 == before.1
            &&& failed(origin, before.0, job, reset, failure, after.0, next)
        },
        (Stage::Reply { reset }, Event::FirstReply(outcome)) => match crate::session::timely(
            outcome,
        ) {
            Ok(FirstReply::Response(response)) => announced(
                origin,
                before,
                job,
                reset,
                response,
                after,
                next,
            ),
            Ok(FirstReply::Reset(refusal)) => if before.0.agrees(refusal.version) {
                &&& after == (Session { state: None, ..before.0 }, before.1)
                &&& next == after.0.reset_next::<T::Update, E>(job)
            } else {
                &&& after.1 == before.1
                &&& failed(origin, before.0, job, reset, Failure::VersionChanged, after.0, next)
            },
            Err(failure) => {
                &&& after.1 == before.1
                &&& failed(origin, before.0, job, reset, failure, after.0, next)
            },
        },
        (Stage::Reply { reset }, Event::CacheResponse(outcome)) => match crate::session::timely(
            outcome,
        ) {
            Ok(response) => announced(origin, before, job, reset, response, after, next),
            Err(failure) => {
                &&& after.1 == before.1
                &&& failed(origin, before.0, job, reset, failure, after.0, next)
            },
        },
        (Stage::Receive { reset, update }, Event::Received(Ok(received))) => match received {
            Received::Vrp(pdu) => delivered(origin, before, job, reset, update, pdu, after, next),
            Received::Unsupported { version } => if before.0.agrees(version) {
                &&& after == before
                &&& next == before.0.receive_next::<T::Update, E>(job, reset, update)
            } else {
                &&& after.1 == before.1
                &&& failed(origin, before.0, job, reset, Failure::VersionChanged, after.0, next)
            },
            Received::End(end) => ended(origin, before, job, reset, update, end, after, next),
        },
        (Stage::Receive { reset, .. }, Event::Received(Err(failure))) => {
            &&& after.1 == before.1
            &&& failed(origin, before.0, job, reset, failure, after.0, next)
        },
        (Stage::Refuse { reset }, Event::Sent(result)) => {
            &&& after.1 == before.1
            &&& failed(
                origin,
                before.0,
                job,
                reset,
                match result {
                    Ok(()) => Failure::Rejected,
                    Err(failure) => failure,
                },
                after.0,
                next,
            )
        },
        _ => false,
    }
}

//------------ Client --------------------------------------------------------

/// An RTR client.
///
/// The client wraps a socket, represented by the type argument `Sock`, and
/// runs an RTR client over it. All data received will be passed on to a
/// [`VrpTarget`] of type `Target`.
///
/// The client itself never touches the socket. The methods that start a job
/// return a [`Command`] and a [`Task`]. Whoever drives the client carries out
/// the command and hands the task back to [`Client::step`] together with what
/// came of it, until the job is done.
pub struct Client<Sock, Target> {
    /// The socket to communicate over.
    sock: Sock,

    /// The target for the VRP set.
    target: Target,

    /// What is known of the server.
    session: Session,

    /// When the client was made.
    origin: Instant,
}

/// The parts of a client.
pub struct ClientView<Sock, Target> {
    pub sock: Sock,
    pub target: Target,
    pub session: Session,
    pub origin: Instant,
}

impl<Sock, Target> View for Client<Sock, Target> {
    type V = ClientView<Sock, Target>;

    closed spec fn view(&self) -> ClientView<Sock, Target> {
        ClientView {
            sock: self.sock,
            target: self.target,
            session: self.session,
            origin: self.origin,
        }
    }
}

impl<Sock, Target> ClientView<Sock, Target> {
    /// The parts that change as a job goes on.
    pub open spec fn memory(self) -> (Session, Target) {
        (self.session, self.target)
    }

    /// Whether the parts that do not change as a job goes on are the same.
    pub open spec fn same_frame(self, other: ClientView<Sock, Target>) -> bool {
        &&& self.sock == other.sock
        &&& self.origin == other.origin
    }
}

/// The view of a client shows its parts as they are.
proof fn view_shows_the_parts<Sock, Target>(client: Client<Sock, Target>)
    ensures
        client@.sock == client.sock,
        client@.target == client.target,
        client@.session == client.session,
        client@.origin == client.origin,
        client@.memory() == (client.session, client.target),
{
}

impl<Sock, Target> Client<Sock, Target> {
    /// Creates a new client.
    ///
    /// The client will use `sock` for communicating with the server and
    /// `target` to send updates to.
    ///
    /// If the last state of a connection with this server is known (it can be
    /// determined by calling [`Client::state`] on the client), it can be
    /// reused via the `state` argument. Make sure to also have the matching
    /// data in your target in this case since there will not necessarily be a
    /// reset update. If you don't have any state or don't want to reuse an
    /// earlier session, simply pass `None`.
    pub fn new(sock: Sock, target: Target, state: Option<State>) -> (client: Self)
        ensures
            client@.sock == sock,
            client@.target == target,
            client@.session == Session::fresh(state),
            client@.session.state == state,
    {
        Client { sock, target, session: Session::new(state), origin: Instant::now() }
    }

    /// Returns a reference to the target.
    pub fn target(&self) -> (target: &Target)
        ensures
            *target == self@.target,
    {
        &self.target
    }

    /// Returns a mutable reference to the target.
    pub fn target_mut(&mut self) -> (target: &mut Target)
        ensures
            *target == old(self)@.target,
            final(self)@ == (ClientView { target: *final(target), ..old(self)@ }),
    {
        &mut self.target
    }

    /// Converts the client into its target.
    pub fn into_target(self) -> (target: Target)
        ensures
            target == self@.target,
    {
        self.target
    }

    /// Returns the current state of the session.
    ///
    /// The method will return `None` if there hasn't been initial state and
    /// there has not been any conversation with the server yet.
    pub fn state(&self) -> (state: Option<State>)
        ensures
            state == self@.session.state,
    {
        self.session.state
    }

    /// Returns what is known of the server.
    pub fn session(&self) -> (session: Session)
        ensures
            session == self@.session,
    {
        self.session
    }

    /// Returns a mutable reference to the socket.
    pub fn sock_mut(&mut self) -> (sock: &mut Sock)
        ensures
            *sock == old(self)@.sock,
            final(self)@ == (ClientView { sock: *final(sock), ..old(self)@ }),
    {
        &mut self.sock
    }

    /// Returns the instant from which the moments of the client are counted.
    pub fn origin(&self) -> (origin: Instant)
        ensures
            origin == self@.origin,
    {
        self.origin
    }
}

impl<Sock, Target: VrpTarget> Client<Sock, Target> {
    /// Starts to run the client.
    ///
    /// The job will fetch any new data that becomes available on the server
    /// and push it to the target until either the server closes the
    /// connection, in which case it ends with `Ok(())`, or an error happens,
    /// which it ends with.
    pub fn run<E>(&mut self) -> (next: Next<Target::Update, E>)
        ensures
            final(self)@ == old(self)@,
            next == old(self)@.session.query_next::<Target::Update, E>(Job::Run),
    {
        self.session.query(Job::Run)
    }

    /// Starts a single update of the client data.
    ///
    /// The job will wait until the next update is due and then request one
    /// single update from the server. It will request a new update object
    /// from the target, apply the update to that object and, if the update
    /// succeeds, end with the object.
    pub fn update<E>(&mut self) -> (next: Next<Target::Update, E>)
        ensures
            final(self)@ == (ClientView {
                session: Session { next_update: None, ..old(self)@.session },
                ..old(self)@
            }),
            next == old(self)@.session.update_next::<Target::Update, E>(),
    {
        match self.session.next_update.take() {
            Some(due) => Next::Do(
                Command::AwaitNotify(Wait::Until(due)),
                Task { job: Job::Update, stage: Stage::Notify },
            ),
            None => self.session.query(Job::Update),
        }
    }

    /// Starts a reset query.
    ///
    /// The job will end with an update object that holds all the data of the
    /// server.
    pub fn reset<E>(&mut self) -> (next: Next<Target::Update, E>)
        ensures
            final(self)@ == old(self)@,
            next == old(self)@.session.reset_next::<Target::Update, E>(Job::Reset),
    {
        self.session.reset(Job::Reset)
    }

    /// Goes on with a job.
    ///
    /// The `task` is the one that came with the last command, and `event`
    /// says what came of that command.
    pub fn step<E>(&mut self, task: Task<Target::Update>, event: Event<E>) -> (next: Next<
        Target::Update,
        E,
    >)
        requires
            task.awaits(event),
        ensures
            final(self)@.same_frame(old(self)@),
            final(self)@.sock == old(self)@.sock,
            final(self)@.origin == old(self)@.origin,
            transition(
                old(self)@.origin,
                old(self)@.memory(),
                task,
                event,
                final(self)@.memory(),
                next,
            ),
    {
        let job = task.job;
        match (task.stage, event) {
            (Stage::Notify, Event::Notified(Ok(Err(failure)))) => self.fail(job, false, failure),
            (Stage::Notify, Event::Notified(Ok(Ok(notify)))) => {
                match self.session.test_version(notify.version) {
                    Ok(()) => self.session.query(job),
                    Err(failure) => self.fail(job, false, failure),
                }
            },
            (Stage::Notify, Event::Notified(Err(_))) => self.session.query(job),
            (Stage::Query { reset }, Event::Sent(Ok(()))) => {
                let command = if reset {
                    Command::ReadCacheResponse
                } else {
                    Command::ReadFirstReply
                };
                Next::Do(command, Task { job, stage: Stage::Reply { reset } })
            },
            (Stage::Query { reset }, Event::Sent(Err(failure))) => self.fail(job, reset, failure),
            (Stage::Reply { reset }, Event::FirstReply(outcome)) => match try_io(outcome) {
                Ok(FirstReply::Response(response)) => self.announce(job, reset, response),
                Ok(FirstReply::Reset(refusal)) => {
                    match self.session.test_version(refusal.version) {
                        Ok(()) => {
                            self.session.state = None;
                            self.session.reset(job)
                        },
                        Err(failure) => self.fail(job, reset, failure),
                    }
                },
                Err(failure) => self.fail(job, reset, failure),
            },
            (Stage::Reply { reset }, Event::CacheResponse(outcome)) => match try_io(outcome) {
                Ok(response) => self.announce(job, reset, response),
                Err(failure) => self.fail(job, reset, failure),
            },
            (Stage::Receive { reset, update }, Event::Received(Ok(received))) => {
                self.receive(job, reset, update, received)
            },
            (Stage::Receive { reset, .. }, Event::Received(Err(failure))) => {
                self.fail(job, reset, failure)
            },
            (Stage::Refuse { reset }, Event::Sent(Ok(()))) => {
                self.fail(job, reset, Failure::Rejected)
            },
            (Stage::Refuse { reset }, Event::Sent(Err(failure))) => self.fail(job, reset, failure),
            _ => unreached(),
        }
    }

    /// Goes on after the server has announced its data.
    fn announce<E>(&mut self, job: Job, reset: bool, response: CacheResponse) -> (next: Next<
        Target::Update,
        E,
    >)
        ensures
            final(self)@.same_frame(old(self)@),
            announced(
                old(self)@.origin,
                old(self)@.memory(),
                job,
                reset,
                response,
                final(self)@.memory(),
                next,
            ),
    {
        match self.session.check_version(response.version) {
            Ok(()) => {
                let update = self.target.start(reset);
                assert(old(self)@.memory().1.starts(reset, &self@.memory().1, &update));
                Next::Do(
                    Command::ReadPayload,
                    Task { job, stage: Stage::Receive { reset, update } },
                )
            },
            Err(failure) => self.fail(job, reset, failure),
        }
    }

    /// Goes on after the server has sent a piece of its data.
    fn receive<E>(
        &mut self,
        job: Job,
        reset: bool,
        update: Target::Update,
        received: Received,
    ) -> (next: Next<Target::Update, E>)
        ensures
            final(self)@.same_frame(old(self)@),
            transition(
                old(self)@.origin,
                old(self)@.memory(),
                Task { job, stage: Stage::Receive { reset, update } },
                Event::Received(Ok(received)),
                final(self)@.memory(),
                next,
            ),
    {
        match received {
            Received::Vrp(pdu) => match self.session.check_version(pdu.version()) {
                Ok(()) => {
                    let mut update = update;
                    let (action, payload) = pdu.to_payload();
                    let result = update.push_vrp(action, payload);
                    self.session.pushed(job, reset, update, pdu, result)
                },
                Err(failure) => self.fail(job, reset, failure),
            },
            Received::Unsupported { version } => match self.session.test_version(version) {
                Ok(()) => {
                    // Unsupported but legal payload: ignore.
                    Next::Do(
                        Command::ReadPayload,
                        Task { job, stage: Stage::Receive { reset, update } },
                    )
                },
                Err(failure) => self.fail(job, reset, failure),
            },
            Received::End(end) => match self.session.end(end) {
                Ok(()) => self.complete(job, reset, update),
                Err(failure) => self.fail(job, reset, failure),
            },
        }
    }

    /// Goes on with a complete update.
    fn complete<E>(&mut self, job: Job, reset: bool, update: Target::Update) -> (next: Next<
        Target::Update,
        E,
    >)
        ensures
            final(self)@.same_frame(old(self)@),
            completed(
                old(self)@.origin,
                old(self)@.memory(),
                job,
                reset,
                update,
                final(self)@.memory(),
                next,
            ),
    {
        match job {
            Job::Run => self.apply(reset, update),
            Job::Update => {
                self.put_off();
                Next::Done(Outcome::Update(Ok(update)))
            },
            Job::Reset => Next::Done(Outcome::Update(Ok(update))),
        }
    }

    /// Tries to apply an update of a client that runs and reports an error if
    /// that fails.
    fn apply<E>(&mut self, reset: bool, update: Target::Update) -> (next: Next<Target::Update, E>)
        ensures
            final(self)@.same_frame(old(self)@),
            completed(
                old(self)@.origin,
                old(self)@.memory(),
                Job::Run,
                reset,
                update,
                final(self)@.memory(),
                next,
            ),
    {
        let timing = self.session.timing;
        let result = self.target.apply(update, reset, timing);
        assert(old(self)@.memory().1.applies(update, reset, timing, &self@.memory().1, result));
        self.session.applied(Job::Run, reset, result)
    }

    /// Goes on after something has failed.
    fn fail<E>(&mut self, job: Job, reset: bool, failure: Failure<E>) -> (next: Next<
        Target::Update,
        E,
    >)
        ensures
            final(self)@.same_frame(old(self)@),
            final(self)@.target == old(self)@.target,
            failed(
                old(self)@.origin,
                old(self)@.session,
                job,
                reset,
                failure,
                final(self)@.session,
                next,
            ),
    {
        match job {
            Job::Update => {
                if reset {
                    self.put_off();
                }
            },
            Job::Run => {},
            Job::Reset => {},
        }
        Next::Done(job.fail(failure))
    }

    /// Puts off the next update, counting from now.
    fn put_off(&mut self)
        ensures
            final(self)@ == (ClientView { session: final(self)@.session, ..old(self)@ }),
            put_off_from(old(self)@.origin, old(self)@.session, final(self)@.session),
            exists|now: Moment| #[trigger]
                shows(old(self)@.origin, now) && (final(self)@.session.next_update matches Some(due)
                    && due.nanos == now.nanos + old(self)@.session.timing.refresh
                    * 1_000_000_000),
    {
        let now = present(&self.origin);
        self.session.schedule(now);
    }
}

} // verus!
