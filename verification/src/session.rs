//! What a client knows of its server, and what it has to say about it.
use crate::clock::{Moment, MAX_NANOS, NANOS_PER_SEC};
use crate::failure::Failure;
use crate::payload::Timing;
use crate::pdu::{
    CacheReset, CacheResponse, EndOfData, Header, Message, Payload, Received, SerialNotify,
    CACHE_RESET, CACHE_RESPONSE, ERROR,
};
use crate::state::State;
use crate::target::VrpError;
use vstd::prelude::*;

verus! {

/// How many seconds the server has for its first reply to a query.
pub const IO_TIMEOUT: u32 = 1;

/// The version of the protocol that is used until the server has chosen one.
pub const INITIAL_VERSION: u8 = 1;

//------------ Commands and events -------------------------------------------

/// What a client was asked to do.
#[derive(Clone, Copy, Debug, PartialEq, Eq)]
pub enum Job {
    /// Fetch and apply updates for as long as the server is there.
    Run,

    /// Fetch a single update when it is due.
    Update,

    /// Fetch all data at once.
    Reset,
}

/// How far a client has come with a job.
#[derive(Debug, PartialEq, Eq)]
pub enum Stage<U> {
    /// The client waits for the time to ask for an update.
    Notify,

    /// A query is being sent.
    Query {
        /// Whether this is a reset query.
        reset: bool,
    },

    /// A query has been sent and the first reply is due.
    Reply {
        /// Whether the query was a reset query.
        reset: bool,
    },

    /// The data is coming in.
    Receive {
        /// Whether the query was a reset query.
        reset: bool,

        /// Where the data is collected.
        update: U,
    },

    /// The server is being told that its data was not acceptable.
    Refuse {
        /// Whether the query was a reset query.
        reset: bool,
    },
}

/// A job that a client is busy with.
#[derive(Debug, PartialEq, Eq)]
pub struct Task<U> {
    /// The job.
    pub job: Job,

    /// How far the client has come.
    pub stage: Stage<U>,
}

/// How long something may take.
#[derive(Clone, Copy, Debug, PartialEq, Eq)]
pub enum Wait {
    /// For a number of seconds from now.
    For(u32),

    /// Until a moment.
    Until(Moment),
}

/// What the driver of a client has to do next.
#[derive(Clone, Copy, Debug, PartialEq, Eq)]
pub enum Command {
    /// Read a serial notify, but give up after a while.
    AwaitNotify(Wait),

    /// Send a message.
    Send(Message),

    /// Read the first reply to a serial query within [`IO_TIMEOUT`] seconds.
    ReadFirstReply,

    /// Read a cache response within [`IO_TIMEOUT`] seconds.
    ReadCacheResponse,

    /// Read what follows the first reply.
    ReadPayload,
}

/// An operation was not complete when its time was up.
#[derive(Clone, Copy, Debug, PartialEq, Eq)]
pub struct Elapsed;

/// What came of a command.
#[derive(Debug, PartialEq, Eq)]
pub enum Event<E> {
    /// The wait for a serial notify is over.
    Notified(Result<Result<SerialNotify, Failure<E>>, Elapsed>),

    /// A message was sent or could not be sent.
    Sent(Result<(), Failure<E>>),

    /// The first reply to a serial query.
    FirstReply(Result<Result<FirstReply, Failure<E>>, Elapsed>),

    /// The first reply to a reset query.
    CacheResponse(Result<Result<CacheResponse, Failure<E>>, Elapsed>),

    /// What follows the first reply.
    Received(Result<Received, Failure<E>>),
}

/// What came of a job.
#[derive(Debug, PartialEq, Eq)]
pub enum Outcome<U, E> {
    /// The client has stopped running.
    Run(Result<(), Failure<E>>),

    /// A single update was fetched, or could not be fetched.
    Update(Result<U, Failure<E>>),
}

/// How a job goes on.
#[derive(Debug, PartialEq, Eq)]
pub enum Next<U, E> {
    /// The command has to be carried out to complete the task.
    Do(Command, Task<U>),

    /// The job is done.
    Done(Outcome<U, E>),
}

impl Command {
    /// How long carrying out the command may take, if there is a limit.
    ///
    /// The first reply to a query has to arrive in time. A serial notify is
    /// waited for as long as the client says. Sending a message and reading
    /// the data take as long as they take.
    pub open spec fn time_limit(self) -> Option<Wait> {
        match self {
            Command::AwaitNotify(wait) => Some(wait),
            Command::ReadFirstReply | Command::ReadCacheResponse => Some(Wait::For(IO_TIMEOUT)),
            Command::Send(_) | Command::ReadPayload => None,
        }
    }

    /// Returns how long carrying out the command may take, if there is a
    /// limit.
    ///
    /// If the limit is reached, the command is given up, and [`Elapsed`] is
    /// what came of it.
    pub fn limit(&self) -> (limit: Option<Wait>)
        ensures
            limit == self.time_limit(),
            self is ReadFirstReply || self is ReadCacheResponse ==> limit == Some(Wait::For(1)),
    {
        match self {
            Command::AwaitNotify(wait) => Some(*wait),
            Command::ReadFirstReply => Some(Wait::For(IO_TIMEOUT)),
            Command::ReadCacheResponse => Some(Wait::For(IO_TIMEOUT)),
            Command::Send(_) => None,
            Command::ReadPayload => None,
        }
    }
}

impl<U> Task<U> {
    /// Whether an event is what came of the command that belongs to the task.
    pub open spec fn awaits<E>(self, event: Event<E>) -> bool {
        match self.stage {
            Stage::Notify => event is Notified,
            Stage::Query { .. } => event is Sent,
            Stage::Reply { reset } => if reset {
                event is CacheResponse
            } else {
                event is FirstReply
            },
            Stage::Receive { .. } => event is Received,
            Stage::Refuse { .. } => event is Sent,
        }
    }

    /// Returns whether an event is what came of the command that belongs to
    /// the task.
    pub fn accepts<E>(&self, event: &Event<E>) -> (accepted: bool)
        ensures
            accepted == self.awaits(*event),
    {
        match (&self.stage, event) {
            (Stage::Notify, Event::Notified(_)) => true,
            (Stage::Query { .. }, Event::Sent(_)) => true,
            (Stage::Reply { reset }, Event::FirstReply(_)) => !*reset,
            (Stage::Reply { reset }, Event::CacheResponse(_)) => *reset,
            (Stage::Receive { .. }, Event::Received(_)) => true,
            (Stage::Refuse { .. }, Event::Sent(_)) => true,
            _ => false,
        }
    }
}

impl Job {
    /// What comes of a job in which something failed.
    ///
    /// To a client that runs, a closed connection is no failure: that is how
    /// running ends.
    pub open spec fn failing<U, E>(self, failure: Failure<E>) -> Outcome<U, E> {
        match self {
            Job::Run => Outcome::Run(
                if failure.closed() {
                    Ok(())
                } else {
                    Err(failure)
                },
            ),
            Job::Update | Job::Reset => Outcome::Update(Err(failure)),
        }
    }

    /// Returns what comes of a job in which something failed.
    pub fn fail<U, E>(self, failure: Failure<E>) -> (outcome: Outcome<U, E>)
        ensures
            outcome == self.failing::<U, E>(failure),
    {
        match self {
            Job::Run => {
                if failure.is_eof() {
                    Outcome::Run(Ok(()))
                } else {
                    Outcome::Run(Err(failure))
                }
            },
            Job::Update => Outcome::Update(Err(failure)),
            Job::Reset => Outcome::Update(Err(failure)),
        }
    }
}

//------------ Replies -------------------------------------------------------

/// The first reply from a server in response to a serial query.
#[derive(Clone, Copy, Debug, PartialEq, Eq)]
pub enum FirstReply {
    /// A cache response. Actual data is to follow.
    Response(CacheResponse),

    /// A reset response. We need to retry with a reset query.
    Reset(CacheReset),
}

impl FirstReply {
    /// The reply that a header stands for, or what is wrong with it.
    pub open spec fn reading<E>(header: Header) -> Result<FirstReply, Failure<E>> {
        if header.pdu == ERROR {
            Err(Failure::ServerError(header.session))
        } else if header.pdu != CACHE_RESPONSE && header.pdu != CACHE_RESET {
            Err(Failure::UnexpectedPdu(header.pdu))
        } else if header.length != 8 {
            Err(Failure::InvalidLength(header.length))
        } else if header.pdu == CACHE_RESPONSE {
            Ok(FirstReply::Response(CacheResponse::of(header)))
        } else {
            Ok(FirstReply::Reset(CacheReset::of(header)))
        }
    }

    /// Reads the first reply, which consists of a header only.
    ///
    /// If any other reply than a cache response or reset response is
    /// received, returns an error.
    pub fn read<E>(header: Header) -> (result: Result<FirstReply, Failure<E>>)
        ensures
            result == FirstReply::reading::<E>(header),
            result matches Ok(FirstReply::Response(response)) ==> response.version
                == header.version && response.session == header.session,
            result matches Ok(FirstReply::Reset(reset)) ==> reset.version == header.version,
    {
        match header.pdu {
            CACHE_RESPONSE => match CacheResponse::read(header) {
                Ok(response) => Ok(FirstReply::Response(response)),
                Err(failure) => Err(failure),
            },
            CACHE_RESET => match CacheReset::read(header) {
                Ok(reset) => Ok(FirstReply::Reset(reset)),
                Err(failure) => Err(failure),
            },
            ERROR => Err(Failure::ServerError(header.session)),
            pdu => Err(Failure::UnexpectedPdu(pdu)),
        }
    }
}

/// The result of an operation that had to be complete in time.
pub open spec fn timely<T, E>(outcome: Result<Result<T, Failure<E>>, Elapsed>) -> Result<
    T,
    Failure<E>,
> {
    match outcome {
        Ok(result) => result,
        Err(Elapsed) => Err(Failure::TimedOut),
    }
}

/// Returns the result of an operation that had to be complete in time.
///
/// If it was not, that is the error.
pub fn try_io<T, E>(outcome: Result<Result<T, Failure<E>>, Elapsed>) -> (result: Result<
    T,
    Failure<E>,
>)
    ensures
        result == timely(outcome),
{
    match outcome {
        Ok(result) => result,
        Err(Elapsed) => Err(Failure::TimedOut),
    }
}

//------------ Session -------------------------------------------------------

/// What a client remembers of its conversation with the server.
#[derive(Clone, Copy, Debug, PartialEq, Eq)]
pub struct Session {
    /// The current synchronisation state.
    ///
    /// If this is `None`, we do a reset query next.
    pub state: Option<State>,

    /// The protocol version to use.
    ///
    /// If this is `None` we haven't spoken with the server yet. In this case,
    /// we use 1 and accept any version from the server. Otherwise we send
    /// this version, and receiving a differing version from the server is an
    /// error as it is not allowed to change its mind halfway. A version is
    /// settled by the PDUs that announce or hand over data; those that do not
    /// are only held to it.
    pub version: Option<u8>,

    /// The timing parameters reported by the server.
    ///
    /// We use the `refresh` value to determine how long to wait before
    /// requesting an update. The other values we just report to the target.
    pub timing: Timing,

    /// The next time we should be running.
    ///
    /// If this is `None`, we should be running now.
    pub next_update: Option<Moment>,
}

/// What the session becomes.
impl Session {
    /// The session of a client that has not spoken with its server.
    pub open spec fn fresh(state: Option<State>) -> Session {
        Session { state, version: None, timing: Timing::suggested(), next_update: None }
    }

    /// The protocol version to use.
    pub open spec fn speaks(self) -> u8 {
        match self.version {
            Some(version) => version,
            None => INITIAL_VERSION,
        }
    }

    /// Whether the server may use a version.
    pub open spec fn agrees(self, version: u8) -> bool {
        self.version is None || self.version == Some(version)
    }

    /// The session once the server has used a version.
    pub open spec fn having_heard(self, version: u8) -> Session {
        Session { version: Some(version), ..self }
    }

    /// The session once the server has sent all its data.
    pub open spec fn having_ended(self, end: EndOfData) -> Session {
        Session {
            state: Some(end.state),
            version: Some(end.version),
            timing: match end.timing {
                Some(timing) => timing,
                None => self.timing,
            },
            ..self
        }
    }

    /// The session once the next update has been put off at a moment.
    pub open spec fn scheduled_at(self, now: Moment) -> Session {
        Session { next_update: Some(now.plus_secs(self.timing.refresh)), ..self }
    }

    /// Whether `after` is the session once the next update has been put off,
    /// whenever that was: the refresh time then lies between the two.
    pub open spec fn scheduled(self, after: Session) -> bool {
        &&& after == Session { next_update: after.next_update, ..self }
        &&& after.next_update matches Some(due)
        &&& self.timing.refresh * NANOS_PER_SEC <= due.nanos
        &&& due.nanos <= MAX_NANOS + self.timing.refresh * NANOS_PER_SEC
    }
}

/// How a job goes on in a session.
impl Session {
    /// A serial query is sent.
    pub open spec fn serial_next<U, E>(self, job: Job, state: State) -> Next<U, E> {
        Next::Do(
            Command::Send(Message::SerialQuery { version: self.speaks(), state }),
            Task { job, stage: Stage::Query { reset: false } },
        )
    }

    /// A reset query is sent.
    pub open spec fn reset_next<U, E>(self, job: Job) -> Next<U, E> {
        Next::Do(
            Command::Send(Message::ResetQuery { version: self.speaks() }),
            Task { job, stage: Stage::Query { reset: true } },
        )
    }

    /// A query is sent: a serial query if there is a state to start from.
    pub open spec fn query_next<U, E>(self, job: Job) -> Next<U, E> {
        match self.state {
            Some(state) => self.serial_next(job, state),
            None => self.reset_next(job),
        }
    }

    /// A single update is waited for if it is not due yet, or else asked for.
    pub open spec fn update_next<U, E>(self) -> Next<U, E> {
        match self.next_update {
            Some(due) => Next::Do(
                Command::AwaitNotify(Wait::Until(due)),
                Task { job: Job::Update, stage: Stage::Notify },
            ),
            None => self.query_next(Job::Update),
        }
    }

    /// The server is told that the target did not like its data.
    pub open spec fn refuse_next<U, E>(
        self,
        job: Job,
        reset: bool,
        error: VrpError,
        pdu: Option<Payload>,
    ) -> Next<U, E> {
        Next::Do(
            Command::Send(error.message(self.speaks(), pdu)),
            Task { job, stage: Stage::Refuse { reset } },
        )
    }

    /// The next piece of data is read.
    pub open spec fn receive_next<U, E>(self, job: Job, reset: bool, update: U) -> Next<U, E> {
        Next::Do(Command::ReadPayload, Task { job, stage: Stage::Receive { reset, update } })
    }

    /// How it goes on when the update has answered to a VRP.
    pub open spec fn pushed_next<U, E>(
        self,
        job: Job,
        reset: bool,
        update: U,
        pdu: Payload,
        result: Result<(), VrpError>,
    ) -> Next<U, E> {
        match result {
            Ok(()) => self.receive_next(job, reset, update),
            Err(error) => self.refuse_next(job, reset, error, Some(pdu)),
        }
    }

    /// How it goes on when the target has answered to an update.
    pub open spec fn applied_next<U, E>(
        self,
        job: Job,
        reset: bool,
        result: Result<(), VrpError>,
    ) -> Next<U, E> {
        match result {
            Ok(()) => Next::Do(
                Command::AwaitNotify(Wait::For(self.timing.refresh)),
                Task { job, stage: Stage::Notify },
            ),
            Err(error) => self.refuse_next(job, reset, error, None),
        }
    }
}

impl Session {
    /// Creates the session of a client that has not spoken with its server.
    pub fn new(state: Option<State>) -> (session: Session)
        ensures
            session == Session::fresh(state),
            session.state == state,
            session.version is None,
            session.next_update is None,
    {
        Session { state, version: None, timing: Timing::default(), next_update: None }
    }

    /// Returns the protocol version to use.
    pub fn version(&self) -> (version: u8)
        ensures
            version == self.speaks(),
            self.version matches Some(remembered) ==> version == remembered,
            self.version is None ==> version == 1,
    {
        self.version.unwrap_or(INITIAL_VERSION)
    }

    /// Tests whether `version` matches the stored version, if there is one.
    ///
    /// Returns an error if it doesn't.
    pub fn test_version<E>(&self, version: u8) -> (result: Result<(), Failure<E>>)
        ensures
            result == if self.agrees(version) {
                Ok(())
            } else {
                Err(Failure::<E>::VersionChanged)
            },
            result is Ok <==> self.version is None || self.version == Some(version),
    {
        if let Some(stored_version) = self.version {
            if version != stored_version {
                return Err(Failure::VersionChanged);
            }
        }
        Ok(())
    }

    /// Checks whether `version` matches the stored version.
    ///
    /// Returns an error if it doesn't. If there is no stored version yet,
    /// this one is stored.
    pub fn check_version<E>(&mut self, version: u8) -> (result: Result<(), Failure<E>>)
        ensures
            old(self).agrees(version) ==> result == Ok::<(), Failure<E>>(()) && *final(self)
                == old(self).having_heard(version),
            !old(self).agrees(version) ==> result == Err::<(), Failure<E>>(Failure::VersionChanged)
                && *final(self) == *old(self),
            result is Ok <==> old(self).version is None || old(self).version == Some(version),
    {
        match self.test_version(version) {
            Ok(()) => {
                self.version = Some(version);
                Ok(())
            },
            Err(failure) => Err(failure),
        }
    }

    /// Takes note of the end of the data.
    ///
    /// Returns an error if its version doesn't match the stored version.
    pub fn end<E>(&mut self, end: EndOfData) -> (result: Result<(), Failure<E>>)
        ensures
            old(self).agrees(end.version) ==> result == Ok::<(), Failure<E>>(()) && *final(self)
                == old(self).having_ended(end),
            !old(self).agrees(end.version) ==> result == Err::<(), Failure<E>>(
                Failure::VersionChanged,
            ) && *final(self) == *old(self),
    {
        match self.check_version(end.version) {
            Ok(()) => {
                self.state = Some(end.state);
                if let Some(timing) = end.timing {
                    self.timing = timing;
                }
                Ok(())
            },
            Err(failure) => Err(failure),
        }
    }

    /// Puts off the next update by the refresh time.
    pub fn schedule(&mut self, now: Moment)
        requires
            now.nanos <= MAX_NANOS,
        ensures
            *final(self) == old(self).scheduled_at(now),
            old(self).scheduled(*final(self)),
            final(self).next_update matches Some(due) && due.nanos == now.nanos
                + old(self).timing.refresh * 1_000_000_000,
    {
        self.next_update = Some(now.later(self.timing.refresh));
    }

    /// Starts a serial query.
    pub fn serial<U, E>(&self, job: Job, state: State) -> (next: Next<U, E>)
        ensures
            next == self.serial_next::<U, E>(job, state),
    {
        Next::Do(
            Command::Send(Message::SerialQuery { version: self.version(), state }),
            Task { job, stage: Stage::Query { reset: false } },
        )
    }

    /// Starts a reset query.
    pub fn reset<U, E>(&self, job: Job) -> (next: Next<U, E>)
        ensures
            next == self.reset_next::<U, E>(job),
    {
        Next::Do(
            Command::Send(Message::ResetQuery { version: self.version() }),
            Task { job, stage: Stage::Query { reset: true } },
        )
    }

    /// Starts a serial query if there is a state, or else a reset query.
    pub fn query<U, E>(&self, job: Job) -> (next: Next<U, E>)
        ensures
            next == self.query_next::<U, E>(job),
    {
        match self.state {
            Some(state) => self.serial(job, state),
            None => self.reset(job),
        }
    }

    /// Goes on after the update has answered to a VRP.
    pub fn pushed<U, E>(
        &self,
        job: Job,
        reset: bool,
        update: U,
        pdu: Payload,
        result: Result<(), VrpError>,
    ) -> (next: Next<U, E>)
        ensures
            next == self.pushed_next::<U, E>(job, reset, update, pdu, result),
    {
        match result {
            Ok(()) => Next::Do(
                Command::ReadPayload,
                Task { job, stage: Stage::Receive { reset, update } },
            ),
            Err(error) => Next::Do(
                Command::Send(error.report(self.version(), Some(pdu))),
                Task { job, stage: Stage::Refuse { reset } },
            ),
        }
    }

    /// Goes on after the target has answered to an update.
    pub fn applied<U, E>(
        &self,
        job: Job,
        reset: bool,
        result: Result<(), VrpError>,
    ) -> (next: Next<U, E>)
        ensures
            next == self.applied_next::<U, E>(job, reset, result),
    {
        match result {
            Ok(()) => Next::Do(
                Command::AwaitNotify(Wait::For(self.timing.refresh)),
                Task { job, stage: Stage::Notify },
            ),
            Err(error) => Next::Do(
                Command::Send(error.report(self.version(), None)),
                Task { job, stage: Stage::Refuse { reset } },
            ),
        }
    }
}

} // verus!
