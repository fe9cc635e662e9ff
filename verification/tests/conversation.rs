use rtr_client::client::Client;
use rtr_client::clock::{Moment, MAX_NANOS, NANOS_PER_SEC};
use rtr_client::failure::Failure;
use rtr_client::payload::{self, Action, Timing};
use rtr_client::pdu::{self, CacheReset, CacheResponse, EndOfData, Header, Message, Received, SerialNotify};
use rtr_client::session::{
    try_io, Command, Elapsed, Event, FirstReply, Job, Next, Outcome, Session, Stage, Task, Wait,
    IO_TIMEOUT,
};
use rtr_client::state::State;
use rtr_client::target::{VrpError, VrpTarget, VrpUpdate};

/// An update that refuses one of the VRPs.
#[derive(Clone, Debug, Default, PartialEq, Eq)]
struct Picky {
    reset: bool,
    vrps: Vec<(Action, payload::Payload)>,
    refuse: Option<(usize, VrpError)>,
}

impl VrpUpdate for Picky {
    fn push_vrp(&mut self, action: Action, payload: payload::Payload) -> Result<(), VrpError> {
        match self.refuse {
            Some((index, error)) if index == self.vrps.len() => Err(error),
            _ => {
                self.vrps.push((action, payload));
                Ok(())
            }
        }
    }
}

/// A target that keeps a record of what is asked of it.
#[derive(Clone, Debug, Default, PartialEq, Eq)]
struct Log {
    starts: Vec<bool>,
    applied: Vec<(Picky, bool, Timing)>,
    refuse_vrp: Option<(usize, VrpError)>,
    refuse_update: Option<VrpError>,
}

impl VrpTarget for Log {
    type Update = Picky;

    fn start(&mut self, reset: bool) -> Picky {
        self.starts.push(reset);
        Picky {
            reset,
            vrps: Vec::new(),
            refuse: self.refuse_vrp,
        }
    }

    fn apply(&mut self, update: Picky, reset: bool, timing: Timing) -> Result<(), VrpError> {
        match self.refuse_update {
            Some(error) => Err(error),
            None => {
                self.applied.push((update, reset, timing));
                Ok(())
            }
        }
    }
}

type Lost = &'static str;
type Step = Next<Picky, Lost>;

const STATE: State = State {
    session: 17,
    serial: 40,
};

const LATER: State = State {
    session: 17,
    serial: 41,
};

const TIMING: Timing = Timing {
    refresh: 120,
    retry: 60,
    expire: 900,
};

fn client(state: Option<State>, log: Log) -> Client<u8, Log> {
    Client::new(7, log, state)
}

fn go(client: &mut Client<u8, Log>, next: Step, event: Event<Lost>) -> Step {
    match next {
        Next::Do(_, task) => {
            assert!(task.accepts(&event));
            client.step(task, event)
        }
        Next::Done(_) => panic!("the job is done"),
    }
}

fn command(next: &Step) -> Command {
    match next {
        Next::Do(command, _) => *command,
        Next::Done(_) => panic!("the job is done"),
    }
}

fn prefix(version: u8, flags: u8, asn: u32) -> pdu::Payload {
    pdu::Payload::V4(pdu::Ipv4Prefix {
        header: Header {
            version,
            pdu: pdu::IPV4_PREFIX,
            session: 0,
            length: 20,
        },
        flags,
        prefix_len: 24,
        max_len: 25,
        zero: 0,
        prefix: 0xc000_0200,
        asn,
    })
}

fn vrp(asn: u32) -> payload::Payload {
    payload::Payload::V4(payload::Ipv4Prefix {
        prefix: 0xc000_0200,
        prefix_len: 24,
        max_len: 25,
        asn,
    })
}

fn response(version: u8) -> Event<Lost> {
    let response = CacheResponse {
        version,
        session: 17,
    };
    Event::FirstReply(Ok(Ok(FirstReply::Response(response))))
}

fn cache_response(version: u8) -> Event<Lost> {
    Event::CacheResponse(Ok(Ok(CacheResponse {
        version,
        session: 17,
    })))
}

fn data(pdu: pdu::Payload) -> Event<Lost> {
    Event::Received(Ok(Received::Vrp(pdu)))
}

fn end(version: u8, timing: Option<Timing>) -> Event<Lost> {
    Event::Received(Ok(Received::End(EndOfData {
        version,
        state: LATER,
        timing,
    })))
}

fn lost(eof: bool) -> Failure<Lost> {
    Failure::Io {
        eof,
        error: "lost",
    }
}

//------------ Starting ------------------------------------------------------

#[test]
fn new_client_keeps_its_parts() {
    let mut client = client(Some(STATE), Log::default());
    assert_eq!(*client.sock_mut(), 7);
    assert_eq!(client.target(), &Log::default());
    assert_eq!(client.state(), Some(STATE));
    assert_eq!(
        client.session(),
        Session {
            state: Some(STATE),
            version: None,
            timing: Timing {
                refresh: 3600,
                retry: 600,
                expire: 7200
            },
            next_update: None,
        }
    );
    client.target_mut().starts.push(true);
    assert_eq!(client.target().starts, vec![true]);
    *client.sock_mut() = 8;
    assert_eq!(*client.sock_mut(), 8);
    assert_eq!(client.into_target().starts, vec![true]);
}

#[test]
fn client_without_state_knows_none() {
    assert_eq!(client(None, Log::default()).state(), None);
}

#[test]
fn first_query_without_state_is_a_reset_query() {
    let mut client = client(None, Log::default());
    let next: Step = client.run();
    assert_eq!(
        next,
        Next::Do(
            Command::Send(Message::ResetQuery { version: 1 }),
            Task {
                job: Job::Run,
                stage: Stage::Query { reset: true }
            }
        )
    );
}

#[test]
fn first_query_with_state_is_a_serial_query() {
    let mut client = client(Some(STATE), Log::default());
    let next: Step = client.run();
    assert_eq!(
        next,
        Next::Do(
            Command::Send(Message::SerialQuery {
                version: 1,
                state: STATE
            }),
            Task {
                job: Job::Run,
                stage: Stage::Query { reset: false }
            }
        )
    );
}

#[test]
fn reset_ignores_the_state() {
    let mut client = client(Some(STATE), Log::default());
    let next: Step = client.reset();
    assert_eq!(
        next,
        Next::Do(
            Command::Send(Message::ResetQuery { version: 1 }),
            Task {
                job: Job::Reset,
                stage: Stage::Query { reset: true }
            }
        )
    );
    assert_eq!(client.state(), Some(STATE));
}

//------------ Running -------------------------------------------------------

#[test]
fn run_applies_updates_and_asks_again() {
    let mut client = client(None, Log::default());
    let next: Step = client.run();
    let next = go(&mut client, next, Event::Sent(Ok(())));
    assert_eq!(command(&next), Command::ReadCacheResponse);
    let next = go(&mut client, next, cache_response(1));
    assert_eq!(command(&next), Command::ReadPayload);
    assert_eq!(client.target().starts, vec![true]);
    let next = go(&mut client, next, data(prefix(1, 1, 64496)));
    let next = go(
        &mut client,
        next,
        Event::Received(Ok(Received::Unsupported { version: 1 })),
    );
    let next = go(&mut client, next, data(prefix(1, 0, 64497)));
    let next = go(&mut client, next, data(prefix(1, 1, 64496)));
    assert_eq!(command(&next), Command::ReadPayload);
    assert!(client.target().applied.is_empty());
    assert_eq!(client.state(), None);
    let next = go(&mut client, next, end(1, Some(TIMING)));
    assert_eq!(command(&next), Command::AwaitNotify(Wait::For(120)));
    assert_eq!(client.state(), Some(LATER));
    let update = Picky {
        reset: true,
        vrps: vec![
            (Action::Announce, vrp(64496)),
            (Action::Withdraw, vrp(64497)),
            (Action::Announce, vrp(64496)),
        ],
        refuse: None,
    };
    assert_eq!(client.target().applied, vec![(update, true, TIMING)]);

    // The time is up, so ask for what has changed.
    let next = go(&mut client, next, Event::Notified(Err(Elapsed)));
    assert_eq!(
        command(&next),
        Command::Send(Message::SerialQuery {
            version: 1,
            state: LATER
        })
    );
    let next = go(&mut client, next, Event::Sent(Ok(())));
    assert_eq!(command(&next), Command::ReadFirstReply);
    let next = go(&mut client, next, response(1));
    let next = go(&mut client, next, end(1, None));
    assert_eq!(command(&next), Command::AwaitNotify(Wait::For(120)));
    assert_eq!(client.target().starts, vec![true, false]);
    assert_eq!(client.target().applied[1].1, false);
    assert_eq!(client.target().applied[1].2, TIMING);

    // A notification has the same effect as time.
    let next = go(&mut client, next, Event::Notified(Ok(Ok(SerialNotify { version: 1 }))));
    assert_eq!(
        command(&next),
        Command::Send(Message::SerialQuery {
            version: 1,
            state: LATER
        })
    );
}

#[test]
fn run_ends_well_when_the_server_hangs_up() {
    for stage in 0..5 {
        let mut client = client(Some(STATE), Log::default());
        let mut next: Step = client.run();
        if stage == 0 {
            next = go(&mut client, next, Event::Sent(Err(lost(true))));
        } else {
            next = go(&mut client, next, Event::Sent(Ok(())));
            if stage == 1 {
                next = go(&mut client, next, Event::FirstReply(Ok(Err(lost(true)))));
            } else {
                next = go(&mut client, next, response(1));
                if stage == 2 {
                    next = go(&mut client, next, Event::Received(Err(lost(true))));
                } else {
                    next = go(&mut client, next, end(1, None));
                    next = go(&mut client, next, Event::Notified(Ok(Err(lost(stage == 3)))));
                    if stage == 4 {
                        assert_eq!(next, Next::Done(Outcome::Run(Err(lost(false)))));
                        continue;
                    }
                }
            }
        }
        assert_eq!(next, Next::Done(Outcome::Run(Ok(()))));
    }
}

#[test]
fn run_reports_other_failures() {
    let mut client = client(Some(STATE), Log::default());
    let next: Step = client.run();
    let next = go(&mut client, next, Event::Sent(Err(lost(false))));
    assert_eq!(next, Next::Done(Outcome::Run(Err(lost(false)))));
}

#[test]
fn failed_update_is_dropped() {
    let mut client = client(Some(STATE), Log::default());
    let next: Step = client.run();
    let next = go(&mut client, next, Event::Sent(Ok(())));
    let next = go(&mut client, next, response(1));
    let next = go(&mut client, next, data(prefix(1, 1, 64496)));
    let next = go(&mut client, next, Event::Received(Err(lost(false))));
    assert_eq!(next, Next::Done(Outcome::Run(Err(lost(false)))));
    assert_eq!(client.state(), Some(STATE));
    assert_eq!(client.target().starts, vec![false]);
    assert!(client.target().applied.is_empty());
}

#[test]
fn cache_reset_leads_to_a_reset_query() {
    let mut client = client(Some(STATE), Log::default());
    let next: Step = client.run();
    let next = go(&mut client, next, Event::Sent(Ok(())));
    let reset = FirstReply::Reset(CacheReset { version: 0 });
    let next = go(&mut client, next, Event::FirstReply(Ok(Ok(reset))));
    assert_eq!(
        next,
        Next::Do(
            Command::Send(Message::ResetQuery { version: 1 }),
            Task {
                job: Job::Run,
                stage: Stage::Query { reset: true }
            }
        )
    );
    assert_eq!(client.state(), None);
    assert!(client.target().starts.is_empty());
}

#[test]
fn late_reply_is_a_failure() {
    let mut client = client(Some(STATE), Log::default());
    let next: Step = client.run();
    let next = go(&mut client, next, Event::Sent(Ok(())));
    let next = go(&mut client, next, Event::FirstReply(Err(Elapsed)));
    assert_eq!(next, Next::Done(Outcome::Run(Err(Failure::TimedOut))));

    let next: Step = client.reset();
    let next = go(&mut client, next, Event::Sent(Ok(())));
    let next = go(&mut client, next, Event::CacheResponse(Err(Elapsed)));
    assert_eq!(next, Next::Done(Outcome::Update(Err(Failure::TimedOut))));
}

#[test]
fn commands_have_their_limits() {
    assert_eq!(IO_TIMEOUT, 1);
    assert_eq!(Command::ReadFirstReply.limit(), Some(Wait::For(1)));
    assert_eq!(Command::ReadCacheResponse.limit(), Some(Wait::For(1)));
    assert_eq!(Command::ReadPayload.limit(), None);
    assert_eq!(Command::Send(Message::ResetQuery { version: 1 }).limit(), None);
    for wait in [Wait::For(120), Wait::Until(Moment { nanos: 5 })] {
        assert_eq!(Command::AwaitNotify(wait).limit(), Some(wait));
    }
}

#[test]
fn first_replies_are_limited_in_every_job() {
    let mut one = client(Some(STATE), Log::default());
    let next: Step = one.run();
    assert_eq!(command(&next).limit(), None);
    let next = go(&mut one, next, Event::Sent(Ok(())));
    assert_eq!(command(&next).limit(), Some(Wait::For(1)));
    let next = go(&mut one, next, response(1));
    assert_eq!(command(&next).limit(), None);
    let next: Step = one.reset();
    let next = go(&mut one, next, Event::Sent(Ok(())));
    assert_eq!(command(&next).limit(), Some(Wait::For(1)));
}

#[test]
fn reset_query_goes_the_same_way_from_any_state() {
    for state in [None, Some(STATE), Some(LATER)] {
        let mut client = client(state, Log::default());
        let next: Step = client.reset();
        let next = go(&mut client, next, Event::Sent(Ok(())));
        let next = go(&mut client, next, cache_response(1));
        let next = go(&mut client, next, data(prefix(1, 1, 64496)));
        assert_eq!(client.state(), state);
        let next = go(&mut client, next, end(1, None));
        assert!(matches!(&next, Next::Done(Outcome::Update(Ok(update))) if update.vrps.len() == 1));
        assert_eq!(client.state(), Some(LATER));
    }
}

#[test]
fn operation_in_time_keeps_its_result() {
    let ok: Result<Result<u8, Failure<Lost>>, Elapsed> = Ok(Ok(3));
    assert_eq!(try_io(ok), Ok(3));
    let failed: Result<Result<u8, Failure<Lost>>, Elapsed> = Ok(Err(Failure::Rejected));
    assert_eq!(try_io(failed), Err(Failure::Rejected));
    let late: Result<Result<u8, Failure<Lost>>, Elapsed> = Err(Elapsed);
    assert_eq!(try_io(late), Err(Failure::TimedOut));
}

//------------ Versions ------------------------------------------------------

#[test]
fn first_version_is_taken_over() {
    let mut client = client(None, Log::default());
    let next: Step = client.run();
    let next = go(&mut client, next, Event::Sent(Ok(())));
    let next = go(&mut client, next, cache_response(0));
    assert_eq!(client.session().version, Some(0));
    let next = go(&mut client, next, end(0, None));
    let next = go(&mut client, next, Event::Notified(Err(Elapsed)));
    assert_eq!(
        command(&next),
        Command::Send(Message::SerialQuery {
            version: 0,
            state: LATER
        })
    );
    assert_eq!(client.session().timing.refresh, 3600);
}

#[test]
fn version_must_stay_the_same() {
    for event in [data(prefix(1, 1, 64496)), end(1, Some(TIMING))] {
        let mut client = client(Some(STATE), Log::default());
        let next: Step = client.run();
        let next = go(&mut client, next, Event::Sent(Ok(())));
        let next = go(&mut client, next, response(0));
        let next = go(&mut client, next, event);
        assert_eq!(next, Next::Done(Outcome::Run(Err(Failure::VersionChanged))));
        assert_eq!(client.state(), Some(STATE));
        assert_eq!(client.session().version, Some(0));
        assert_eq!(client.session().timing.refresh, 3600);
        assert!(client.target().applied.is_empty());
    }
}

#[test]
fn version_must_stay_the_same_in_later_exchanges() {
    let mut client = client(None, Log::default());
    let next: Step = client.run();
    let next = go(&mut client, next, Event::Sent(Ok(())));
    let next = go(&mut client, next, cache_response(0));
    let next = go(&mut client, next, end(0, None));
    let next = go(&mut client, next, Event::Notified(Err(Elapsed)));
    let next = go(&mut client, next, Event::Sent(Ok(())));
    let next = go(&mut client, next, response(1));
    assert_eq!(next, Next::Done(Outcome::Run(Err(Failure::VersionChanged))));
    assert_eq!(client.target().starts, vec![true]);
}

/// A client that has settled on version 1 in a run and is in a second exchange.
fn settled() -> (Client<u8, Log>, Step) {
    let mut client = client(None, Log::default());
    let next: Step = client.run();
    let next = go(&mut client, next, Event::Sent(Ok(())));
    let next = go(&mut client, next, cache_response(1));
    let next = go(&mut client, next, end(1, Some(TIMING)));
    assert_eq!(client.session().version, Some(1));
    (client, next)
}

#[test]
fn cache_reset_must_not_change_the_version() {
    let (mut client, next) = settled();
    let next = go(&mut client, next, Event::Notified(Err(Elapsed)));
    let next = go(&mut client, next, Event::Sent(Ok(())));
    let (session, target) = (client.session(), client.target().clone());
    let reset = FirstReply::Reset(CacheReset { version: 0 });
    let next = go(&mut client, next, Event::FirstReply(Ok(Ok(reset))));
    assert_eq!(next, Next::Done(Outcome::Run(Err(Failure::VersionChanged))));
    assert_eq!(client.state(), Some(LATER));
    assert_eq!(client.session(), session);
    assert_eq!(client.target(), &target);
}

#[test]
fn cache_reset_does_not_settle_the_version() {
    let mut client = client(Some(STATE), Log::default());
    let next: Step = client.run();
    let next = go(&mut client, next, Event::Sent(Ok(())));
    let reset = FirstReply::Reset(CacheReset { version: 0 });
    let next = go(&mut client, next, Event::FirstReply(Ok(Ok(reset))));
    assert_eq!(client.session().version, None);
    let next = go(&mut client, next, Event::Sent(Ok(())));
    let next = go(&mut client, next, cache_response(1));
    assert_eq!(command(&next), Command::ReadPayload);
    assert_eq!(client.session().version, Some(1));
}

#[test]
fn serial_notify_must_not_change_the_version() {
    let (mut client, next) = settled();
    let (session, target) = (client.session(), client.target().clone());
    let notify = SerialNotify { version: 0 };
    let next = go(&mut client, next, Event::Notified(Ok(Ok(notify))));
    assert_eq!(next, Next::Done(Outcome::Run(Err(Failure::VersionChanged))));
    assert_eq!(client.session(), session);
    assert_eq!(client.target(), &target);
}

#[test]
fn serial_notify_does_not_settle_the_version() {
    let mut client = client(None, Log::default());
    let next: Step = client.update();
    let next = go(&mut client, next, Event::Sent(Err(lost(false))));
    assert!(matches!(next, Next::Done(_)));
    let next: Step = client.update();
    let notify = SerialNotify { version: 0 };
    let next = go(&mut client, next, Event::Notified(Ok(Ok(notify))));
    assert_eq!(
        command(&next),
        Command::Send(Message::ResetQuery { version: 1 })
    );
    assert_eq!(client.session().version, None);
}

#[test]
fn unsupported_payload_must_not_change_the_version() {
    let (mut client, next) = settled();
    let next = go(&mut client, next, Event::Notified(Err(Elapsed)));
    let next = go(&mut client, next, Event::Sent(Ok(())));
    let next = go(&mut client, next, response(1));
    let (session, target) = (client.session(), client.target().clone());
    let unsupported = Received::Unsupported { version: 0 };
    let next = go(&mut client, next, Event::Received(Ok(unsupported)));
    assert_eq!(next, Next::Done(Outcome::Run(Err(Failure::VersionChanged))));
    assert_eq!(client.session(), session);
    assert_eq!(client.target(), &target);
}

#[test]
fn test_version_stores_nothing() {
    let mut session = Session::new(None);
    assert_eq!(session.test_version::<Lost>(0), Ok(()));
    assert_eq!(session.version, None);
    assert_eq!(session.check_version::<Lost>(1), Ok(()));
    assert_eq!(session.test_version::<Lost>(1), Ok(()));
    assert_eq!(
        session.test_version::<Lost>(0),
        Err(Failure::VersionChanged)
    );
}

#[test]
fn check_version_stores_the_first() {
    let mut session = Session::new(None);
    assert_eq!(session.version(), 1);
    assert_eq!(session.check_version::<Lost>(2), Ok(()));
    assert_eq!(session.version(), 2);
    assert_eq!(session.check_version::<Lost>(2), Ok(()));
    assert_eq!(
        session.check_version::<Lost>(1),
        Err(Failure::VersionChanged)
    );
    assert_eq!(session.version(), 2);
}

//------------ Rejections ----------------------------------------------------

#[test]
fn rejected_vrp_is_reported_with_its_pdu() {
    let log = Log {
        refuse_vrp: Some((1, VrpError::DuplicateAnnounce)),
        ..Log::default()
    };
    let mut client = client(Some(STATE), log);
    let next: Step = client.run();
    let next = go(&mut client, next, Event::Sent(Ok(())));
    let next = go(&mut client, next, response(0));
    let next = go(&mut client, next, data(prefix(0, 1, 64496)));
    let next = go(&mut client, next, data(prefix(0, 1, 64497)));
    assert_eq!(
        next,
        Next::Do(
            Command::Send(Message::Error(pdu::Error {
                version: 0,
                code: 7,
                pdu: Some(prefix(0, 1, 64497)),
            })),
            Task {
                job: Job::Run,
                stage: Stage::Refuse { reset: false }
            }
        )
    );
    let next = go(&mut client, next, Event::Sent(Ok(())));
    assert_eq!(next, Next::Done(Outcome::Run(Err(Failure::Rejected))));
    assert!(client.target().applied.is_empty());
    assert_eq!(client.state(), Some(STATE));
}

#[test]
fn rejected_update_is_reported_without_pdu() {
    let log = Log {
        refuse_update: Some(VrpError::Internal),
        ..Log::default()
    };
    let mut client = client(None, log);
    let next: Step = client.run();
    let next = go(&mut client, next, Event::Sent(Ok(())));
    let next = go(&mut client, next, cache_response(1));
    let next = go(&mut client, next, end(1, Some(TIMING)));
    assert_eq!(
        command(&next),
        Command::Send(Message::Error(pdu::Error {
            version: 1,
            code: 1,
            pdu: None
        }))
    );
    // The new state has been taken over all the same.
    assert_eq!(client.state(), Some(LATER));
    let next = go(&mut client, next, Event::Sent(Err(lost(false))));
    assert_eq!(next, Next::Done(Outcome::Run(Err(lost(false)))));
}

#[test]
fn answers_of_the_update_and_the_target_decide() {
    let session = Session::new(None);
    let pdu = prefix(1, 1, 64496);
    let next: Step = session.pushed(Job::Run, true, Picky::default(), pdu, Ok(()));
    assert_eq!(command(&next), Command::ReadPayload);
    let next: Step = session.pushed(
        Job::Run,
        true,
        Picky::default(),
        pdu,
        Err(VrpError::UnknownWithdraw),
    );
    assert_eq!(
        command(&next),
        Command::Send(Message::Error(pdu::Error {
            version: 1,
            code: 6,
            pdu: Some(pdu)
        }))
    );
    let next: Step = session.applied(Job::Run, true, Ok(()));
    assert_eq!(command(&next), Command::AwaitNotify(Wait::For(3600)));
    let next: Step = session.applied(Job::Run, true, Err(VrpError::Corrupt));
    assert_eq!(
        command(&next),
        Command::Send(Message::Error(pdu::Error {
            version: 1,
            code: 0,
            pdu: None
        }))
    );
}

#[test]
fn error_codes_are_those_of_the_protocol() {
    assert_eq!(VrpError::UnknownWithdraw.error_code(), 6);
    assert_eq!(VrpError::DuplicateAnnounce.error_code(), 7);
    assert_eq!(VrpError::Corrupt.error_code(), 0);
    assert_eq!(VrpError::Internal.error_code(), 1);
}

//------------ Single updates ------------------------------------------------

fn due(client: &Client<u8, Log>) -> Option<u128> {
    client.session().next_update.map(|due| due.nanos)
}

#[test]
fn single_update_is_returned_and_put_off() {
    let mut client = client(Some(STATE), Log::default());
    let next: Step = client.update();
    let next = go(&mut client, next, Event::Sent(Ok(())));
    let next = go(&mut client, next, response(1));
    let next = go(&mut client, next, data(prefix(1, 1, 64496)));
    assert_eq!(due(&client), None);
    let next = go(&mut client, next, end(1, Some(TIMING)));
    let update = Picky {
        reset: false,
        vrps: vec![(Action::Announce, vrp(64496))],
        refuse: None,
    };
    assert_eq!(next, Next::Done(Outcome::Update(Ok(update))));
    assert!(client.target().applied.is_empty());
    let first = due(&client).unwrap();
    assert!(first >= 120 * NANOS_PER_SEC);
    assert!(first < 240 * NANOS_PER_SEC);

    // The next update waits for that moment.
    let next: Step = client.update();
    assert_eq!(
        command(&next),
        Command::AwaitNotify(Wait::Until(Moment { nanos: first }))
    );
    assert_eq!(due(&client), None);
    let started = std::time::Instant::now();
    while started.elapsed().as_millis() < 5 {}
    let next = go(&mut client, next, Event::Notified(Err(Elapsed)));
    let next = go(&mut client, next, Event::Sent(Ok(())));
    let next = go(&mut client, next, response(1));
    let next = go(&mut client, next, end(1, None));
    assert!(matches!(next, Next::Done(Outcome::Update(Ok(_)))));
    let second = due(&client).unwrap();
    assert!(second >= first + 5_000_000);
    assert!(second < first + 120 * NANOS_PER_SEC);
}

#[test]
fn single_update_falls_back_to_a_reset_query() {
    let mut client = client(Some(STATE), Log::default());
    let next: Step = client.update();
    let next = go(&mut client, next, Event::Sent(Ok(())));
    let reset = FirstReply::Reset(CacheReset { version: 1 });
    let next = go(&mut client, next, Event::FirstReply(Ok(Ok(reset))));
    assert_eq!(
        command(&next),
        Command::Send(Message::ResetQuery { version: 1 })
    );
    let next = go(&mut client, next, Event::Sent(Ok(())));
    let next = go(&mut client, next, cache_response(1));
    let next = go(&mut client, next, end(1, None));
    assert!(matches!(next, Next::Done(Outcome::Update(Ok(_)))));
    assert_eq!(client.target().starts, vec![true]);
    assert!(due(&client).unwrap() >= 3600 * NANOS_PER_SEC);
}

#[test]
fn failed_serial_query_is_not_put_off() {
    let mut client = client(Some(STATE), Log::default());
    let next: Step = client.update();
    let next = go(&mut client, next, Event::Sent(Err(lost(true))));
    assert_eq!(next, Next::Done(Outcome::Update(Err(lost(true)))));
    assert_eq!(due(&client), None);
}

#[test]
fn failed_reset_query_of_an_update_is_put_off() {
    let mut client = client(None, Log::default());
    let next: Step = client.update();
    let next = go(&mut client, next, Event::Sent(Err(lost(true))));
    assert_eq!(next, Next::Done(Outcome::Update(Err(lost(true)))));
    assert!(due(&client).unwrap() >= 3600 * NANOS_PER_SEC);
}

#[test]
fn failed_wait_of_an_update_is_reported() {
    let mut client = client(None, Log::default());
    let next: Step = client.update();
    let next = go(&mut client, next, Event::Sent(Err(lost(false))));
    assert!(matches!(next, Next::Done(_)));
    let next: Step = client.update();
    let next = go(&mut client, next, Event::Notified(Ok(Err(lost(false)))));
    assert_eq!(next, Next::Done(Outcome::Update(Err(lost(false)))));
    assert_eq!(due(&client), None);
}

#[test]
fn reset_is_returned_and_not_put_off() {
    let mut client = client(Some(STATE), Log::default());
    let next: Step = client.reset();
    let next = go(&mut client, next, Event::Sent(Ok(())));
    let next = go(&mut client, next, cache_response(1));
    let next = go(&mut client, next, data(prefix(1, 0, 64496)));
    let next = go(&mut client, next, end(1, Some(TIMING)));
    let update = Picky {
        reset: true,
        vrps: vec![(Action::Withdraw, vrp(64496))],
        refuse: None,
    };
    assert_eq!(next, Next::Done(Outcome::Update(Ok(update))));
    assert_eq!(client.state(), Some(LATER));
    assert_eq!(due(&client), None);
}

#[test]
fn schedule_adds_the_refresh_time() {
    let mut session = Session::new(None);
    session.schedule(Moment { nanos: 5 });
    assert_eq!(
        session.next_update,
        Some(Moment {
            nanos: 3_600_000_000_005
        })
    );
    session.schedule(Moment { nanos: MAX_NANOS });
    assert_eq!(
        session.next_update,
        Some(Moment {
            nanos: MAX_NANOS + 3_600_000_000_000
        })
    );
}

//------------ Events and updates --------------------------------------------

#[test]
fn tasks_accept_what_they_asked_for() {
    let reply: Task<Picky> = Task {
        job: Job::Run,
        stage: Stage::Reply { reset: false },
    };
    assert!(reply.accepts(&response(1)));
    assert!(!reply.accepts(&cache_response(1)));
    assert!(!reply.accepts(&Event::<Lost>::Sent(Ok(()))));
    let reply: Task<Picky> = Task {
        job: Job::Run,
        stage: Stage::Reply { reset: true },
    };
    assert!(!reply.accepts(&response(1)));
    assert!(reply.accepts(&cache_response(1)));
}

#[test]
fn vector_takes_every_vrp() {
    let mut update: Vec<(Action, payload::Payload)> = Vec::new();
    assert_eq!(update.push_vrp(Action::Announce, vrp(1)), Ok(()));
    assert_eq!(update.push_vrp(Action::Announce, vrp(1)), Ok(()));
    assert_eq!(update.push_vrp(Action::Withdraw, vrp(2)), Ok(()));
    assert_eq!(
        update,
        vec![
            (Action::Announce, vrp(1)),
            (Action::Announce, vrp(1)),
            (Action::Withdraw, vrp(2))
        ]
    );
}

/// A target whose updates are plain vectors.
#[derive(Default)]
struct Plain {
    applied: Vec<Vec<(Action, payload::Payload)>>,
}

impl VrpTarget for Plain {
    type Update = Vec<(Action, payload::Payload)>;

    fn start(&mut self, _reset: bool) -> Self::Update {
        Vec::new()
    }

    fn apply(
        &mut self,
        update: Self::Update,
        _reset: bool,
        _timing: Timing,
    ) -> Result<(), VrpError> {
        self.applied.push(update);
        Ok(())
    }
}

#[test]
fn vector_holds_what_arrives_in_order() {
    let mut client = Client::new((), Plain::default(), None);
    let mut next = client.run();
    let events = vec![
        Event::Sent(Ok(())),
        cache_response(1),
        data(prefix(1, 1, 3)),
        data(prefix(1, 0, 1)),
        Event::Received(Ok(Received::Unsupported { version: 1 })),
        data(prefix(1, 1, 2)),
        data(prefix(1, 1, 3)),
        end(1, None),
    ];
    for event in events {
        next = match next {
            Next::Do(_, task) => client.step(task, event),
            Next::Done(_) => panic!("the job is done"),
        };
    }
    assert_eq!(
        client.target().applied,
        vec![vec![
            (Action::Announce, vrp(3)),
            (Action::Withdraw, vrp(1)),
            (Action::Announce, vrp(2)),
            (Action::Announce, vrp(3)),
        ]]
    );
}

#[test]
fn rejection_in_a_reset_query_of_an_update_is_put_off() {
    let log = Log {
        refuse_vrp: Some((0, VrpError::UnknownWithdraw)),
        ..Log::default()
    };
    let mut client = client(None, log);
    let next: Step = client.update();
    let next = go(&mut client, next, Event::Sent(Ok(())));
    let next = go(&mut client, next, cache_response(1));
    let next = go(&mut client, next, data(prefix(1, 0, 64496)));
    assert_eq!(
        command(&next),
        Command::Send(Message::Error(pdu::Error {
            version: 1,
            code: 6,
            pdu: Some(prefix(1, 0, 64496)),
        }))
    );
    assert_eq!(due(&client), None);
    let next = go(&mut client, next, Event::Sent(Ok(())));
    assert_eq!(next, Next::Done(Outcome::Update(Err(Failure::Rejected))));
    assert!(due(&client).unwrap() >= 3600 * NANOS_PER_SEC);
}

#[test]
fn queries_collect_the_same_data() {
    let mut collected = Vec::new();
    for state in [None, Some(STATE)] {
        let mut client = client(state, Log::default());
        let next: Step = client.update();
        let next = go(&mut client, next, Event::Sent(Ok(())));
        let reply = if state.is_some() {
            response(1)
        } else {
            cache_response(1)
        };
        let next = go(&mut client, next, reply);
        let next = go(&mut client, next, data(prefix(1, 1, 2)));
        let next = go(&mut client, next, data(prefix(1, 0, 1)));
        match go(&mut client, next, end(1, None)) {
            Next::Done(Outcome::Update(Ok(update))) => collected.push(update.vrps),
            _ => panic!("no update"),
        }
    }
    assert_eq!(
        collected[0],
        vec![(Action::Announce, vrp(2)), (Action::Withdraw, vrp(1))]
    );
    assert_eq!(collected[0], collected[1]);
}
