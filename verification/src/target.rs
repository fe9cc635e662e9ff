//! Where the data goes that a client receives.
use crate::payload::{Action, Payload, Timing};
use crate::pdu;
use vstd::prelude::*;

verus! {

//------------ VrpTarget -----------------------------------------------------

/// A type that keeps data received via RTR.
///
/// The data of the target consists of a set of items called VRPs for
/// Validated RPKI Payload. It is modified by atomic updates that add or
/// remove items of the set.
///
/// This trait provides methods to start and to apply updates, which are
/// collected into a different type that implements the companion
/// [`VrpUpdate`] trait.
///
/// With [`VrpTarget::starts`] and [`VrpTarget::applies`] an implementation can
/// say what its methods do. It does not have to: left as they are, they hold of
/// whatever the methods do.
pub trait VrpTarget {
    /// The type of a single update.
    type Update: VrpUpdate;

    /// Whether starting an update may turn this target into `after` and
    /// return `update`.
    open spec fn starts(&self, reset: bool, after: &Self, update: &Self::Update) -> bool {
        true
    }

    /// Starts a new update.
    ///
    /// If the update is for a reset query, `reset` will be `true`, meaning
    /// that when the update is applied, all previous data should be removed.
    /// This flag is repeated later in `apply`, leaving it to implementations
    /// whether to store updates differently for reset and serial queries.
    fn start(&mut self, reset: bool) -> (update: Self::Update)
        ensures
            old(self).starts(reset, final(self), &update),
    ;

    /// Whether applying `update` may turn this target into `after` and return
    /// `result`.
    open spec fn applies(
        &self,
        update: Self::Update,
        reset: bool,
        timing: Timing,
        after: &Self,
        result: Result<(), VrpError>,
    ) -> bool {
        true
    }

    /// Applies an update to the target.
    ///
    /// The data to apply is handed over via `update`. If `reset` is `true`,
    /// the data should replace the current data of the target. Otherwise its
    /// entries should be added and removed according to the action. The
    /// `timing` parameter contains the timing information provided by the
    /// server.
    fn apply(&mut self, update: Self::Update, reset: bool, timing: Timing) -> (result: Result<
        (),
        VrpError,
    >)
        ensures
            old(self).applies(update, reset, timing, final(self), result),
    ;
}

//------------ VrpUpdate -----------------------------------------------------

/// A type that can receive a VRP data update.
///
/// The update happens by repeatedly calling [`VrpUpdate::push_vrp`] with a
/// single update as received by the client. The data is not filtered. It may
/// contain duplicates and it may conflict with the current data set. It is
/// the task of the implementor to deal with such situations.
///
/// A value of this type is created via [`VrpTarget::start`] when the client
/// starts processing an update. If the update succeeds, the value is applied
/// to the target by giving it to [`VrpTarget::apply`]. If the update fails at
/// any point, the value is simply dropped.
///
/// With [`VrpUpdate::pushes`] an implementation can say what its method does.
pub trait VrpUpdate {
    /// Whether pushing a VRP may turn this update into `after` and return
    /// `result`.
    open spec fn pushes(
        &self,
        action: Action,
        payload: Payload,
        after: &Self,
        result: Result<(), VrpError>,
    ) -> bool {
        true
    }

    /// Updates one single VRP.
    ///
    /// The `action` argument describes whether the VRP is to be announced,
    /// i.e., added to the data set, or withdrawn, i.e., removed. The VRP
    /// itself is given via `payload`.
    fn push_vrp(&mut self, action: Action, payload: Payload) -> (result: Result<(), VrpError>)
        ensures
            old(self).pushes(action, payload, final(self), result),
    ;
}

impl VrpUpdate for Vec<(Action, Payload)> {
    /// The VRP is appended, whatever it is.
    open spec fn pushes(
        &self,
        action: Action,
        payload: Payload,
        after: &Self,
        result: Result<(), VrpError>,
    ) -> bool {
        &&& after@ == self@.push((action, payload))
        &&& result == Ok::<(), VrpError>(())
    }

    fn push_vrp(&mut self, action: Action, payload: Payload) -> (result: Result<(), VrpError>)
        ensures
            final(self)@ == old(self)@.push((action, payload)),
            result is Ok,
    {
        self.push((action, payload));
        Ok(())
    }
}

//------------ VrpError ------------------------------------------------------

/// A received VRP was not acceptable.
#[derive(Clone, Copy, Debug, PartialEq, Eq)]
pub enum VrpError {
    /// A nonexisting record was withdrawn.
    UnknownWithdraw,

    /// An existing record was announced again.
    DuplicateAnnounce,

    /// The record is corrupt.
    Corrupt,

    /// An internal error in the receiver happened.
    Internal,
}

impl VrpError {
    /// The code that stands for the error on the wire.
    pub open spec fn code(self) -> u16 {
        match self {
            VrpError::UnknownWithdraw => 6,
            VrpError::DuplicateAnnounce => 7,
            VrpError::Corrupt => 0,
            VrpError::Internal => 1,
        }
    }

    /// Returns the code that stands for the error on the wire.
    pub fn error_code(self) -> (code: u16)
        ensures
            code == self.code(),
            code == match self {
                VrpError::UnknownWithdraw => 6u16,
                VrpError::DuplicateAnnounce => 7,
                VrpError::Corrupt => 0,
                VrpError::Internal => 1,
            },
    {
        match self {
            VrpError::UnknownWithdraw => 6,
            VrpError::DuplicateAnnounce => 7,
            VrpError::Corrupt => 0,
            VrpError::Internal => 1,
        }
    }

    /// The message that tells the server about the error.
    pub open spec fn message(self, version: u8, pdu: Option<pdu::Payload>) -> pdu::Message {
        pdu::Message::Error(pdu::Error { version, code: self.code(), pdu })
    }

    /// Returns the message that tells the server about the error.
    ///
    /// It holds the PDU that caused the error, if there is one.
    pub fn report(self, version: u8, pdu: Option<pdu::Payload>) -> (message: pdu::Message)
        ensures
            message == self.message(version, pdu),
    {
        pdu::Message::Error(pdu::Error { version, code: self.error_code(), pdu })
    }
}

//------------ Laws ----------------------------------------------------------

/// The server is told what was wrong with its data: 6 for a withdrawal of what
/// is not there, 7 for an announcement of what is there already, 0 for corrupt
/// data and 1 for an internal error. It is told so in the version that is in
/// use, together with the PDU that caused the error.
pub proof fn report_tells_what_was_wrong(error: VrpError, version: u8, pdu: Option<pdu::Payload>)
    ensures
        error.message(version, pdu) matches pdu::Message::Error(report) && report.version
            == version && report.pdu == pdu && report.code == error.code() && match report.code {
            6 => error is UnknownWithdraw,
            7 => error is DuplicateAnnounce,
            0 => error is Corrupt,
            1 => error is Internal,
            _ => false,
        },
{
}

/// A vector accepts any VRP and holds it last, after all that it held before.
pub proof fn vector_accepts_any_vrp(
    before: Vec<(Action, Payload)>,
    action: Action,
    payload: Payload,
    after: Vec<(Action, Payload)>,
    result: Result<(), VrpError>,
)
    requires
        before.pushes(action, payload, &after, result),
    ensures
        result is Ok,
        after@.len() == before@.len() + 1,
        after@.last() == (action, payload),
        forall|i: int| 0 <= i < before@.len() ==> after@[i] == before@[i],
{
}

} // verus!
