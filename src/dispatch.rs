use vstd::prelude::*;
use crate::json::Json;
use crate::point::{conversion, value_to_point, ConversionError, PointRequest};

verus! {

/// Where an upsert session stands. `Failed` is terminal.
#[derive(Clone, Copy, Debug, PartialEq, Eq, Structural)]
pub enum SessionState {
    /// Holding the store connection, waiting for the next record.
    Ready,
    /// One upsert has been handed out and its answer is awaited.
    Awaiting,
    /// A record or the store failed; no more records are processed.
    Failed,
}

/// What the store answered to an upsert that waited for completion.
#[derive(Debug)]
pub enum UpsertOutcome {
    /// The call returned a status object.
    Acknowledged,
    /// The call returned without a status object.
    NoStatus,
    /// The call itself failed, with the transport's message.
    TransportFailed(String),
}

/// Why a session ended.
#[derive(Debug)]
pub enum SinkFailure {
    /// The record's bytes were not JSON text; the decoder's message.
    Decode(String),
    /// The document was not a valid point.
    Validation(ConversionError),
    /// The store failed or did not confirm the upsert.
    Remote(String),
}

/// What the caller does next.
#[derive(Debug)]
pub enum Step {
    /// Upsert this one point into `collection`, waiting for completion, and
    /// report the answer through `on_upsert`.
    Upsert { collection: String, point: PointRequest },
    /// The record is stored: go on with the next one.
    Continue,
    /// End the session with this failure.
    Halt(SinkFailure),
    /// The session has already failed: nothing was done.
    Stopped,
}

/// The message of a failure when the store answered without a status.
pub open spec fn no_status_message() -> Seq<char> {
    "Failed to upsert point"@
}

/// Decides, one record at a time, what an upsert session does. Records are
/// handled strictly in order: the next one is taken only after the store has
/// confirmed the previous upsert, and the first failure ends the session.
pub struct Dispatcher {
    state: SessionState,
}

impl Dispatcher {
    pub closed spec fn spec_state(&self) -> SessionState {
        self.state
    }

    /// A session that has processed nothing yet.
    pub fn new() -> (d: Dispatcher)
        ensures
            d.spec_state() == SessionState::Ready,
    {
        Dispatcher { state: SessionState::Ready }
    }

    pub fn state(&self) -> (s: SessionState)
        ensures
            s == self.spec_state(),
    {
        self.state
    }

    /// Takes one record, already decoded (or the decoder's message), and
    /// says what to do with it.
    pub fn on_record(&mut self, decoded: Result<Json, String>) -> (step: Step)
        requires
            old(self).spec_state() != SessionState::Awaiting,
        ensures
            old(self).spec_state() == SessionState::Failed ==> final(self).spec_state()
                == SessionState::Failed && step is Stopped,
            old(self).spec_state() == SessionState::Ready ==> match decoded {
                Err(m) => final(self).spec_state() == SessionState::Failed && (step matches Step::Halt(
                    SinkFailure::Decode(x),
                ) && x@ == m@),
                Ok(j) => match conversion(j) {
                    Err(e) => final(self).spec_state() == SessionState::Failed && (
                    step matches Step::Halt(SinkFailure::Validation(x)) && x@ == e),
                    Ok((c, p)) => final(self).spec_state() == SessionState::Awaiting && (
                    step matches Step::Upsert { collection, point } && collection@ == c
                        && point@ == p),
                },
            },
    {
        if self.state == SessionState::Failed {
            return Step::Stopped;
        }
        match decoded {
            Err(m) => {
                self.state = SessionState::Failed;
                Step::Halt(SinkFailure::Decode(m))
            },
            Ok(j) => match value_to_point(j) {
                Err(e) => {
                    self.state = SessionState::Failed;
                    Step::Halt(SinkFailure::Validation(e))
                },
                Ok((collection, point)) => {
                    self.state = SessionState::Awaiting;
                    Step::Upsert { collection, point }
                },
            },
        }
    }

    /// Takes the store's answer to the upsert handed out last.
    pub fn on_upsert(&mut self, outcome: UpsertOutcome) -> (step: Step)
        requires
            old(self).spec_state() == SessionState::Awaiting,
        ensures
            match outcome {
                UpsertOutcome::Acknowledged => final(self).spec_state() == SessionState::Ready
                    && step is Continue,
                UpsertOutcome::NoStatus => final(self).spec_state() == SessionState::Failed && (
                step matches Step::Halt(SinkFailure::Remote(x)) && x@ == no_status_message()),
                UpsertOutcome::TransportFailed(m) => final(self).spec_state()
                    == SessionState::Failed && (step matches Step::Halt(SinkFailure::Remote(x))
                    && x@ == m@),
            },
    {
        match outcome {
            UpsertOutcome::Acknowledged => {
                self.state = SessionState::Ready;
                Step::Continue
            },
            UpsertOutcome::NoStatus => {
                self.state = SessionState::Failed;
                let m = String::from_str("Failed to upsert point");
                proof {
                    reveal_strlit("Failed to upsert point");
                }
                Step::Halt(SinkFailure::Remote(m))
            },
            UpsertOutcome::TransportFailed(m) => {
                self.state = SessionState::Failed;
                Step::Halt(SinkFailure::Remote(m))
            },
        }
    }
}

} // verus!
