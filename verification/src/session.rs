//! The update agent as a state machine.
//!
//! The driver performs one action at a time (send the request, begin the
//! write, read a chunk, store it, flush, reset) and reports how it went as an
//! event. The session decides from its state and the event what happens
//! next. It never asks for a reboot before the staged image was validated.

use vstd::prelude::*;
use crate::advert::UpdateAdvertisement;

verus! {

/// Where an update attempt stands.
#[derive(Debug, Clone, Copy, PartialEq, Eq, Structural)]
pub enum Phase {
    /// Nothing was asked of the driver yet.
    Idle,
    /// The request is under way.
    Requesting,
    /// The image is being streamed into the staging area.
    Receiving,
    /// The staging area is being validated and applied.
    Verifying,
    /// The new image is the boot target; the reset is due.
    Committing,
    /// The reset was requested: the attempt succeeded.
    Rebooting,
    /// The attempt was given up. Unless that happened while committing, the
    /// boot target is untouched and the running image stays.
    Aborted,
}

/// Why an attempt was given up.
#[derive(Debug, Clone, Copy, PartialEq, Eq, Structural)]
pub enum AbortCause {
    /// The request did not complete in time.
    Timeout,
    /// The connection failed, for the request or in the middle of the body.
    Transport,
    /// The response announced an image of no bytes.
    NothingToUpdate,
    /// The body ended before the announced length was reached.
    PrematureEnd,
    /// The staged image does not have the announced checksum.
    ChecksumMismatch,
    /// The storage reported a failure.
    Storage,
    /// The driver reported something the session was not waiting for.
    Unexpected,
}

/// The kinds of failure an attempt can meet.
#[derive(Debug, Clone, Copy, PartialEq, Eq, Structural)]
pub enum ErrorClass {
    Transport,
    Protocol,
    Integrity,
    Storage,
}

/// What the session is waiting for.
#[derive(Debug, Clone, Copy, PartialEq, Eq, Structural)]
pub enum Stage {
    /// Waiting to be started.
    Idle,
    /// Waiting for the response to the request.
    Requesting,
    /// Waiting for the storage to open the staging area.
    Beginning,
    /// Waiting for a read of at most `asked` bytes.
    Reading { asked: usize },
    /// Waiting for the storage to take the `len` bytes just read.
    Writing { len: usize },
    /// Waiting for the storage to validate and apply the image.
    Flushing,
    /// Waiting for the reset to be requested.
    Resetting,
    /// Finished: the reset was requested.
    Rebooting,
    /// Finished: given up for `cause` while in phase `during`.
    Aborted { cause: AbortCause, during: Phase },
}

/// What the driver reports to the session.
#[derive(Debug, Clone, Copy, PartialEq, Eq, Structural)]
pub enum Event {
    /// The caller wants an update attempt.
    Start,
    /// The server answered with this announcement.
    Response(UpdateAdvertisement),
    /// The request ran into its timeout.
    RequestTimedOut,
    /// The connection failed.
    TransportFailed,
    /// The storage opened the staging area.
    StorageReady,
    /// A read returned `len` bytes; 0 means the body has ended.
    ChunkRead { len: usize },
    /// The storage took the chunk; `complete` is its own word on whether the
    /// staging area is full.
    ChunkStored { complete: bool },
    /// The storage validated the image and made it the boot target.
    ImageCommitted,
    /// The storage found a checksum other than the announced one.
    ChecksumRejected,
    /// The storage failed.
    StorageFailed,
    /// The reset was requested.
    ResetRequested,
}

/// What the session asks of the driver.
#[derive(Debug, Clone, Copy, PartialEq, Eq, Structural)]
pub enum Action {
    /// Send the request, bounded by the request timeout.
    SendRequest,
    /// Open the staging area for `size` bytes with checksum `checksum`.
    BeginWrite { size: u32, checksum: u32 },
    /// Feed the watchdog, then read at most `max_len` bytes of the body.
    ReadChunk { max_len: usize },
    /// Hand the `len` bytes just read to the storage.
    WriteChunk { len: usize },
    /// Have the storage validate the image and make it the boot target.
    Flush { validate: bool, apply: bool },
    /// Reset the device.
    Reboot,
    /// Log the failure and hand control back: no reboot.
    Abandon { cause: AbortCause, during: Phase },
    /// Nothing: the session has finished.
    Halt,
}

/// The phase that a stage belongs to.
pub open spec fn phase_of(stage: Stage) -> Phase {
    match stage {
        Stage::Idle => Phase::Idle,
        Stage::Requesting => Phase::Requesting,
        Stage::Beginning => Phase::Receiving,
        Stage::Reading { .. } => Phase::Receiving,
        Stage::Writing { .. } => Phase::Receiving,
        Stage::Flushing => Phase::Verifying,
        Stage::Resetting => Phase::Committing,
        Stage::Rebooting => Phase::Rebooting,
        Stage::Aborted { .. } => Phase::Aborted,
    }
}

/// The kind of failure behind a cause.
pub open spec fn class_of(cause: AbortCause) -> ErrorClass {
    match cause {
        AbortCause::Timeout => ErrorClass::Transport,
        AbortCause::Transport => ErrorClass::Transport,
        AbortCause::PrematureEnd => ErrorClass::Transport,
        AbortCause::NothingToUpdate => ErrorClass::Protocol,
        AbortCause::Unexpected => ErrorClass::Protocol,
        AbortCause::ChecksumMismatch => ErrorClass::Integrity,
        AbortCause::Storage => ErrorClass::Storage,
    }
}

/// The smaller of the buffer's capacity and the bytes still to come.
pub open spec fn chunk_limit(capacity: usize, remaining: u32) -> usize {
    if remaining as int <= capacity as int {
        remaining as usize
    } else {
        capacity
    }
}

/// An update session as plain values.
pub struct SessionModel {
    pub stage: Stage,
    /// Size of the driver's chunk buffer.
    pub capacity: usize,
    /// Announced size of the image; 0 until a response came.
    pub expected_size: u32,
    /// Announced checksum of the image; 0 until a response came.
    pub target_checksum: u32,
    /// Bytes that the storage has taken so far.
    pub bytes_written: u32,
}

impl SessionModel {
    /// A session that has not started.
    pub open spec fn fresh(capacity: usize) -> SessionModel {
        SessionModel {
            stage: Stage::Idle,
            capacity,
            expected_size: 0,
            target_checksum: 0,
            bytes_written: 0,
        }
    }

    /// The phase that the session is in.
    pub open spec fn phase(self) -> Phase {
        phase_of(self.stage)
    }

    /// Bytes of the image that the storage has not taken yet.
    pub open spec fn remaining(self) -> u32 {
        (self.expected_size - self.bytes_written) as u32
    }

    /// True once the session has reached `Rebooting` or `Aborted`.
    pub open spec fn finished(self) -> bool {
        self.stage is Rebooting || self.stage is Aborted
    }

    /// What holds of every session: it never counts more bytes than were
    /// announced, and what it waits for fits what is left to do.
    pub open spec fn wf(self) -> bool {
        &&& self.bytes_written <= self.expected_size
        &&& match self.stage {
            Stage::Idle | Stage::Requesting => self.expected_size == 0,
            Stage::Beginning => self.expected_size > 0 && self.bytes_written == 0,
            Stage::Reading { asked } => self.bytes_written < self.expected_size && asked
                == chunk_limit(self.capacity, self.remaining()),
            Stage::Writing { len } => 0 < len <= chunk_limit(self.capacity, self.remaining()),
            _ => true,
        }
    }

    /// The session given up for `cause`, and the action that says so.
    pub open spec fn abort(self, cause: AbortCause) -> (SessionModel, Action) {
        (
            SessionModel { stage: Stage::Aborted { cause, during: self.phase() }, ..self },
            Action::Abandon { cause, during: self.phase() },
        )
    }

    /// The session asking for the next chunk.
    pub open spec fn read_next(self) -> (SessionModel, Action) {
        let asked = chunk_limit(self.capacity, self.remaining());
        (SessionModel { stage: Stage::Reading { asked }, ..self }, Action::ReadChunk { max_len: asked })
    }

    /// The session after the storage took a chunk of `len` bytes: it asks for
    /// the flush once all announced bytes are in or the storage calls the
    /// image complete, and for the next chunk otherwise.
    pub open spec fn stored(self, len: usize, complete: bool) -> (SessionModel, Action) {
        let counted = SessionModel { bytes_written: (self.bytes_written + len) as u32, ..self };
        if complete || counted.bytes_written == counted.expected_size {
            (
                SessionModel { stage: Stage::Flushing, ..counted },
                Action::Flush { validate: true, apply: true },
            )
        } else {
            counted.read_next()
        }
    }

    /// The state after `event` and the action that the session asks for.
    pub open spec fn advance(self, event: Event) -> (SessionModel, Action) {
        match (self.stage, event) {
            (Stage::Rebooting, _) => (self, Action::Halt),
            (Stage::Aborted { .. }, _) => (self, Action::Halt),
            (Stage::Idle, Event::Start) => (
                SessionModel { stage: Stage::Requesting, ..self },
                Action::SendRequest,
            ),
            (Stage::Requesting, Event::Response(advert)) => if advert.content_length == 0 {
                self.abort(AbortCause::NothingToUpdate)
            } else {
                (
                    SessionModel {
                        stage: Stage::Beginning,
                        expected_size: advert.content_length,
                        target_checksum: advert.target_checksum,
                        ..self
                    },
                    Action::BeginWrite {
                        size: advert.content_length,
                        checksum: advert.target_checksum,
                    },
                )
            },
            (Stage::Requesting, Event::RequestTimedOut) => self.abort(AbortCause::Timeout),
            (Stage::Requesting, Event::TransportFailed) => self.abort(AbortCause::Transport),
            (Stage::Beginning, Event::StorageReady) => self.read_next(),
            (Stage::Beginning, Event::StorageFailed) => self.abort(AbortCause::Storage),
            (Stage::Reading { asked }, Event::ChunkRead { len }) => if len == 0 {
                self.abort(AbortCause::PrematureEnd)
            } else if len <= asked {
                (SessionModel { stage: Stage::Writing { len }, ..self }, Action::WriteChunk { len })
            } else {
                self.abort(AbortCause::Unexpected)
            },
            (Stage::Reading { .. }, Event::TransportFailed) => self.abort(AbortCause::Transport),
            (Stage::Writing { len }, Event::ChunkStored { complete }) => self.stored(len, complete),
            (Stage::Writing { .. }, Event::StorageFailed) => self.abort(AbortCause::Storage),
            (Stage::Flushing, Event::ImageCommitted) => (
                SessionModel { stage: Stage::Resetting, ..self },
                Action::Reboot,
            ),
            (Stage::Flushing, Event::ChecksumRejected) => self.abort(
                AbortCause::ChecksumMismatch,
            ),
            (Stage::Flushing, Event::StorageFailed) => self.abort(AbortCause::Storage),
            (Stage::Resetting, Event::ResetRequested) => (
                SessionModel { stage: Stage::Rebooting, ..self },
                Action::Halt,
            ),
            _ => self.abort(AbortCause::Unexpected),
        }
    }
}

/// One update attempt. It is made for a single attempt and is dropped when
/// the attempt ends, whichever way.
#[derive(Debug)]
pub struct UpdateSession {
    stage: Stage,
    capacity: usize,
    expected_size: u32,
    target_checksum: u32,
    bytes_written: u32,
}

impl View for UpdateSession {
    type V = SessionModel;

    closed spec fn view(&self) -> SessionModel {
        SessionModel {
            stage: self.stage,
            capacity: self.capacity,
            expected_size: self.expected_size,
            target_checksum: self.target_checksum,
            bytes_written: self.bytes_written,
        }
    }
}

/// Computes how many bytes to ask of the next read.
pub fn chunk_len(capacity: usize, remaining: u32) -> (len: usize)
    ensures
        len == chunk_limit(capacity, remaining),
{
    if remaining as u64 <= capacity as u64 {
        remaining as usize
    } else {
        capacity
    }
}

/// Tells the phase that a stage belongs to.
pub fn stage_phase(stage: Stage) -> (phase: Phase)
    ensures
        phase == phase_of(stage),
{
    match stage {
        Stage::Idle => Phase::Idle,
        Stage::Requesting => Phase::Requesting,
        Stage::Beginning => Phase::Receiving,
        Stage::Reading { .. } => Phase::Receiving,
        Stage::Writing { .. } => Phase::Receiving,
        Stage::Flushing => Phase::Verifying,
        Stage::Resetting => Phase::Committing,
        Stage::Rebooting => Phase::Rebooting,
        Stage::Aborted { .. } => Phase::Aborted,
    }
}

/// Tells the kind of failure behind a cause.
pub fn error_class(cause: AbortCause) -> (class: ErrorClass)
    ensures
        class == class_of(cause),
{
    match cause {
        AbortCause::Timeout => ErrorClass::Transport,
        AbortCause::Transport => ErrorClass::Transport,
        AbortCause::PrematureEnd => ErrorClass::Transport,
        AbortCause::NothingToUpdate => ErrorClass::Protocol,
        AbortCause::Unexpected => ErrorClass::Protocol,
        AbortCause::ChecksumMismatch => ErrorClass::Integrity,
        AbortCause::Storage => ErrorClass::Storage,
    }
}

impl UpdateSession {
    #[verifier::type_invariant]
    spec fn inv(self) -> bool {
        self@.wf()
    }

    /// A session for a driver whose chunk buffer holds `capacity` bytes.
    pub fn new(capacity: usize) -> (session: UpdateSession)
        ensures
            session@ == SessionModel::fresh(capacity),
    {
        UpdateSession {
            stage: Stage::Idle,
            capacity,
            expected_size: 0,
            target_checksum: 0,
            bytes_written: 0,
        }
    }

    /// What the session is waiting for.
    pub fn stage(&self) -> (stage: Stage)
        ensures
            stage == self@.stage,
            self@.wf(),
    {
        proof {
            use_type_invariant(self);
        }
        self.stage
    }

    /// Where the attempt stands.
    pub fn phase(&self) -> (phase: Phase)
        ensures
            phase == self@.phase(),
    {
        stage_phase(self.stage)
    }

    /// Size of the driver's chunk buffer.
    pub fn capacity(&self) -> (capacity: usize)
        ensures
            capacity == self@.capacity,
    {
        self.capacity
    }

    /// Announced size of the image; 0 until a response came.
    pub fn expected_size(&self) -> (size: u32)
        ensures
            size == self@.expected_size,
    {
        self.expected_size
    }

    /// Announced checksum of the image; 0 until a response came.
    pub fn target_checksum(&self) -> (checksum: u32)
        ensures
            checksum == self@.target_checksum,
    {
        self.target_checksum
    }

    /// Bytes that the storage has taken so far.
    pub fn bytes_written(&self) -> (count: u32)
        ensures
            count == self@.bytes_written,
            count <= self@.expected_size,
    {
        proof {
            use_type_invariant(self);
        }
        self.bytes_written
    }

    /// Bytes of the image that are still to come.
    pub fn remaining(&self) -> (count: u32)
        ensures
            count == self@.remaining(),
            count == self@.expected_size - self@.bytes_written,
    {
        proof {
            use_type_invariant(self);
        }
        self.expected_size - self.bytes_written
    }

    /// True once the attempt has ended, in `Rebooting` or in `Aborted`.
    pub fn is_finished(&self) -> (done: bool)
        ensures
            done == self@.finished(),
    {
        match self.stage {
            Stage::Rebooting => true,
            Stage::Aborted { .. } => true,
            _ => false,
        }
    }

    /// The reason why the attempt was given up, if it was.
    pub fn abort_cause(&self) -> (cause: Option<AbortCause>)
        ensures
            cause == (match self@.stage {
                Stage::Aborted { cause, .. } => Some(cause),
                _ => None,
            }),
    {
        match self.stage {
            Stage::Aborted { cause, .. } => Some(cause),
            _ => None,
        }
    }

    fn give_up(&mut self, cause: AbortCause) -> (action: Action)
        ensures
            (final(self)@, action) == old(self)@.abort(cause),
    {
        proof {
            use_type_invariant(&*self);
        }
        let during = stage_phase(self.stage);
        self.stage = Stage::Aborted { cause, during };
        Action::Abandon { cause, during }
    }

    fn ask_for_chunk(&mut self) -> (action: Action)
        requires
            old(self)@.bytes_written < old(self)@.expected_size,
        ensures
            (final(self)@, action) == old(self)@.read_next(),
    {
        proof {
            use_type_invariant(&*self);
        }
        let asked = chunk_len(self.capacity, self.expected_size - self.bytes_written);
        self.stage = Stage::Reading { asked };
        Action::ReadChunk { max_len: asked }
    }

    fn count_chunk(&mut self, len: usize, complete: bool) -> (action: Action)
        requires
            old(self)@.stage == (Stage::Writing { len }),
        ensures
            (final(self)@, action) == old(self)@.stored(len, complete),
    {
        proof {
            use_type_invariant(&*self);
        }
        let written: u32 = self.bytes_written + len as u32;
        if complete || written == self.expected_size {
            *self = UpdateSession {
                stage: Stage::Flushing,
                capacity: self.capacity,
                expected_size: self.expected_size,
                target_checksum: self.target_checksum,
                bytes_written: written,
            };
            Action::Flush { validate: true, apply: true }
        } else {
            let asked = chunk_len(self.capacity, self.expected_size - written);
            *self = UpdateSession {
                stage: Stage::Reading { asked },
                capacity: self.capacity,
                expected_size: self.expected_size,
                target_checksum: self.target_checksum,
                bytes_written: written,
            };
            Action::ReadChunk { max_len: asked }
        }
    }

    /// Takes the driver's report and answers with what to do next. A chunk
    /// for the storage is never longer than what is still to come, and a read
    /// never asks for more than the buffer holds.
    pub fn step(&mut self, event: Event) -> (action: Action)
        ensures
            (final(self)@, action) == old(self)@.advance(event),
            final(self)@.wf(),
            action matches Action::WriteChunk { len } ==> 0 < len <= old(self)@.remaining() && len
                <= old(self)@.capacity,
            action matches Action::ReadChunk { max_len } ==> max_len <= old(self)@.capacity
                && max_len <= final(self)@.remaining(),
    {
        proof {
            use_type_invariant(&*self);
        }
        match (self.stage, event) {
            (Stage::Rebooting, _) => Action::Halt,
            (Stage::Aborted { .. }, _) => Action::Halt,
            (Stage::Idle, Event::Start) => {
                self.stage = Stage::Requesting;
                Action::SendRequest
            },
            (Stage::Requesting, Event::Response(advert)) => {
                if advert.content_length == 0 {
                    self.give_up(AbortCause::NothingToUpdate)
                } else {
                    *self = UpdateSession {
                        stage: Stage::Beginning,
                        capacity: self.capacity,
                        expected_size: advert.content_length,
                        target_checksum: advert.target_checksum,
                        bytes_written: self.bytes_written,
                    };
                    Action::BeginWrite {
                        size: advert.content_length,
                        checksum: advert.target_checksum,
                    }
                }
            },
            (Stage::Requesting, Event::RequestTimedOut) => self.give_up(AbortCause::Timeout),
            (Stage::Requesting, Event::TransportFailed) => self.give_up(AbortCause::Transport),
            (Stage::Beginning, Event::StorageReady) => self.ask_for_chunk(),
            (Stage::Beginning, Event::StorageFailed) => self.give_up(AbortCause::Storage),
            (Stage::Reading { asked }, Event::ChunkRead { len }) => {
                if len == 0 {
                    self.give_up(AbortCause::PrematureEnd)
                } else if len <= asked {
                    self.stage = Stage::Writing { len };
                    Action::WriteChunk { len }
                } else {
                    self.give_up(AbortCause::Unexpected)
                }
            },
            (Stage::Reading { .. }, Event::TransportFailed) => self.give_up(AbortCause::Transport),
            (Stage::Writing { len }, Event::ChunkStored { complete }) => self.count_chunk(
                len,
                complete,
            ),
            (Stage::Writing { .. }, Event::StorageFailed) => self.give_up(AbortCause::Storage),
            (Stage::Flushing, Event::ImageCommitted) => {
                self.stage = Stage::Resetting;
                Action::Reboot
            },
            (Stage::Flushing, Event::ChecksumRejected) => self.give_up(
                AbortCause::ChecksumMismatch,
            ),
            (Stage::Flushing, Event::StorageFailed) => self.give_up(AbortCause::Storage),
            (Stage::Resetting, Event::ResetRequested) => {
                self.stage = Stage::Rebooting;
                Action::Halt
            },
            _ => self.give_up(AbortCause::Unexpected),
        }
    }
}

} // verus!
