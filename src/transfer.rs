//! The driver callback's logic for an "item ready" event: read the item's
//! metadata, open a destination stream, transfer the bytes, mark the transfer
//! complete, release the stream, and route the outcome into the completion
//! slot. Each driver call is made by the caller of `step`, which hands its
//! result back as a `TransferEvent`.
use vstd::prelude::*;
use crate::bridge::{CaptureError, CaptureOutcome, CompletionSlot, SlotView};
use crate::capture::{CaptureAction, CapturePhase, CaptureView};
use crate::edsdk::{EdsError, OBJECT_EVENT_DIR_ITEM_CREATED, OBJECT_EVENT_DIR_ITEM_REQUEST_TRANSFER};

verus! {

pub open spec fn is_item_ready_spec(event: u32) -> bool {
    event == OBJECT_EVENT_DIR_ITEM_CREATED || event == OBJECT_EVENT_DIR_ITEM_REQUEST_TRANSFER
}

/// Whether a driver object event announces an item to be transferred.
pub fn is_item_ready_event(event: u32) -> (r: bool)
    ensures
        r == is_item_ready_spec(event),
{
    event == OBJECT_EVENT_DIR_ITEM_CREATED || event == OBJECT_EVENT_DIR_ITEM_REQUEST_TRANSFER
}

/// The driver call whose result the transfer waits for.
#[derive(PartialEq, Eq, Structural, Clone, Copy, Debug)]
pub enum TransferStep {
    QueryInfo,
    CreateStream,
    Download,
    MarkComplete,
    ReleaseStream,
    Finished,
}

/// The result of the driver call that the transfer asked for.
pub enum TransferEvent {
    /// Item metadata: the status of the query, the item's size and name.
    ItemInfo { status: EdsError, size: u64, name: String },
    /// The destination path could not be handed to the driver.
    InvalidPath,
    StreamCreated(EdsError),
    Downloaded(EdsError),
    DownloadCompleted(EdsError),
    StreamReleased(EdsError),
}

/// What the caller of `step` does next.
#[derive(PartialEq, Eq, Structural, Clone, Copy, Debug)]
pub enum TransferAction {
    /// Open a destination stream for the item (named by `item_name`).
    CreateStream,
    /// Transfer `size` bytes of the item into the stream.
    Download { size: u64 },
    /// Tell the camera the transfer is complete.
    MarkComplete,
    /// Release the destination stream.
    ReleaseStream,
    /// Done; the outcome went to the completion slot and `status` is what
    /// the callback returns to the driver.
    Finish { status: EdsError },
}

/// The mathematical state of a transfer.
pub struct TransferView {
    pub step: TransferStep,
    pub name: Option<String>,
    pub size: u64,
    /// A failure already decided, reported once the stream is released.
    pub failure: Option<(CaptureError, EdsError)>,
}

/// What a transition produces: the next state, the action, and the outcome
/// delivered to the slot, if the transfer finished.
pub struct Transition {
    pub next: TransferView,
    pub action: TransferAction,
    pub delivered: Option<CaptureOutcome>,
}

pub open spec fn accepts_spec(step: TransferStep, event: TransferEvent) -> bool {
    match event {
        TransferEvent::ItemInfo { .. } => step == TransferStep::QueryInfo,
        TransferEvent::InvalidPath => step == TransferStep::CreateStream,
        TransferEvent::StreamCreated(_) => step == TransferStep::CreateStream,
        TransferEvent::Downloaded(_) => step == TransferStep::Download,
        TransferEvent::DownloadCompleted(_) => step == TransferStep::MarkComplete,
        TransferEvent::StreamReleased(_) => step == TransferStep::ReleaseStream,
    }
}

impl TransferView {
    /// Between reading the metadata and finishing, the item's name is held.
    pub open spec fn wf(self) -> bool {
        match self.step {
            TransferStep::QueryInfo | TransferStep::Finished => true,
            _ => self.name is Some,
        }
    }

    pub open spec fn finish(self, outcome: CaptureOutcome, status: EdsError) -> Transition {
        Transition {
            next: TransferView { step: TransferStep::Finished, name: None, ..self },
            action: TransferAction::Finish { status },
            delivered: Some(outcome),
        }
    }

    pub open spec fn to_release(self, failure: Option<(CaptureError, EdsError)>) -> Transition {
        Transition {
            next: TransferView { step: TransferStep::ReleaseStream, failure, ..self },
            action: TransferAction::ReleaseStream,
            delivered: None,
        }
    }

    /// The transition taken on `event`, which the current step accepts.
    pub open spec fn next(self, event: TransferEvent) -> Transition {
        match event {
            TransferEvent::ItemInfo { status, size, name } => if status.is_ok_spec() {
                Transition {
                    next: TransferView {
                        step: TransferStep::CreateStream,
                        name: Some(name),
                        size,
                        ..self
                    },
                    action: TransferAction::CreateStream,
                    delivered: None,
                }
            } else {
                self.finish(Err(CaptureError::DirectoryInfo(status.code_spec())), status)
            },
            TransferEvent::InvalidPath => self.finish(
                Err(CaptureError::InvalidPath),
                EdsError::NoError,
            ),
            TransferEvent::StreamCreated(status) => if status.is_ok_spec() {
                Transition {
                    next: TransferView { step: TransferStep::Download, ..self },
                    action: TransferAction::Download { size: self.size },
                    delivered: None,
                }
            } else {
                self.finish(Err(CaptureError::CreateStream(status.code_spec())), status)
            },
            TransferEvent::Downloaded(status) => if status.is_ok_spec() {
                Transition {
                    next: TransferView { step: TransferStep::MarkComplete, ..self },
                    action: TransferAction::MarkComplete,
                    delivered: None,
                }
            } else {
                self.to_release(Some((CaptureError::Download(status.code_spec()), status)))
            },
            TransferEvent::DownloadCompleted(status) => if status.is_ok_spec() {
                self.to_release(None)
            } else {
                self.to_release(
                    Some((CaptureError::DownloadComplete(status.code_spec()), status)),
                )
            },
            TransferEvent::StreamReleased(status) => match self.failure {
                Some((e, failed)) => self.finish(Err(e), failed),
                None => if status.is_ok_spec() {
                    match self.name {
                        Some(n) => self.finish(Ok(n), EdsError::NoError),
                        None => arbitrary(),
                    }
                } else {
                    self.finish(Err(CaptureError::ReleaseStream(status.code_spec())), status)
                },
            },
        }
    }
}

/// One transfer of a captured item, from its announcement to its outcome.
pub struct ItemTransfer {
    step: TransferStep,
    name: Option<String>,
    size: u64,
    failure: Option<(CaptureError, EdsError)>,
}

impl View for ItemTransfer {
    type V = TransferView;

    closed spec fn view(&self) -> TransferView {
        TransferView { step: self.step, name: self.name, size: self.size, failure: self.failure }
    }
}

impl ItemTransfer {
    /// Classifies a driver object event. A transfer starts only for an
    /// "item ready" event while a request waits on the slot; any other event,
    /// and one that nobody asked for, is a no-op. A started transfer first
    /// queries the item's metadata.
    pub fn begin(event: u32, slot: &CompletionSlot) -> (r: Option<ItemTransfer>)
        ensures
            r is Some <==> is_item_ready_spec(event) && slot@.awaiting(),
            r matches Some(t) ==> t@ == (TransferView {
                step: TransferStep::QueryInfo,
                name: None,
                size: 0,
                failure: None,
            }),
    {
        if is_item_ready_event(event) && slot.is_awaiting() {
            Some(ItemTransfer { step: TransferStep::QueryInfo, name: None, size: 0, failure: None })
        } else {
            None
        }
    }

    pub fn current_step(&self) -> (r: TransferStep)
        ensures
            r == self@.step,
    {
        self.step
    }

    /// The item's name, once its metadata was read.
    pub fn item_name(&self) -> (r: Option<&String>)
        ensures
            r == (match self@.name {
                Some(n) => Some(&n),
                None => None,
            }),
    {
        match &self.name {
            Some(n) => Some(n),
            None => None,
        }
    }

    /// Whether `event` answers the driver call the transfer waits for.
    pub fn accepts(&self, event: &TransferEvent) -> (r: bool)
        ensures
            r == accepts_spec(self@.step, *event),
    {
        match event {
            TransferEvent::ItemInfo { .. } => self.step == TransferStep::QueryInfo,
            TransferEvent::InvalidPath => self.step == TransferStep::CreateStream,
            TransferEvent::StreamCreated(_) => self.step == TransferStep::CreateStream,
            TransferEvent::Downloaded(_) => self.step == TransferStep::Download,
            TransferEvent::DownloadCompleted(_) => self.step == TransferStep::MarkComplete,
            TransferEvent::StreamReleased(_) => self.step == TransferStep::ReleaseStream,
        }
    }

    fn finish(&mut self, outcome: CaptureOutcome, status: EdsError, slot: &mut CompletionSlot) -> (r:
        TransferAction)
        ensures
            final(self)@ == (TransferView { step: TransferStep::Finished, name: None, ..old(self)@ }),
            r == (TransferAction::Finish { status }),
            final(slot)@ == old(slot)@.deliver(outcome),
    {
        self.step = TransferStep::Finished;
        self.name = None;
        slot.deliver(outcome);
        TransferAction::Finish { status }
    }

    /// Advances the transfer by the result of the driver call it asked for.
    /// When the transfer finishes, its outcome goes to the slot, which keeps
    /// it only where a request still waits there.
    pub fn step(&mut self, event: TransferEvent, slot: &mut CompletionSlot) -> (r: TransferAction)
        requires
            old(self)@.wf(),
            accepts_spec(old(self)@.step, event),
        ensures
            final(self)@ == old(self)@.next(event).next,
            final(self)@.wf(),
            r == old(self)@.next(event).action,
            final(slot)@ == (match old(self)@.next(event).delivered {
                Some(o) => old(slot)@.deliver(o),
                None => old(slot)@,
            }),
    {
        match event {
            TransferEvent::ItemInfo { status, size, name } => {
                if status.is_ok() {
                    self.step = TransferStep::CreateStream;
                    self.name = Some(name);
                    self.size = size;
                    TransferAction::CreateStream
                } else {
                    self.finish(Err(CaptureError::DirectoryInfo(status.code())), status, slot)
                }
            },
            TransferEvent::InvalidPath => {
                self.finish(Err(CaptureError::InvalidPath), EdsError::NoError, slot)
            },
            TransferEvent::StreamCreated(status) => {
                if status.is_ok() {
                    self.step = TransferStep::Download;
                    TransferAction::Download { size: self.size }
                } else {
                    self.finish(Err(CaptureError::CreateStream(status.code())), status, slot)
                }
            },
            TransferEvent::Downloaded(status) => {
                if status.is_ok() {
                    self.step = TransferStep::MarkComplete;
                    TransferAction::MarkComplete
                } else {
                    self.step = TransferStep::ReleaseStream;
                    self.failure = Some((CaptureError::Download(status.code()), status));
                    TransferAction::ReleaseStream
                }
            },
            TransferEvent::DownloadCompleted(status) => {
                self.step = TransferStep::ReleaseStream;
                if status.is_ok() {
                    self.failure = None;
                } else {
                    self.failure = Some((CaptureError::DownloadComplete(status.code()), status));
                }
                TransferAction::ReleaseStream
            },
            TransferEvent::StreamReleased(status) => {
                match self.failure {
                    Some((e, failed)) => self.finish(Err(e), failed, slot),
                    None => {
                        if status.is_ok() {
                            let name = self.name.take();
                            match name {
                                Some(n) => self.finish(Ok(n), EdsError::NoError, slot),
                                None => TransferAction::ReleaseStream,
                            }
                        } else {
                            self.finish(
                                Err(CaptureError::ReleaseStream(status.code())),
                                status,
                                slot,
                            )
                        }
                    },
                }
            },
        }
    }
}

/// A capture whose shutter press succeeds, followed by an item-ready event
/// whose every transfer call succeeds, replies with the item's name, and the
/// slot is free again afterwards.
pub proof fn lemma_successful_transfer_answers_capture(
    c: CaptureView,
    slot: SlotView,
    size: u64,
    name: String,
)
    requires
        c.wf(),
        c.phase == CapturePhase::Idle,
    ensures
        ({
            let started = c.start(slot);
            let sent = started.capture.on_command_status(EdsError::NoError, started.slot);
            let t0 = TransferView { step: TransferStep::QueryInfo, name: None, size: 0, failure: None };
            let t1 = t0.next(TransferEvent::ItemInfo { status: EdsError::NoError, size, name });
            let t2 = t1.next.next(TransferEvent::StreamCreated(EdsError::NoError));
            let t3 = t2.next.next(TransferEvent::Downloaded(EdsError::NoError));
            let t4 = t3.next.next(TransferEvent::DownloadCompleted(EdsError::NoError));
            let t5 = t4.next.next(TransferEvent::StreamReleased(EdsError::NoError));
            let done = sent.capture.after_poll(sent.slot.deliver(t5.delivered.unwrap()));
            &&& sent.slot.awaiting()
            &&& t1.action == TransferAction::CreateStream
            &&& t2.action == (TransferAction::Download { size })
            &&& t3.action == TransferAction::MarkComplete
            &&& t4.action == TransferAction::ReleaseStream
            &&& t5.action == (TransferAction::Finish { status: EdsError::NoError })
            &&& t5.delivered == Some(Ok::<String, CaptureError>(name))
            &&& done.action == CaptureAction::Reply(Ok(name))
            &&& done.slot == SlotView::released()
        }),
{
}

} // verus!
