//! The completion slot: a single-assignment rendezvous that correlates the
//! outcome reported by the driver callback with the one capture request that
//! is waiting for it.
use vstd::prelude::*;

verus! {

/// The decimal digits of `n`, most significant first.
pub open spec fn decimal(n: nat) -> Seq<char>
    decreases n,
{
    let digit = seq!['0', '1', '2', '3', '4', '5', '6', '7', '8', '9'][(n % 10) as int];
    if n < 10 {
        seq![digit]
    } else {
        decimal(n / 10).push(digit)
    }
}

/// Relies on `format!` with `u64`'s `Display`: the prefix followed by the
/// code written in decimal.
#[verifier::external_body]
pub(crate) fn text_with_code(prefix: &str, code: u64) -> (r: String)
    ensures
        r@ == prefix@ + decimal(code as nat),
{
    format!("{}{}", prefix, code)
}

/// Why a capture request failed. Hardware failures carry the driver's raw
/// status code.
#[derive(PartialEq, Eq, Structural, Clone, Copy, Debug)]
pub enum CaptureError {
    /// The shutter command was refused.
    SendCommand(u32),
    /// The captured item's metadata could not be read.
    DirectoryInfo(u32),
    /// The destination path cannot be handed to the driver.
    InvalidPath,
    /// The destination file stream could not be opened.
    CreateStream(u32),
    /// Transferring the item's bytes failed.
    Download(u32),
    /// The camera could not be told that the transfer is complete.
    DownloadComplete(u32),
    /// The destination file stream could not be released.
    ReleaseStream(u32),
    /// No completion arrived within the time bound.
    Timeout,
}

pub open spec fn send_command_prefix() -> Seq<char> {
    "Failed to send take picture command: "@
}

pub open spec fn directory_info_prefix() -> Seq<char> {
    "Failed to get directory info: "@
}

pub open spec fn create_stream_prefix() -> Seq<char> {
    "Failed to create file stream: "@
}

pub open spec fn download_prefix() -> Seq<char> {
    "Failed to download: "@
}

pub open spec fn download_complete_prefix() -> Seq<char> {
    "Failed to complete download: "@
}

pub open spec fn release_stream_prefix() -> Seq<char> {
    "Failed to release stream: "@
}

pub open spec fn invalid_path_text() -> Seq<char> {
    "Invalid path string"@
}

pub open spec fn timeout_text() -> Seq<char> {
    "Timeout waiting for photo"@
}

impl CaptureError {
    /// The human-readable text handed to the caller.
    pub open spec fn message_spec(&self) -> Seq<char> {
        match *self {
            CaptureError::SendCommand(c) => send_command_prefix() + decimal(c as nat),
            CaptureError::DirectoryInfo(c) => directory_info_prefix() + decimal(c as nat),
            CaptureError::InvalidPath => invalid_path_text(),
            CaptureError::CreateStream(c) => create_stream_prefix() + decimal(c as nat),
            CaptureError::Download(c) => download_prefix() + decimal(c as nat),
            CaptureError::DownloadComplete(c) => download_complete_prefix() + decimal(c as nat),
            CaptureError::ReleaseStream(c) => release_stream_prefix() + decimal(c as nat),
            CaptureError::Timeout => timeout_text(),
        }
    }

    pub fn message(&self) -> (r: String)
        ensures
            r@ == self.message_spec(),
    {
        match *self {
            CaptureError::SendCommand(c) => text_with_code("Failed to send take picture command: ", c as u64),
            CaptureError::DirectoryInfo(c) => text_with_code("Failed to get directory info: ", c as u64),
            CaptureError::InvalidPath => "Invalid path string".to_owned(),
            CaptureError::CreateStream(c) => text_with_code("Failed to create file stream: ", c as u64),
            CaptureError::Download(c) => text_with_code("Failed to download: ", c as u64),
            CaptureError::DownloadComplete(c) => text_with_code("Failed to complete download: ", c as u64),
            CaptureError::ReleaseStream(c) => text_with_code("Failed to release stream: ", c as u64),
            CaptureError::Timeout => "Timeout waiting for photo".to_owned(),
        }
    }
}

/// What a capture request resolves to: the captured item's name, or why it failed.
pub type CaptureOutcome = Result<String, CaptureError>;

/// The mathematical state of a completion slot.
pub struct SlotView {
    /// The request that installed the slot, if one did and has not consumed it.
    pub ticket: Option<u64>,
    /// The outcome delivered to the installed request and not yet consumed.
    pub outcome: Option<CaptureOutcome>,
}

impl SlotView {
    /// An outcome is only ever held for an installed request.
    pub open spec fn wf(self) -> bool {
        self.ticket is None ==> self.outcome is None
    }

    /// Installed, and no outcome delivered yet.
    pub open spec fn awaiting(self) -> bool {
        self.ticket is Some && self.outcome is None
    }

    pub open spec fn installed(ticket: u64) -> SlotView {
        SlotView { ticket: Some(ticket), outcome: None }
    }

    pub open spec fn released() -> SlotView {
        SlotView { ticket: None, outcome: None }
    }

    /// Delivering fills an awaiting slot and leaves any other slot unchanged.
    pub open spec fn deliver(self, outcome: CaptureOutcome) -> SlotView {
        if self.awaiting() {
            SlotView { ticket: self.ticket, outcome: Some(outcome) }
        } else {
            self
        }
    }

    /// Whether `take(ticket)` hands an outcome out.
    pub open spec fn ready_for(self, ticket: u64) -> bool {
        self.ticket == Some(ticket) && self.outcome is Some
    }

    pub open spec fn take(self, ticket: u64) -> SlotView {
        if self.ready_for(ticket) {
            SlotView::released()
        } else {
            self
        }
    }
}

/// The single-slot rendezvous owned by the worker's execution context.
pub struct CompletionSlot {
    ticket: Option<u64>,
    outcome: Option<CaptureOutcome>,
}

impl View for CompletionSlot {
    type V = SlotView;

    closed spec fn view(&self) -> SlotView {
        SlotView { ticket: self.ticket, outcome: self.outcome }
    }
}

impl CompletionSlot {
    /// A slot that no request has installed.
    pub fn new() -> (r: CompletionSlot)
        ensures
            r@ == SlotView::released(),
    {
        CompletionSlot { ticket: None, outcome: None }
    }

    /// Installs a fresh, empty slot for request `ticket`, discarding whatever
    /// the slot held before.
    pub fn install(&mut self, ticket: u64)
        ensures
            final(self)@ == SlotView::installed(ticket),
    {
        self.ticket = Some(ticket);
        self.outcome = None;
    }

    /// Empties the slot; a completion arriving later finds nobody waiting.
    pub fn release(&mut self)
        ensures
            final(self)@ == SlotView::released(),
    {
        self.ticket = None;
        self.outcome = None;
    }

    /// Whether a request is installed and still waiting for its outcome.
    pub fn is_awaiting(&self) -> (r: bool)
        ensures
            r == self@.awaiting(),
    {
        self.ticket.is_some() && self.outcome.is_none()
    }

    /// Whether any request currently holds the slot.
    pub fn is_installed(&self) -> (r: bool)
        ensures
            r == (self@.ticket is Some),
    {
        self.ticket.is_some()
    }

    /// Routes a completion into the slot. It is kept only where a request is
    /// installed and still waiting; otherwise the slot is left as it is.
    pub fn deliver(&mut self, outcome: CaptureOutcome) -> (accepted: bool)
        ensures
            accepted == old(self)@.awaiting(),
            final(self)@ == old(self)@.deliver(outcome),
    {
        if self.is_awaiting() {
            self.outcome = Some(outcome);
            true
        } else {
            false
        }
    }

    /// Consumes the outcome delivered to request `ticket`, releasing the slot.
    /// Gives nothing, and changes nothing, where the slot is held by another
    /// request or nothing was delivered yet.
    pub fn take(&mut self, ticket: u64) -> (r: Option<CaptureOutcome>)
        ensures
            final(self)@ == old(self)@.take(ticket),
            r == (if old(self)@.ready_for(ticket) { old(self)@.outcome } else { None }),
    {
        if self.ticket == Some(ticket) && self.outcome.is_some() {
            let r = self.outcome.take();
            self.ticket = None;
            r
        } else {
            None
        }
    }
}

/// Every slot operation keeps an outcome tied to an installed request.
pub proof fn lemma_slot_operations_keep_wf(s: SlotView, outcome: CaptureOutcome, ticket: u64)
    requires
        s.wf(),
    ensures
        SlotView::installed(ticket).wf(),
        SlotView::released().wf(),
        s.deliver(outcome).wf(),
        s.take(ticket).wf(),
{
}

/// A completion that arrives while no request holds the slot is a no-op, and
/// a request that installs the slot afterwards neither finds it nor can take it.
pub proof fn lemma_unsolicited_completion_not_leaked(
    s: SlotView,
    stray: CaptureOutcome,
    ticket: u64,
)
    requires
        s.ticket is None,
        s.wf(),
    ensures
        s.deliver(stray) == s,
        s.deliver(stray).take(ticket) == s,
        SlotView::installed(ticket).outcome is None,
        !SlotView::installed(ticket).ready_for(ticket),
{
}

} // verus!
