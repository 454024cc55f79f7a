//! The capture request's handler, as a state machine: install a fresh slot,
//! press the shutter, then alternate driver polls and slot checks until the
//! outcome arrives or the time bound passes. The caller of these methods
//! performs each driver call and each sleep, and hands the results back.
use vstd::prelude::*;
use crate::bridge::{CaptureError, CaptureOutcome, CompletionSlot, SlotView};
use crate::edsdk::EdsError;

verus! {

/// How long a capture waits for its completion, in milliseconds.
pub const CAPTURE_TIMEOUT_MS: u64 = 30_000;

/// The pause between two driver polls, in milliseconds.
pub const POLL_INTERVAL_MS: u64 = 100;

/// Where a capture request stands.
#[derive(PartialEq, Eq, Structural, Clone, Copy, Debug)]
pub enum CapturePhase {
    Idle,
    CommandSent,
    AwaitingCallback,
    Completed,
    TimedOut,
}

/// What the caller does next.
pub enum CaptureAction {
    /// Press the shutter button completely, release it, and report the
    /// status of the press through `on_command_status`.
    PressShutter,
    /// Poll the driver for events (its callback may deliver into the slot),
    /// then call `after_poll`.
    Poll,
    /// Sleep `ms` milliseconds, poll the driver, then call `after_poll`.
    SleepThenPoll { ms: u64 },
    /// The request is done: reply with this outcome.
    Reply(CaptureOutcome),
}

/// The mathematical state of a capture.
pub struct CaptureView {
    pub phase: CapturePhase,
    pub ticket: u64,
    pub elapsed_ms: u64,
    pub timeout_ms: u64,
    pub poll_interval_ms: u64,
}

/// The next state of the capture, of the slot, and the action.
pub struct CaptureStep {
    pub capture: CaptureView,
    pub slot: SlotView,
    pub action: CaptureAction,
}

pub open spec fn saturating_add(a: u64, b: u64) -> u64 {
    if a + b > u64::MAX {
        u64::MAX
    } else {
        (a + b) as u64
    }
}

impl CaptureView {
    /// The poll interval is positive, no time is counted before the shutter
    /// press succeeded, and the time spent waiting never
    /// exceeds the bound by a whole poll interval.
    pub open spec fn wf(self) -> bool {
        &&& self.poll_interval_ms > 0
        &&& (self.phase == CapturePhase::Idle || self.phase == CapturePhase::CommandSent)
            ==> self.elapsed_ms == 0
        &&& self.phase == CapturePhase::AwaitingCallback ==> self.elapsed_ms < self.timeout_ms
            + self.poll_interval_ms
    }

    pub open spec fn is_terminal(self) -> bool {
        self.phase == CapturePhase::Completed || self.phase == CapturePhase::TimedOut
    }

    pub open spec fn start(self, slot: SlotView) -> CaptureStep {
        CaptureStep {
            capture: CaptureView { phase: CapturePhase::CommandSent, ..self },
            slot: SlotView::installed(self.ticket),
            action: CaptureAction::PressShutter,
        }
    }

    pub open spec fn on_command_status(self, status: EdsError, slot: SlotView) -> CaptureStep {
        if status.is_ok_spec() {
            CaptureStep {
                capture: CaptureView { phase: CapturePhase::AwaitingCallback, ..self },
                slot,
                action: CaptureAction::Poll,
            }
        } else {
            CaptureStep {
                capture: CaptureView { phase: CapturePhase::Completed, ..self },
                slot: SlotView::released(),
                action: CaptureAction::Reply(Err(CaptureError::SendCommand(status.code_spec()))),
            }
        }
    }

    pub open spec fn after_poll(self, slot: SlotView) -> CaptureStep {
        if slot.ready_for(self.ticket) {
            CaptureStep {
                capture: CaptureView { phase: CapturePhase::Completed, ..self },
                slot: slot.take(self.ticket),
                action: CaptureAction::Reply(slot.outcome.unwrap()),
            }
        } else if self.elapsed_ms >= self.timeout_ms {
            CaptureStep {
                capture: CaptureView { phase: CapturePhase::TimedOut, ..self },
                slot: SlotView::released(),
                action: CaptureAction::Reply(Err(CaptureError::Timeout)),
            }
        } else {
            CaptureStep {
                capture: CaptureView {
                    elapsed_ms: saturating_add(self.elapsed_ms, self.poll_interval_ms),
                    ..self
                },
                slot,
                action: CaptureAction::SleepThenPoll { ms: self.poll_interval_ms },
            }
        }
    }
}

/// One capture request being served by the worker.
pub struct Capture {
    phase: CapturePhase,
    ticket: u64,
    elapsed_ms: u64,
    timeout_ms: u64,
    poll_interval_ms: u64,
}

impl View for Capture {
    type V = CaptureView;

    closed spec fn view(&self) -> CaptureView {
        CaptureView {
            phase: self.phase,
            ticket: self.ticket,
            elapsed_ms: self.elapsed_ms,
            timeout_ms: self.timeout_ms,
            poll_interval_ms: self.poll_interval_ms,
        }
    }
}

impl Capture {
    /// A capture for request `ticket` that has not started yet.
    pub fn new(ticket: u64, timeout_ms: u64, poll_interval_ms: u64) -> (r: Capture)
        requires
            poll_interval_ms > 0,
        ensures
            r@ == (CaptureView {
                phase: CapturePhase::Idle,
                ticket,
                elapsed_ms: 0,
                timeout_ms,
                poll_interval_ms,
            }),
            r@.wf(),
    {
        Capture { phase: CapturePhase::Idle, ticket, elapsed_ms: 0, timeout_ms, poll_interval_ms }
    }

    pub fn phase(&self) -> (r: CapturePhase)
        ensures
            r == self@.phase,
    {
        self.phase
    }

    pub fn ticket(&self) -> (r: u64)
        ensures
            r == self@.ticket,
    {
        self.ticket
    }

    pub fn elapsed_ms(&self) -> (r: u64)
        ensures
            r == self@.elapsed_ms,
    {
        self.elapsed_ms
    }

    /// Installs a fresh slot for this request, dropping anything a former
    /// request left there, and asks for the shutter to be pressed.
    pub fn start(&mut self, slot: &mut CompletionSlot) -> (r: CaptureAction)
        requires
            old(self)@.wf(),
            old(self)@.phase == CapturePhase::Idle,
        ensures
            final(self)@ == old(self)@.start(old(slot)@).capture,
            final(slot)@ == old(self)@.start(old(slot)@).slot,
            r == old(self)@.start(old(slot)@).action,
            final(self)@.wf(),
    {
        slot.install(self.ticket);
        self.phase = CapturePhase::CommandSent;
        CaptureAction::PressShutter
    }

    /// Takes the status of the shutter press. A failure ends the request at
    /// once, without waiting, and frees the slot.
    pub fn on_command_status(&mut self, status: EdsError, slot: &mut CompletionSlot) -> (r:
        CaptureAction)
        requires
            old(self)@.wf(),
            old(self)@.phase == CapturePhase::CommandSent,
        ensures
            final(self)@ == old(self)@.on_command_status(status, old(slot)@).capture,
            final(slot)@ == old(self)@.on_command_status(status, old(slot)@).slot,
            r == old(self)@.on_command_status(status, old(slot)@).action,
            final(self)@.wf(),
    {
        if status.is_ok() {
            self.phase = CapturePhase::AwaitingCallback;
            CaptureAction::Poll
        } else {
            slot.release();
            self.phase = CapturePhase::Completed;
            CaptureAction::Reply(Err(CaptureError::SendCommand(status.code())))
        }
    }

    /// Checks the slot after a driver poll: replies with a delivered outcome,
    /// gives up with a timeout once the bound has passed (freeing the slot, so
    /// that a late completion finds nobody waiting), or waits one more poll
    /// interval.
    pub fn after_poll(&mut self, slot: &mut CompletionSlot) -> (r: CaptureAction)
        requires
            old(self)@.wf(),
            old(self)@.phase == CapturePhase::AwaitingCallback,
        ensures
            final(self)@ == old(self)@.after_poll(old(slot)@).capture,
            final(slot)@ == old(self)@.after_poll(old(slot)@).slot,
            r == old(self)@.after_poll(old(slot)@).action,
            final(self)@.wf(),
    {
        let taken = slot.take(self.ticket);
        match taken {
            Some(outcome) => {
                self.phase = CapturePhase::Completed;
                CaptureAction::Reply(outcome)
            },
            None => {
                if self.elapsed_ms >= self.timeout_ms {
                    slot.release();
                    self.phase = CapturePhase::TimedOut;
                    CaptureAction::Reply(Err(CaptureError::Timeout))
                } else {
                    self.elapsed_ms = self.elapsed_ms.saturating_add(self.poll_interval_ms);
                    CaptureAction::SleepThenPoll { ms: self.poll_interval_ms }
                }
            },
        }
    }
}

/// Polls without a completion arriving, until the capture replies.
pub open spec fn wait_idle(c: CaptureView, s: SlotView) -> CaptureStep
    decreases u64::MAX - c.elapsed_ms,
{
    let st = c.after_poll(s);
    if c.poll_interval_ms > 0 && !s.ready_for(c.ticket) && c.elapsed_ms < c.timeout_ms {
        wait_idle(st.capture, st.slot)
    } else {
        st
    }
}

/// When no completion arrives, polling ends in a timeout reply: at the first
/// poll at or past the bound, and so with less than the bound plus one poll
/// interval waited. The slot is then free, and a completion that arrives
/// afterwards is dropped.
pub proof fn lemma_timeout_within_bound(c: CaptureView, s: SlotView, stray: CaptureOutcome)
    requires
        c.wf(),
        c.phase == CapturePhase::AwaitingCallback,
        !s.ready_for(c.ticket),
    ensures
        ({
            let r = wait_idle(c, s);
            &&& r.action == CaptureAction::Reply(Err(CaptureError::Timeout))
            &&& r.capture.phase == CapturePhase::TimedOut
            &&& r.capture.ticket == c.ticket
            &&& r.capture.timeout_ms <= r.capture.elapsed_ms
            &&& r.capture.elapsed_ms < r.capture.timeout_ms + r.capture.poll_interval_ms
            &&& r.slot == SlotView::released()
            &&& r.slot.deliver(stray) == SlotView::released()
        }),
    decreases u64::MAX - c.elapsed_ms,
{
    if c.elapsed_ms < c.timeout_ms {
        let st = c.after_poll(s);
        lemma_timeout_within_bound(st.capture, st.slot, stray);
    }
}

/// A capture whose shutter press fails replies at once with the failing
/// status and frees the slot; the next capture then installs a fresh slot and
/// can succeed. Whatever state an earlier capture left the slot in, a new
/// capture starts from a fresh slot of its own.
pub proof fn lemma_capture_recovers_after_failure(
    first: CaptureView,
    slot: SlotView,
    status: EdsError,
    second: CaptureView,
    name: String,
)
    requires
        first.wf(),
        first.phase == CapturePhase::CommandSent,
        !status.is_ok_spec(),
        second.wf(),
        second.phase == CapturePhase::Idle,
    ensures
        ({
            let failed = first.on_command_status(status, slot);
            let started = second.start(failed.slot);
            let sent = started.capture.on_command_status(EdsError::NoError, started.slot);
            let done = sent.capture.after_poll(sent.slot.deliver(Ok(name)));
            &&& failed.action == CaptureAction::Reply(
                Err(CaptureError::SendCommand(status.code_spec())),
            )
            &&& failed.capture.is_terminal()
            &&& failed.slot == SlotView::released()
            &&& forall|any: SlotView| #[trigger] second.start(any).slot == SlotView::installed(second.ticket)
            &&& sent.action == CaptureAction::Poll
            &&& done.action == CaptureAction::Reply(Ok(name))
            &&& done.capture.phase == CapturePhase::Completed
            &&& done.slot == SlotView::released()
        }),
{
}

} // verus!
