use photobooth::bridge::{CaptureError, CompletionSlot};
use photobooth::capture::{Capture, CaptureAction, CapturePhase, CAPTURE_TIMEOUT_MS, POLL_INTERVAL_MS};
use photobooth::comm::{
    capture_response, resolve_reply, CommRequest, CommRequestEnvelope, CommRequestHandler,
    CommRequestHandlerContext, DispatchError, TakePictureRequest, TransportError,
    TAKE_PICTURE_REQUEST_ID,
};
use photobooth::edsdk::EdsError;
use photobooth::transfer::{is_item_ready_event, ItemTransfer, TransferAction, TransferEvent};
use photobooth::worker::{wants_live_view_frame, WorkerQueue};

/// The driver calls made while serving one capture, in order.
#[derive(Debug, PartialEq)]
enum Call {
    PressShutter,
    Poll,
    Sleep(u64),
}

/// A driver that answers the shutter press with `press` and, at the poll
/// numbered `ready_at`, fires an item-ready event whose transfer calls answer
/// with `transfer` (metadata, stream, download, complete, release).
struct FakeDriver {
    press: EdsError,
    ready_at: Option<usize>,
    transfer: [EdsError; 5],
    size: u64,
    name: &'static str,
    polls: usize,
    calls: Vec<Call>,
    downloaded: Option<u64>,
}

impl FakeDriver {
    fn new(press: EdsError, ready_at: Option<usize>) -> FakeDriver {
        FakeDriver {
            press,
            ready_at,
            transfer: [EdsError::NoError; 5],
            size: 204800,
            name: "IMG_0001.JPG",
            polls: 0,
            calls: Vec::new(),
            downloaded: None,
        }
    }

    fn fire(&mut self, event: u32, slot: &mut CompletionSlot) -> Option<EdsError> {
        let mut t = ItemTransfer::begin(event, slot)?;
        let mut ev = TransferEvent::ItemInfo {
            status: self.transfer[0],
            size: self.size,
            name: self.name.to_string(),
        };
        loop {
            match t.step(ev, slot) {
                TransferAction::CreateStream => ev = TransferEvent::StreamCreated(self.transfer[1]),
                TransferAction::Download { size } => {
                    self.downloaded = Some(size);
                    ev = TransferEvent::Downloaded(self.transfer[2]);
                }
                TransferAction::MarkComplete => {
                    ev = TransferEvent::DownloadCompleted(self.transfer[3])
                }
                TransferAction::ReleaseStream => ev = TransferEvent::StreamReleased(self.transfer[4]),
                TransferAction::Finish { status } => return Some(status),
            }
        }
    }

    fn poll(&mut self, slot: &mut CompletionSlot) {
        self.calls.push(Call::Poll);
        if self.ready_at == Some(self.polls) {
            self.fire(0x204, slot);
        }
        self.polls += 1;
    }

    /// Serves one capture request the way the worker does.
    fn serve(&mut self, ticket: u64, timeout_ms: u64, slot: &mut CompletionSlot) -> Result<String, String> {
        let mut capture = Capture::new(ticket, timeout_ms, POLL_INTERVAL_MS);
        let mut action = capture.start(slot);
        loop {
            action = match action {
                CaptureAction::PressShutter => {
                    self.calls.push(Call::PressShutter);
                    capture.on_command_status(self.press, slot)
                }
                CaptureAction::Poll => {
                    self.poll(slot);
                    capture.after_poll(slot)
                }
                CaptureAction::SleepThenPoll { ms } => {
                    self.calls.push(Call::Sleep(ms));
                    self.poll(slot);
                    capture.after_poll(slot)
                }
                CaptureAction::Reply(outcome) => return capture_response(outcome),
            }
        }
    }
}

#[test]
fn capture_returns_item_name() {
    let mut slot = CompletionSlot::new();
    let mut driver = FakeDriver::new(EdsError::NoError, Some(3));
    let r = driver.serve(0, CAPTURE_TIMEOUT_MS, &mut slot);
    assert_eq!(r, Ok("IMG_0001.JPG".to_string()));
    assert_eq!(driver.downloaded, Some(204800));
    assert!(!slot.is_installed());
}

#[test]
fn capture_command_failure_replies_at_once() {
    let mut slot = CompletionSlot::new();
    let mut driver = FakeDriver::new(EdsError::Other(0x81), Some(0));
    let r = driver.serve(0, CAPTURE_TIMEOUT_MS, &mut slot);
    assert_eq!(r, Err("Failed to send take picture command: 129".to_string()));
    assert_eq!(driver.calls, vec![Call::PressShutter]);
    assert!(!slot.is_installed());
}

#[test]
fn capture_times_out_after_thirty_seconds() {
    let mut slot = CompletionSlot::new();
    let mut driver = FakeDriver::new(EdsError::NoError, None);
    let r = driver.serve(0, 30_000, &mut slot);
    assert_eq!(r, Err("Timeout waiting for photo".to_string()));
    let slept: u64 = driver
        .calls
        .iter()
        .map(|c| match c {
            Call::Sleep(ms) => *ms,
            _ => 0,
        })
        .sum();
    assert_eq!(slept, 30_000);
    assert!(slept < 30_000 + POLL_INTERVAL_MS);
    assert!(!slot.is_installed());
}

#[test]
fn timeout_bound_is_within_one_interval() {
    let mut slot = CompletionSlot::new();
    let mut driver = FakeDriver::new(EdsError::NoError, None);
    let r = driver.serve(0, 250, &mut slot);
    assert_eq!(r, Err("Timeout waiting for photo".to_string()));
    let sleeps = driver.calls.iter().filter(|c| matches!(c, Call::Sleep(_))).count() as u64;
    assert_eq!(sleeps * POLL_INTERVAL_MS, 300);
    assert!(sleeps * POLL_INTERVAL_MS < 250 + POLL_INTERVAL_MS);
}

#[test]
fn late_completion_after_timeout_is_dropped() {
    let mut slot = CompletionSlot::new();
    let mut driver = FakeDriver::new(EdsError::NoError, None);
    assert_eq!(driver.serve(0, 200, &mut slot), Err("Timeout waiting for photo".to_string()));
    assert_eq!(driver.fire(0x208, &mut slot), None);
    assert!(!slot.deliver(Ok("late.jpg".to_string())));
    let mut next = FakeDriver::new(EdsError::NoError, Some(1));
    next.name = "IMG_0002.JPG";
    assert_eq!(next.serve(1, 200, &mut slot), Ok("IMG_0002.JPG".to_string()));
}

#[test]
fn unsolicited_completion_is_a_no_op() {
    let mut slot = CompletionSlot::new();
    let mut driver = FakeDriver::new(EdsError::NoError, None);
    assert_eq!(driver.fire(0x204, &mut slot), None);
    assert_eq!(driver.downloaded, None);
    assert!(!slot.deliver(Ok("stray.jpg".to_string())));
    slot.install(4);
    assert!(slot.is_awaiting());
    assert_eq!(slot.take(4), None);
}

#[test]
fn slot_take_needs_the_installing_ticket() {
    let mut slot = CompletionSlot::new();
    slot.install(7);
    assert!(slot.deliver(Ok("a.jpg".to_string())));
    assert!(!slot.deliver(Ok("b.jpg".to_string())));
    assert_eq!(slot.take(8), None);
    assert_eq!(slot.take(7), Some(Ok("a.jpg".to_string())));
    assert!(!slot.is_installed());
    slot.install(9);
    slot.release();
    assert!(!slot.is_installed());
}

#[test]
fn capture_after_hardware_error_still_succeeds() {
    let mut slot = CompletionSlot::new();
    let mut failing = FakeDriver::new(EdsError::NoError, Some(0));
    failing.transfer[2] = EdsError::Other(0x2003);
    assert_eq!(failing.serve(0, CAPTURE_TIMEOUT_MS, &mut slot), Err("Failed to download: 8195".to_string()));
    let mut refused = FakeDriver::new(EdsError::Other(0x81), None);
    assert!(refused.serve(1, CAPTURE_TIMEOUT_MS, &mut slot).is_err());
    let mut ok = FakeDriver::new(EdsError::NoError, Some(0));
    assert_eq!(ok.serve(2, CAPTURE_TIMEOUT_MS, &mut slot), Ok("IMG_0001.JPG".to_string()));
}

#[test]
fn transfer_failures_name_the_failing_call() {
    let cases = [
        (0, 5u32, "Failed to get directory info: 5"),
        (1, 6, "Failed to create file stream: 6"),
        (2, 7, "Failed to download: 7"),
        (3, 8, "Failed to complete download: 8"),
        (4, 9, "Failed to release stream: 9"),
    ];
    for (i, code, text) in cases {
        let mut slot = CompletionSlot::new();
        let mut driver = FakeDriver::new(EdsError::NoError, Some(0));
        driver.transfer[i] = EdsError::Other(code);
        assert_eq!(driver.serve(0, CAPTURE_TIMEOUT_MS, &mut slot), Err(text.to_string()));
    }
}

#[test]
fn transfer_failure_status_goes_back_to_driver() {
    let mut slot = CompletionSlot::new();
    slot.install(0);
    let mut driver = FakeDriver::new(EdsError::NoError, None);
    driver.transfer[3] = EdsError::Other(11);
    driver.transfer[4] = EdsError::Other(12);
    assert_eq!(driver.fire(0x204, &mut slot), Some(EdsError::Other(11)));
    assert_eq!(slot.take(0), Some(Err(CaptureError::DownloadComplete(11))));
}

#[test]
fn invalid_path_ends_transfer() {
    let mut slot = CompletionSlot::new();
    slot.install(3);
    let mut t = ItemTransfer::begin(0x208, &slot).unwrap();
    let ev = TransferEvent::ItemInfo { status: EdsError::NoError, size: 10, name: "x.jpg".to_string() };
    assert_eq!(t.step(ev, &mut slot), TransferAction::CreateStream);
    assert_eq!(t.item_name(), Some(&"x.jpg".to_string()));
    assert!(!t.accepts(&TransferEvent::Downloaded(EdsError::NoError)));
    assert!(t.accepts(&TransferEvent::InvalidPath));
    assert_eq!(t.step(TransferEvent::InvalidPath, &mut slot), TransferAction::Finish { status: EdsError::NoError });
    let outcome = slot.take(3).unwrap();
    assert_eq!(capture_response(outcome), Err("Invalid path string".to_string()));
}

#[test]
fn only_item_ready_events_start_a_transfer() {
    assert!(is_item_ready_event(0x204));
    assert!(is_item_ready_event(0x208));
    assert!(!is_item_ready_event(0x201));
    let mut slot = CompletionSlot::new();
    slot.install(1);
    assert!(ItemTransfer::begin(0x201, &slot).is_none());
    assert!(ItemTransfer::begin(0x204, &slot).is_some());
}

#[test]
fn error_messages() {
    assert_eq!(CaptureError::SendCommand(5).message(), "Failed to send take picture command: 5");
    assert_eq!(CaptureError::SendCommand(0x8D01).message(), "Failed to send take picture command: 36097");
    assert_eq!(CaptureError::Timeout.message(), "Timeout waiting for photo");
    assert_eq!(TransportError::NotDelivered.message(), "Failed to send request to camera thread");
    assert_eq!(TransportError::NoResponse.message(), "Camera thread did not respond");
    assert_eq!(TransportError::ResponseMismatch.message(), "Response type mismatch");
    assert_eq!(DispatchError::Unregistered(42).message(), "No handler registered for request type 42");
}

#[test]
fn reply_resolution() {
    assert_eq!(resolve_reply(true, true, Some(5u8)), Ok(5));
    assert_eq!(resolve_reply(false, true, Some(5u8)), Err(TransportError::NotDelivered));
    assert_eq!(resolve_reply::<u8>(false, false, None), Err(TransportError::NotDelivered));
    assert_eq!(resolve_reply::<u8>(true, false, None), Err(TransportError::NoResponse));
    assert_eq!(resolve_reply::<u8>(true, true, None), Err(TransportError::ResponseMismatch));
}

#[test]
fn registry_lookup_and_replacement() {
    let mut registry: CommRequestHandler<&'static str> = CommRequestHandler::new();
    assert!(!registry.is_registered(TAKE_PICTURE_REQUEST_ID));
    assert_eq!(registry.lookup(TAKE_PICTURE_REQUEST_ID), Err(DispatchError::Unregistered(1)));
    assert!(!registry.register(TakePictureRequest::type_id(), "first"));
    assert!(registry.register(TAKE_PICTURE_REQUEST_ID, "second"));
    assert_eq!(registry.lookup(1), Ok(&"second"));
    assert_eq!(registry.lookup(2), Err(DispatchError::Unregistered(2)));
}

#[test]
fn envelope_carries_its_parts() {
    let env = CommRequestEnvelope::new(TAKE_PICTURE_REQUEST_ID, TakePictureRequest, 17u32);
    assert_eq!(env.type_id(), 1);
    assert_eq!(env.into_parts(), (1, TakePictureRequest, 17));
}

#[test]
fn context_starts_with_free_slot() {
    let ctx = CommRequestHandlerContext::new();
    assert!(!ctx.slot.is_installed());
    assert!(wants_live_view_frame(true, &ctx.slot));
    assert!(!wants_live_view_frame(false, &ctx.slot));
    let mut slot = CompletionSlot::new();
    slot.install(0);
    assert!(!wants_live_view_frame(true, &slot));
}

#[test]
fn worker_serves_in_arrival_order() {
    let mut q: WorkerQueue<&'static str> = WorkerQueue::new();
    q.enqueue("a");
    q.enqueue("b");
    q.enqueue("c");
    assert_eq!(q.begin_next(), Some((0, "a")));
    q.finish();
    assert_eq!(q.begin_next(), Some((1, "b")));
    q.finish();
    assert_eq!(q.begin_next(), Some((2, "c")));
    q.finish();
    assert_eq!(q.begin_next(), None);
}

#[test]
fn concurrent_captures_are_serialized() {
    let mut q: WorkerQueue<u32> = WorkerQueue::new();
    let mut slot = CompletionSlot::new();
    q.enqueue(100);
    q.enqueue(200);
    let (t1, first) = q.begin_next().unwrap();
    assert_eq!(first, 100);
    assert_eq!(q.begin_next(), None);
    assert_eq!(q.in_flight(), Some(t1));
    let mut d1 = FakeDriver::new(EdsError::NoError, Some(2));
    assert_eq!(d1.serve(t1, CAPTURE_TIMEOUT_MS, &mut slot), Ok("IMG_0001.JPG".to_string()));
    assert_eq!(q.begin_next(), None);
    q.finish();
    let (t2, second) = q.begin_next().unwrap();
    assert_eq!(second, 200);
    assert_ne!(t1, t2);
    let mut d2 = FakeDriver::new(EdsError::NoError, Some(0));
    d2.name = "IMG_0002.JPG";
    assert_eq!(d2.serve(t2, CAPTURE_TIMEOUT_MS, &mut slot), Ok("IMG_0002.JPG".to_string()));
    q.finish();
    assert_eq!(q.pending_len(), 0);
}

#[test]
fn capture_phases() {
    let mut slot = CompletionSlot::new();
    let mut c = Capture::new(5, 100, 100);
    assert_eq!(c.phase(), CapturePhase::Idle);
    assert!(matches!(c.start(&mut slot), CaptureAction::PressShutter));
    assert_eq!(c.phase(), CapturePhase::CommandSent);
    assert!(slot.is_awaiting());
    assert!(matches!(c.on_command_status(EdsError::NoError, &mut slot), CaptureAction::Poll));
    assert!(matches!(c.after_poll(&mut slot), CaptureAction::SleepThenPoll { ms: 100 }));
    assert_eq!(c.elapsed_ms(), 100);
    assert!(matches!(c.after_poll(&mut slot), CaptureAction::Reply(Err(CaptureError::Timeout))));
    assert_eq!(c.phase(), CapturePhase::TimedOut);
    assert_eq!(c.ticket(), 5);
}
