//! Opening a camera session: the fixed sequence of driver calls that
//! initialises the driver, picks the first camera, opens a session, subscribes
//! to object events, makes the camera save captures to the host in small JPEG
//! quality and, if asked, routes live view to the host. The first failing call
//! ends the sequence with its status. The caller of `advance` makes each call.
use vstd::prelude::*;
use crate::edsdk::{
    EdsCapacity, EdsError, EdsEvfOutputDevice, EdsImageQuality, EdsSaveTo, EVF_OUTPUT_PC,
    OBJECT_EVENT_ALL, PROP_EVF_OUTPUT_DEVICE, PROP_IMAGE_QUALITY, PROP_SAVE_TO,
};

verus! {

/// Clusters announced free on the host: as many as the driver accepts.
pub const HOST_FREE_CLUSTERS: u32 = 0x7fff_ffff;

/// Bytes per sector announced for the host.
pub const HOST_BYTES_PER_SECTOR: u32 = 0x1000;

/// The driver call whose status the sequence waits for.
#[derive(PartialEq, Eq, Structural, Clone, Copy, Debug)]
pub enum SessionStep {
    InitializeSdk,
    GetCameraList,
    GetChildCount,
    GetFirstCamera,
    GetDeviceInfo,
    OpenSession,
    SetEventHandler,
    SetSaveTo,
    SetCapacity,
    SetImageQuality,
    GetEvfOutput,
    SetEvfOutput,
    Ready,
    Failed,
}

/// The next driver call to make, or the end of the sequence.
#[derive(PartialEq, Eq, Structural, Clone, Copy, Debug)]
pub enum SessionAction {
    GetCameraList,
    GetChildCount,
    GetChildAtIndex { index: u32 },
    GetDeviceInfo,
    OpenSession,
    SetObjectEventHandler { event: u32 },
    SetProperty { property: u32, value: u32 },
    SetCapacity(EdsCapacity),
    GetProperty { property: u32 },
    /// The session is open and set up.
    Ready,
    /// The sequence stopped at a failing call, with its status.
    Failed(EdsError),
}

pub open spec fn host_capacity() -> EdsCapacity {
    EdsCapacity {
        number_of_free_clusters: HOST_FREE_CLUSTERS,
        bytes_per_sector: HOST_BYTES_PER_SECTOR,
        reset: 1,
    }
}

/// The mathematical state of the sequence.
pub struct SessionView {
    pub step: SessionStep,
    pub live_view: bool,
}

impl SessionView {
    pub open spec fn is_done(self) -> bool {
        self.step == SessionStep::Ready || self.step == SessionStep::Failed
    }

    pub open spec fn goto(self, step: SessionStep, action: SessionAction) -> (SessionView, SessionAction) {
        (SessionView { step, ..self }, action)
    }

    /// The transition on the status of the current call; `value` is the
    /// number of cameras after `GetChildCount`, the live view output bits
    /// after `GetEvfOutput`, and unused otherwise.
    pub open spec fn next(self, status: EdsError, value: u32) -> (SessionView, SessionAction) {
        if !status.is_ok_spec() {
            self.goto(SessionStep::Failed, SessionAction::Failed(status))
        } else {
            match self.step {
                SessionStep::InitializeSdk => self.goto(
                    SessionStep::GetCameraList,
                    SessionAction::GetCameraList,
                ),
                SessionStep::GetCameraList => self.goto(
                    SessionStep::GetChildCount,
                    SessionAction::GetChildCount,
                ),
                SessionStep::GetChildCount => if value == 0 {
                    self.goto(SessionStep::Failed, SessionAction::Failed(EdsError::NoCameraFound))
                } else {
                    self.goto(SessionStep::GetFirstCamera, SessionAction::GetChildAtIndex { index: 0 })
                },
                SessionStep::GetFirstCamera => self.goto(
                    SessionStep::GetDeviceInfo,
                    SessionAction::GetDeviceInfo,
                ),
                SessionStep::GetDeviceInfo => self.goto(
                    SessionStep::OpenSession,
                    SessionAction::OpenSession,
                ),
                SessionStep::OpenSession => self.goto(
                    SessionStep::SetEventHandler,
                    SessionAction::SetObjectEventHandler { event: OBJECT_EVENT_ALL },
                ),
                SessionStep::SetEventHandler => self.goto(
                    SessionStep::SetSaveTo,
                    SessionAction::SetProperty {
                        property: PROP_SAVE_TO,
                        value: EdsSaveTo::Host.code_spec(),
                    },
                ),
                SessionStep::SetSaveTo => self.goto(
                    SessionStep::SetCapacity,
                    SessionAction::SetCapacity(host_capacity()),
                ),
                SessionStep::SetCapacity => self.goto(
                    SessionStep::SetImageQuality,
                    SessionAction::SetProperty {
                        property: PROP_IMAGE_QUALITY,
                        value: EdsImageQuality::JpegSmall.code_spec(),
                    },
                ),
                SessionStep::SetImageQuality => if self.live_view {
                    self.goto(
                        SessionStep::GetEvfOutput,
                        SessionAction::GetProperty { property: PROP_EVF_OUTPUT_DEVICE },
                    )
                } else {
                    self.goto(SessionStep::Ready, SessionAction::Ready)
                },
                SessionStep::GetEvfOutput => self.goto(
                    SessionStep::SetEvfOutput,
                    SessionAction::SetProperty {
                        property: PROP_EVF_OUTPUT_DEVICE,
                        value: value | EVF_OUTPUT_PC,
                    },
                ),
                SessionStep::SetEvfOutput => self.goto(
                    SessionStep::Ready,
                    SessionAction::Ready,
                ),
                SessionStep::Ready | SessionStep::Failed => (self, SessionAction::Ready),
            }
        }
    }
}

/// The live view output to set when a session opens: the current devices
/// and the host.
pub fn evf_output_on_open(current: EdsEvfOutputDevice) -> (r: EdsEvfOutputDevice)
    ensures
        r.bits == current.bits | EVF_OUTPUT_PC,
{
    let mut r = current;
    r.insert(EdsEvfOutputDevice::from_bits_retain(EVF_OUTPUT_PC));
    r
}

/// The live view output to restore when a session closes: the current
/// devices without the host.
pub fn evf_output_on_close(current: EdsEvfOutputDevice) -> (r: EdsEvfOutputDevice)
    ensures
        r.bits == current.bits & !EVF_OUTPUT_PC,
{
    let mut r = current;
    r.remove(EdsEvfOutputDevice::from_bits_retain(EVF_OUTPUT_PC));
    r
}

/// The sequence of driver calls that opens a camera session.
pub struct SessionSetup {
    step: SessionStep,
    live_view: bool,
}

impl View for SessionSetup {
    type V = SessionView;

    closed spec fn view(&self) -> SessionView {
        SessionView { step: self.step, live_view: self.live_view }
    }
}

impl SessionSetup {
    /// A sequence whose first call, initialising the driver, is to be made now.
    pub fn new(live_view: bool) -> (r: Self)
        ensures
            r@ == (SessionView { step: SessionStep::InitializeSdk, live_view }),
    {
        SessionSetup { step: SessionStep::InitializeSdk, live_view }
    }

    pub fn current_step(&self) -> (r: SessionStep)
        ensures
            r == self@.step,
    {
        self.step
    }

    fn goto(&mut self, step: SessionStep, action: SessionAction) -> (r: SessionAction)
        ensures
            (final(self)@, r) == old(self)@.goto(step, action),
    {
        self.step = step;
        action
    }

    /// Advances the sequence by the status of the call just made.
    pub fn advance(&mut self, status: EdsError, value: u32) -> (r: SessionAction)
        requires
            !old(self)@.is_done(),
        ensures
            (final(self)@, r) == old(self)@.next(status, value),
    {
        if !status.is_ok() {
            return self.goto(SessionStep::Failed, SessionAction::Failed(status));
        }
        match self.step {
            SessionStep::InitializeSdk => self.goto(
                SessionStep::GetCameraList,
                SessionAction::GetCameraList,
            ),
            SessionStep::GetCameraList => self.goto(
                SessionStep::GetChildCount,
                SessionAction::GetChildCount,
            ),
            SessionStep::GetChildCount => if value == 0 {
                self.goto(SessionStep::Failed, SessionAction::Failed(EdsError::NoCameraFound))
            } else {
                self.goto(SessionStep::GetFirstCamera, SessionAction::GetChildAtIndex { index: 0 })
            },
            SessionStep::GetFirstCamera => self.goto(
                SessionStep::GetDeviceInfo,
                SessionAction::GetDeviceInfo,
            ),
            SessionStep::GetDeviceInfo => self.goto(
                SessionStep::OpenSession,
                SessionAction::OpenSession,
            ),
            SessionStep::OpenSession => self.goto(
                SessionStep::SetEventHandler,
                SessionAction::SetObjectEventHandler { event: OBJECT_EVENT_ALL },
            ),
            SessionStep::SetEventHandler => self.goto(
                SessionStep::SetSaveTo,
                SessionAction::SetProperty { property: PROP_SAVE_TO, value: EdsSaveTo::Host.code() },
            ),
            SessionStep::SetSaveTo => self.goto(
                SessionStep::SetCapacity,
                SessionAction::SetCapacity(
                    EdsCapacity {
                        number_of_free_clusters: HOST_FREE_CLUSTERS,
                        bytes_per_sector: HOST_BYTES_PER_SECTOR,
                        reset: 1,
                    },
                ),
            ),
            SessionStep::SetCapacity => self.goto(
                SessionStep::SetImageQuality,
                SessionAction::SetProperty {
                    property: PROP_IMAGE_QUALITY,
                    value: EdsImageQuality::JpegSmall.code(),
                },
            ),
            SessionStep::SetImageQuality => if self.live_view {
                self.goto(
                    SessionStep::GetEvfOutput,
                    SessionAction::GetProperty { property: PROP_EVF_OUTPUT_DEVICE },
                )
            } else {
                self.goto(SessionStep::Ready, SessionAction::Ready)
            },
            SessionStep::GetEvfOutput => {
                let output = evf_output_on_open(EdsEvfOutputDevice::from_bits_retain(value));
                self.goto(
                    SessionStep::SetEvfOutput,
                    SessionAction::SetProperty {
                        property: PROP_EVF_OUTPUT_DEVICE,
                        value: output.bits(),
                    },
                )
            },
            SessionStep::SetEvfOutput => self.goto(SessionStep::Ready, SessionAction::Ready),
            SessionStep::Ready | SessionStep::Failed => SessionAction::Ready,
        }
    }
}

} // verus!
