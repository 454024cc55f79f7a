//! Plain-value model of the camera driver's status codes, enumerations and
//! property values.
use vstd::prelude::*;

verus! {

/// Property identifier of the "save captured images to" setting.
pub const PROP_SAVE_TO: u32 = 0xb;

/// Property identifier of the image quality setting.
pub const PROP_IMAGE_QUALITY: u32 = 0x100;

/// Property identifier of the live view output device setting.
pub const PROP_EVF_OUTPUT_DEVICE: u32 = 0x500;

/// Camera command that moves the shutter button.
pub const COMMAND_PRESS_SHUTTER_BUTTON: u32 = 4;

/// Shutter button parameter: released.
pub const SHUTTER_BUTTON_OFF: i32 = 0;

/// Shutter button parameter: pressed completely.
pub const SHUTTER_BUTTON_COMPLETELY: i32 = 3;

/// Object event mask that subscribes to every object event.
pub const OBJECT_EVENT_ALL: u32 = 0x200;

/// Object event: a directory item was created on the camera.
pub const OBJECT_EVENT_DIR_ITEM_CREATED: u32 = 0x204;

/// Object event: the camera asks the host to transfer a directory item.
pub const OBJECT_EVENT_DIR_ITEM_REQUEST_TRANSFER: u32 = 0x208;

/// Raw code of the success status.
pub const STATUS_OK: u32 = 0;

/// Raw code used for "no camera found"; the driver itself never returns it.
pub const STATUS_NO_CAMERA_FOUND: u32 = 0xffff_ffff;

/// Status returned by every call into the camera driver.
#[derive(PartialEq, Eq, Structural, Clone, Copy, Debug)]
pub enum EdsError {
    /// The single success status.
    NoError,
    /// No camera was attached when a session was to be opened.
    NoCameraFound,
    /// Any other failure status, carrying its raw code.
    Other(u32),
}

impl EdsError {
    /// Well-formed values are exactly those that `from_code` produces.
    pub open spec fn wf(&self) -> bool {
        match *self {
            EdsError::Other(c) => c != STATUS_OK && c != STATUS_NO_CAMERA_FOUND,
            _ => true,
        }
    }

    pub open spec fn code_spec(&self) -> u32 {
        match *self {
            EdsError::NoError => STATUS_OK,
            EdsError::NoCameraFound => STATUS_NO_CAMERA_FOUND,
            EdsError::Other(c) => c,
        }
    }

    pub open spec fn from_code_spec(code: u32) -> EdsError {
        if code == STATUS_OK {
            EdsError::NoError
        } else if code == STATUS_NO_CAMERA_FOUND {
            EdsError::NoCameraFound
        } else {
            EdsError::Other(code)
        }
    }

    /// Interprets a raw status code returned by the driver.
    pub fn from_code(code: u32) -> (r: EdsError)
        ensures
            r == Self::from_code_spec(code),
            r.wf(),
            r.code_spec() == code,
    {
        if code == STATUS_OK {
            EdsError::NoError
        } else if code == STATUS_NO_CAMERA_FOUND {
            EdsError::NoCameraFound
        } else {
            EdsError::Other(code)
        }
    }

    /// The raw status code.
    pub fn code(&self) -> (r: u32)
        ensures
            r == self.code_spec(),
    {
        match *self {
            EdsError::NoError => STATUS_OK,
            EdsError::NoCameraFound => STATUS_NO_CAMERA_FOUND,
            EdsError::Other(c) => c,
        }
    }

    pub open spec fn is_ok_spec(&self) -> bool {
        *self is NoError
    }

    /// Whether this is the success status.
    pub fn is_ok(&self) -> (r: bool)
        ensures
            r == self.is_ok_spec(),
            self.wf() ==> (r <==> self.code_spec() == STATUS_OK),
    {
        *self == EdsError::NoError
    }

    pub open spec fn res_spec(self) -> Result<(), EdsError> {
        if self.is_ok_spec() {
            Ok(())
        } else {
            Err(self)
        }
    }

    /// `Ok(())` for the success status, the status itself as the error otherwise.
    pub fn res(self) -> (r: Result<(), EdsError>)
        ensures
            r == self.res_spec(),
    {
        if self.is_ok() {
            Ok(())
        } else {
            Err(self)
        }
    }
}

impl From<EdsError> for Result<(), EdsError> {
    fn from(value: EdsError) -> (r: Self) {
        value.res()
    }
}

impl vstd::std_specs::convert::FromSpecImpl<EdsError> for Result<(), EdsError> {
    open spec fn obeys_from_spec() -> bool {
        true
    }

    open spec fn from_spec(v: EdsError) -> Self {
        v.res_spec()
    }
}

/// How a file stream opens its file.
#[derive(PartialEq, Eq, Structural, Clone, Copy, Debug)]
pub enum EdsFileCreateDisposition {
    CreateNew,
    CreateAlways,
    OpenExisting,
    OpenAlways,
    TruncateExisting,
}

impl EdsFileCreateDisposition {
    pub open spec fn code_spec(&self) -> u32 {
        match *self {
            EdsFileCreateDisposition::CreateNew => 0x00000000,
            EdsFileCreateDisposition::CreateAlways => 0x00000001,
            EdsFileCreateDisposition::OpenExisting => 0x00000002,
            EdsFileCreateDisposition::OpenAlways => 0x00000003,
            EdsFileCreateDisposition::TruncateExisting => 0x00000004,
        }
    }

    /// The value the driver expects for this setting.
    pub fn code(&self) -> (r: u32)
        ensures
            r == self.code_spec(),
    {
        match *self {
            EdsFileCreateDisposition::CreateNew => 0x00000000,
            EdsFileCreateDisposition::CreateAlways => 0x00000001,
            EdsFileCreateDisposition::OpenExisting => 0x00000002,
            EdsFileCreateDisposition::OpenAlways => 0x00000003,
            EdsFileCreateDisposition::TruncateExisting => 0x00000004,
        }
    }
}

/// Access requested when opening a file stream.
#[derive(PartialEq, Eq, Structural, Clone, Copy, Debug)]
pub enum EdsAccess {
    Read,
    Write,
    ReadWrite,
    Error,
}

impl EdsAccess {
    pub open spec fn code_spec(&self) -> u32 {
        match *self {
            EdsAccess::Read => 0x00000000,
            EdsAccess::Write => 0x00000001,
            EdsAccess::ReadWrite => 0x00000002,
            EdsAccess::Error => 0xffffffff,
        }
    }

    /// The value the driver expects for this setting.
    pub fn code(&self) -> (r: u32)
        ensures
            r == self.code_spec(),
    {
        match *self {
            EdsAccess::Read => 0x00000000,
            EdsAccess::Write => 0x00000001,
            EdsAccess::ReadWrite => 0x00000002,
            EdsAccess::Error => 0xffffffff,
        }
    }
}

/// Where the camera stores captured images.
#[derive(PartialEq, Eq, Structural, Clone, Copy, Debug)]
pub enum EdsSaveTo {
    Camera,
    Host,
    Both,
}

impl EdsSaveTo {
    pub open spec fn code_spec(&self) -> u32 {
        match *self {
            EdsSaveTo::Camera => 0x00000001,
            EdsSaveTo::Host => 0x00000002,
            EdsSaveTo::Both => 0x00000003,
        }
    }

    /// The value the driver expects for this setting.
    pub fn code(&self) -> (r: u32)
        ensures
            r == self.code_spec(),
    {
        match *self {
            EdsSaveTo::Camera => 0x00000001,
            EdsSaveTo::Host => 0x00000002,
            EdsSaveTo::Both => 0x00000003,
        }
    }
}

/// Image quality settings (JPEG only).
#[derive(PartialEq, Eq, Structural, Clone, Copy, Debug)]
pub enum EdsImageQuality {
    JpegLarge,
    JpegMiddle,
    JpegMiddle1,
    JpegMiddle1Fine,
    JpegMiddle1Normal,
    JpegMiddle2,
    JpegMiddle2Fine,
    JpegMiddle2Normal,
    JpegSmall,
    JpegSmall1,
    JpegSmall2,
    JpegLargeFine,
    JpegLargeNormal,
    JpegMiddleFine,
    JpegMiddleNormal,
    JpegSmallFine,
    JpegSmallNormal,
    JpegSmall1Fine,
    JpegSmall1Normal,
    JpegSmall2Fine,
    JpegSmall3,
}

impl EdsImageQuality {
    pub open spec fn code_spec(&self) -> u32 {
        match *self {
            EdsImageQuality::JpegLarge => 0x0010ff0f,
            EdsImageQuality::JpegMiddle => 0x0110ff0f,
            EdsImageQuality::JpegMiddle1 => 0x0510ff0f,
            EdsImageQuality::JpegMiddle1Fine => 0x0513ff0f,
            EdsImageQuality::JpegMiddle1Normal => 0x0512ff0f,
            EdsImageQuality::JpegMiddle2 => 0x0610ff0f,
            EdsImageQuality::JpegMiddle2Fine => 0x0613ff0f,
            EdsImageQuality::JpegMiddle2Normal => 0x0612ff0f,
            EdsImageQuality::JpegSmall => 0x0210ff0f,
            EdsImageQuality::JpegSmall1 => 0x0e10ff0f,
            EdsImageQuality::JpegSmall2 => 0x0f10ff0f,
            EdsImageQuality::JpegLargeFine => 0x0013ff0f,
            EdsImageQuality::JpegLargeNormal => 0x0012ff0f,
            EdsImageQuality::JpegMiddleFine => 0x0113ff0f,
            EdsImageQuality::JpegMiddleNormal => 0x0112ff0f,
            EdsImageQuality::JpegSmallFine => 0x0213ff0f,
            EdsImageQuality::JpegSmallNormal => 0x0212ff0f,
            EdsImageQuality::JpegSmall1Fine => 0x0e13ff0f,
            EdsImageQuality::JpegSmall1Normal => 0x0e12ff0f,
            EdsImageQuality::JpegSmall2Fine => 0x0f13ff0f,
            EdsImageQuality::JpegSmall3 => 0x1013ff0f,
        }
    }

    /// The value the driver expects for this setting.
    pub fn code(&self) -> (r: u32)
        ensures
            r == self.code_spec(),
    {
        match *self {
            EdsImageQuality::JpegLarge => 0x0010ff0f,
            EdsImageQuality::JpegMiddle => 0x0110ff0f,
            EdsImageQuality::JpegMiddle1 => 0x0510ff0f,
            EdsImageQuality::JpegMiddle1Fine => 0x0513ff0f,
            EdsImageQuality::JpegMiddle1Normal => 0x0512ff0f,
            EdsImageQuality::JpegMiddle2 => 0x0610ff0f,
            EdsImageQuality::JpegMiddle2Fine => 0x0613ff0f,
            EdsImageQuality::JpegMiddle2Normal => 0x0612ff0f,
            EdsImageQuality::JpegSmall => 0x0210ff0f,
            EdsImageQuality::JpegSmall1 => 0x0e10ff0f,
            EdsImageQuality::JpegSmall2 => 0x0f10ff0f,
            EdsImageQuality::JpegLargeFine => 0x0013ff0f,
            EdsImageQuality::JpegLargeNormal => 0x0012ff0f,
            EdsImageQuality::JpegMiddleFine => 0x0113ff0f,
            EdsImageQuality::JpegMiddleNormal => 0x0112ff0f,
            EdsImageQuality::JpegSmallFine => 0x0213ff0f,
            EdsImageQuality::JpegSmallNormal => 0x0212ff0f,
            EdsImageQuality::JpegSmall1Fine => 0x0e13ff0f,
            EdsImageQuality::JpegSmall1Normal => 0x0e12ff0f,
            EdsImageQuality::JpegSmall2Fine => 0x0f13ff0f,
            EdsImageQuality::JpegSmall3 => 0x1013ff0f,
        }
    }
}

/// Decoding a raw status and reading its code back gives the raw status.
pub proof fn lemma_status_code_round_trip(code: u32)
    ensures
        EdsError::from_code_spec(code).code_spec() == code,
        EdsError::from_code_spec(code).wf(),
        EdsError::from_code_spec(code).is_ok_spec() <==> code == STATUS_OK,
{
}

/// Reading the code of a well-formed status and decoding it gives the status.
pub proof fn lemma_status_value_round_trip(e: EdsError)
    requires
        e.wf(),
    ensures
        EdsError::from_code_spec(e.code_spec()) == e,
{
}

} // verus!

verus! {

/// Live view output device bit: the camera's own screen.
pub const EVF_OUTPUT_TFT: u32 = 1;

/// Live view output device bit: the host computer.
pub const EVF_OUTPUT_PC: u32 = 2;

/// Live view output device bit: the host computer, small image.
pub const EVF_OUTPUT_PC_SMALL: u32 = 8;

/// A set of live view output devices, held as the driver's bit mask.
#[derive(PartialEq, Eq, Structural, Clone, Copy, Debug)]
pub struct EdsEvfOutputDevice {
    pub bits: u32,
}

impl EdsEvfOutputDevice {
    /// The set with exactly the given bits, unknown bits included.
    pub fn from_bits_retain(bits: u32) -> (r: Self)
        ensures
            r.bits == bits,
    {
        EdsEvfOutputDevice { bits }
    }

    pub fn bits(&self) -> (r: u32)
        ensures
            r == self.bits,
    {
        self.bits
    }

    /// Whether every device of `other` is in this set.
    pub fn contains(&self, other: EdsEvfOutputDevice) -> (r: bool)
        ensures
            r == (self.bits & other.bits == other.bits),
    {
        self.bits & other.bits == other.bits
    }

    /// Adds the devices of `other`.
    pub fn insert(&mut self, other: EdsEvfOutputDevice)
        ensures
            final(self).bits == old(self).bits | other.bits,
    {
        self.bits = self.bits | other.bits;
    }

    /// Removes the devices of `other`.
    pub fn remove(&mut self, other: EdsEvfOutputDevice)
        ensures
            final(self).bits == old(self).bits & !other.bits,
    {
        self.bits = self.bits & !other.bits;
    }
}

impl Default for EdsEvfOutputDevice {
    fn default() -> (r: Self)
        ensures
            r.bits == EVF_OUTPUT_TFT,
    {
        EdsEvfOutputDevice { bits: EVF_OUTPUT_TFT }
    }
}

/// After adding a set of devices, the set contains them; after removing them,
/// it contains none of them, and the other devices are kept either way.
pub proof fn lemma_evf_insert_remove(current: u32, other: u32)
    ensures
        (current | other) & other == other,
        (current & !other) & other == 0,
        (current & !other) | (current & other) == current,
{
    assert((current | other) & other == other) by (bit_vector);
    assert((current & !other) & other == 0) by (bit_vector);
    assert((current & !other) | (current & other) == current) by (bit_vector);
}

/// Capacity of the host storage announced to the camera when images are
/// saved to the host.
#[derive(PartialEq, Eq, Structural, Clone, Copy, Debug)]
pub struct EdsCapacity {
    pub number_of_free_clusters: u32,
    pub bytes_per_sector: u32,
    pub reset: i32,
}

} // verus!
