//! The firmware-update class of the bootloader: its states and requests, the
//! functional descriptor, and the answers to control transfers.
//!
//! Like the HID class, the class decides and leaves the bus to its caller.

use crate::hid::{ControlRequest, InAnswer, InResponse, OutResponse, Recipient, RequestType};
use vstd::prelude::*;

verus! {

/// Interface class of the update interface (application specific).
pub const INTERFACE_CLASS: u8 = 0xFE;

/// Interface subclass (device firmware upgrade).
pub const INTERFACE_SUBCLASS: u8 = 0x01;

/// Interface protocol (DFU mode).
pub const INTERFACE_PROTOCOL: u8 = 0x02;

/// Descriptor type of the functional descriptor.
pub const DESCRIPTOR_TYPE_FUNCTIONAL: u8 = 0x21;

/// Size of the region at the start of flash that the bootloader keeps.
pub const BOOTLOADER_SIZE: usize = 32 * 1024;

/// Whether the bootloader takes firmware from the host.
pub fn dfu_can_download() -> (r: bool)
    ensures
        r,
{
    true
}

/// Whether the bootloader hands firmware to the host.
pub fn dfu_can_upload() -> (r: bool)
    ensures
        r,
{
    true
}

/// The first address behind the region that the bootloader keeps.
pub fn dfu_block_begin() -> (r: usize)
    ensures
        r == 0x8000_0000 + 32 * 1024,
{
    0x8000_0000 + BOOTLOADER_SIZE
}

/// The states of the update protocol.
#[derive(Clone, Copy, Debug, PartialEq, Eq, Structural)]
pub enum DfuState {
    Idle,
    DownloadSync,
    DownloadBusy,
    DownloadIdle,
    ManifestSync,
    Manifest,
    ManifestWaitReset,
    UploadIdle,
    /// The error state.
    Failed,
}

impl DfuState {
    /// The state's number in a status report.
    pub open spec fn spec_byte_value(&self) -> u8 {
        match self {
            DfuState::Idle => 2,
            DfuState::DownloadSync => 3,
            DfuState::DownloadBusy => 4,
            DfuState::DownloadIdle => 5,
            DfuState::ManifestSync => 6,
            DfuState::Manifest => 7,
            DfuState::ManifestWaitReset => 8,
            DfuState::UploadIdle => 9,
            DfuState::Failed => 10,
        }
    }

    /// The state in which the class starts.
    pub fn idle() -> (state: DfuState)
        ensures
            state == DfuState::Idle,
    {
        DfuState::Idle
    }

    /// The state's number in a status report.
    #[verifier::when_used_as_spec(spec_byte_value)]
    pub fn byte_value(&self) -> (r: u8)
        ensures
            r == self.spec_byte_value(),
    {
        match self {
            DfuState::Idle => 2,
            DfuState::DownloadSync => 3,
            DfuState::DownloadBusy => 4,
            DfuState::DownloadIdle => 5,
            DfuState::ManifestSync => 6,
            DfuState::Manifest => 7,
            DfuState::ManifestWaitReset => 8,
            DfuState::UploadIdle => 9,
            DfuState::Failed => 10,
        }
    }

    /// A download request: no state takes one yet, so the class ends up in
    /// the error state; the second component says whether the transfer is to
    /// be rejected, which is so only when downloads are switched off.
    pub fn download(self, can_download: bool) -> (r: (DfuState, bool))
        ensures
            r.0 == DfuState::Failed,
            r.1 == (self == DfuState::Idle && !can_download),
    {
        match self {
            DfuState::Idle => (DfuState::Failed, !can_download),
            _ => (DfuState::Failed, false),
        }
    }
}

/// The requests of the update class.
#[derive(Clone, Copy, Debug, PartialEq, Eq, Structural)]
pub enum DfuRequest {
    /// Cannot happen in the bootloader: it is in update mode already.
    Detach,
    Download,
    Upload,
    GetStatus,
    ClearStatus,
    GetState,
    Abort,
}

impl DfuRequest {
    /// The request code on the wire.
    pub open spec fn code(self) -> u8 {
        match self {
            DfuRequest::Detach => 0x00,
            DfuRequest::Download => 0x01,
            DfuRequest::Upload => 0x02,
            DfuRequest::GetStatus => 0x03,
            DfuRequest::ClearStatus => 0x04,
            DfuRequest::GetState => 0x05,
            DfuRequest::Abort => 0x06,
        }
    }

    /// The request that a code stands for, if any.
    pub open spec fn of_code(code: u8) -> Option<DfuRequest> {
        if code == 0x00 {
            Some(DfuRequest::Detach)
        } else if code == 0x01 {
            Some(DfuRequest::Download)
        } else if code == 0x02 {
            Some(DfuRequest::Upload)
        } else if code == 0x03 {
            Some(DfuRequest::GetStatus)
        } else if code == 0x04 {
            Some(DfuRequest::ClearStatus)
        } else if code == 0x05 {
            Some(DfuRequest::GetState)
        } else if code == 0x06 {
            Some(DfuRequest::Abort)
        } else {
            None
        }
    }

    /// The request code on the wire.
    pub fn to_u8(self) -> (code: u8)
        ensures
            code == self.code(),
    {
        match self {
            DfuRequest::Detach => 0x00,
            DfuRequest::Download => 0x01,
            DfuRequest::Upload => 0x02,
            DfuRequest::GetStatus => 0x03,
            DfuRequest::ClearStatus => 0x04,
            DfuRequest::GetState => 0x05,
            DfuRequest::Abort => 0x06,
        }
    }

    /// The request that a code stands for, if any.
    pub fn from_u8(code: u8) -> (r: Option<DfuRequest>)
        ensures
            r == DfuRequest::of_code(code),
    {
        match code {
            0x00 => Some(DfuRequest::Detach),
            0x01 => Some(DfuRequest::Download),
            0x02 => Some(DfuRequest::Upload),
            0x03 => Some(DfuRequest::GetStatus),
            0x04 => Some(DfuRequest::ClearStatus),
            0x05 => Some(DfuRequest::GetState),
            0x06 => Some(DfuRequest::Abort),
            _ => None,
        }
    }
}

/// A request's code stands for the request.
pub proof fn lemma_request_code(request: DfuRequest)
    ensures
        DfuRequest::of_code(request.code()) == Some(request),
{
}

/// The payload of the functional descriptor: the attributes (bit 0 for
/// download, bit 1 for upload), a detach timeout of 65535 ms, a transfer size
/// of 1024 bytes, and version 1.11.
pub open spec fn functional_descriptor(download: bool, upload: bool) -> Seq<u8> {
    seq![
        ((if download {
            1int
        } else {
            0int
        }) + (if upload {
            2int
        } else {
            0int
        })) as u8,
        0xFFu8,
        0xFFu8,
        0x00u8,
        0x04u8,
        0x11u8,
        0x01u8,
    ]
}

/// The status report: the status, a poll timeout of zero, the state's
/// number, and the index of the status string.
pub open spec fn status_payload(status: u8, state: DfuState) -> Seq<u8> {
    seq![status, 0u8, 0u8, 0u8, state.spec_byte_value(), 1u8]
}

/// Whether a transfer towards the host asks the class for its status: a
/// class request GetStatus to the interface.
pub open spec fn asks_status(req: &ControlRequest) -> bool {
    req.recipient == Recipient::Interface && req.request_type == RequestType::Class
        && DfuRequest::of_code(req.request) == Some(DfuRequest::GetStatus)
}

/// The update class.
pub struct DfuClass {
    /// Host to device.
    support_download: bool,
    /// Device to host.
    support_upload: bool,
    status: u8,
    state: DfuState,
    payload: [u8; 6],
}

impl DfuClass {
    /// Whether firmware can be sent to the device.
    pub closed spec fn supports_download(&self) -> bool {
        self.support_download
    }

    /// Whether firmware can be read from the device.
    pub closed spec fn supports_upload(&self) -> bool {
        self.support_upload
    }

    /// The status of the last operation.
    pub closed spec fn status(&self) -> u8 {
        self.status
    }

    /// The state of the protocol.
    pub closed spec fn state(&self) -> DfuState {
        self.state
    }

    /// A class that supports both directions, at rest and without error.
    pub fn new() -> (class: DfuClass)
        ensures
            class.supports_download(),
            class.supports_upload(),
            class.status() == 0,
            class.state() == DfuState::Idle,
    {
        DfuClass {
            support_download: true,
            support_upload: true,
            status: 0,
            state: DfuState::idle(),
            payload: [0u8; 6],
        }
    }

    /// A bus reset leaves the class as it is.
    pub fn reset(&mut self)
        ensures
            final(self).supports_download() == old(self).supports_download(),
            final(self).supports_upload() == old(self).supports_upload(),
            final(self).status() == old(self).status(),
            final(self).state() == old(self).state(),
    {
    }

    /// The payload of the functional descriptor that follows the interface
    /// descriptor in the configuration.
    pub fn get_configuration_descriptors(&self) -> (r: [u8; 7])
        ensures
            r@ == functional_descriptor(self.supports_download(), self.supports_upload()),
    {
        let mut attributes: u8 = 0;
        if self.support_download {
            attributes = attributes + 1;
        }
        if self.support_upload {
            attributes = attributes + 2;
        }
        let r = [attributes, 0xff, 0xff, 0x00, 0x04, 0x11, 0x1];
        assert(r@ =~= functional_descriptor(self.supports_download(), self.supports_upload()));
        r
    }

    /// The class has no strings.
    pub fn get_string(&self, index: u8, lang_id: u16) -> (r: Option<&str>)
        ensures
            r is None,
    {
        None
    }

    /// Answers a control transfer towards the host: a request for the status
    /// is accepted with the status report, everything else is left alone.
    /// The class stays as it is.
    pub fn control_in(&mut self, req: &ControlRequest) -> (r: InResponse<'_>)
        ensures
            final(self).supports_download() == old(self).supports_download(),
            final(self).supports_upload() == old(self).supports_upload(),
            final(self).status() == old(self).status(),
            final(self).state() == old(self).state(),
            r@ == if asks_status(req) {
                InAnswer::Accept(status_payload(old(self).status(), old(self).state()))
            } else {
                InAnswer::Unhandled
            },
    {
        if req.recipient != Recipient::Interface {
            return InResponse::Unhandled;
        }
        match req.request_type {
            RequestType::Class => match DfuRequest::from_u8(req.request) {
                Some(DfuRequest::GetStatus) => {
                    self.payload = [self.status, 0, 0, 0, self.state.byte_value(), 1];
                    assert(self.payload@ =~= status_payload(self.status, self.state));
                    InResponse::Accept(self.payload.as_slice())
                },
                _ => InResponse::Unhandled,
            },
            _ => InResponse::Unhandled,
        }
    }

    /// Answers a control transfer from the host: none is handled.
    pub fn control_out(&mut self, req: &ControlRequest) -> (r: OutResponse)
        ensures
            *final(self) == *old(self),
            r == OutResponse::Unhandled,
    {
        OutResponse::Unhandled
    }
}

} // verus!
