//! The HID class: the requests of the class, the contract of a report
//! back-end, and the adapter that routes control transfers to it.
//!
//! The adapter decides; it does not touch the bus. A control transfer comes
//! in as the plain fields of its setup packet, and goes out as the answer to
//! give: accept, accept with data, reject, or leave the transfer to others.

use vstd::prelude::*;

verus! {

/// Descriptor type of the HID class descriptor.
pub const DESCRIPTOR_TYPE_HID: u8 = 0x21;

/// Descriptor type of the report descriptor.
pub const DESCRIPTOR_TYPE_REPORT: u8 = 0x22;

/// The standard request GET_DESCRIPTOR.
pub const GET_DESCRIPTOR: u8 = 6;

/// Interface class of a HID interface; it has no subclass and no protocol.
pub const INTERFACE_CLASS: u8 = 0x03;

/// Address of the interrupt IN endpoint.
pub const ENDPOINT_IN: u8 = 4;

/// Address of the interrupt OUT endpoint.
pub const ENDPOINT_OUT: u8 = 3;

/// Largest packet on either endpoint.
pub const MAX_PACKET_SIZE: u16 = 64;

/// Polling interval of either endpoint, in milliseconds.
pub const POLL_INTERVAL: u8 = 1;

/// The requests of the HID class.
#[derive(Clone, Copy, Debug, PartialEq, Eq, Structural)]
pub enum HidRequest {
    GetReport,
    GetIdle,
    GetProtocol,
    SetReport,
    SetIdle,
    SetProtocol,
}

impl HidRequest {
    /// The request code on the wire.
    pub open spec fn code(self) -> u8 {
        match self {
            HidRequest::GetReport => 0x01,
            HidRequest::GetIdle => 0x02,
            HidRequest::GetProtocol => 0x03,
            HidRequest::SetReport => 0x09,
            HidRequest::SetIdle => 0x0a,
            HidRequest::SetProtocol => 0x0b,
        }
    }

    /// The request that a code stands for, if any.
    pub open spec fn of_code(code: u8) -> Option<HidRequest> {
        if code == 0x01 {
            Some(HidRequest::GetReport)
        } else if code == 0x02 {
            Some(HidRequest::GetIdle)
        } else if code == 0x03 {
            Some(HidRequest::GetProtocol)
        } else if code == 0x09 {
            Some(HidRequest::SetReport)
        } else if code == 0x0a {
            Some(HidRequest::SetIdle)
        } else if code == 0x0b {
            Some(HidRequest::SetProtocol)
        } else {
            None
        }
    }

    /// The request code on the wire.
    pub fn to_u8(self) -> (code: u8)
        ensures
            code == self.code(),
    {
        match self {
            HidRequest::GetReport => 0x01,
            HidRequest::GetIdle => 0x02,
            HidRequest::GetProtocol => 0x03,
            HidRequest::SetReport => 0x09,
            HidRequest::SetIdle => 0x0a,
            HidRequest::SetProtocol => 0x0b,
        }
    }

    /// The request that a code stands for, if any.
    pub fn from_u8(code: u8) -> (r: Option<HidRequest>)
        ensures
            r == HidRequest::of_code(code),
    {
        match code {
            0x01 => Some(HidRequest::GetReport),
            0x02 => Some(HidRequest::GetIdle),
            0x03 => Some(HidRequest::GetProtocol),
            0x09 => Some(HidRequest::SetReport),
            0x0a => Some(HidRequest::SetIdle),
            0x0b => Some(HidRequest::SetProtocol),
            _ => None,
        }
    }
}

/// A request's code stands for the request.
pub proof fn lemma_request_code(request: HidRequest)
    ensures
        HidRequest::of_code(request.code()) == Some(request),
{
}

/// The kind of a report.
#[derive(Clone, Copy, Debug, PartialEq, Eq, Structural)]
pub enum HidReportType {
    Input,
    Output,
    Feature,
    Reserved(u8),
}

impl HidReportType {
    /// The kind that a code stands for.
    pub open spec fn of_code(x: u8) -> HidReportType {
        if x == 1 {
            HidReportType::Input
        } else if x == 2 {
            HidReportType::Output
        } else if x == 3 {
            HidReportType::Feature
        } else {
            HidReportType::Reserved(x)
        }
    }
}

impl From<u8> for HidReportType {
    fn from(x: u8) -> (r: HidReportType) {
        match x {
            1 => HidReportType::Input,
            2 => HidReportType::Output,
            3 => HidReportType::Feature,
            _ => HidReportType::Reserved(x),
        }
    }
}

impl vstd::std_specs::convert::FromSpecImpl<u8> for HidReportType {
    open spec fn obeys_from_spec() -> bool {
        true
    }

    open spec fn from_spec(x: u8) -> HidReportType {
        HidReportType::of_code(x)
    }
}

/// What a report back-end answers to a request for a report.
pub type Report = Result<Seq<u8>, ()>;

/// A report back-end: it owns the report descriptor and answers requests to
/// get and to set reports.
///
/// The four predicates say what an implementation promises. They default to
/// promising nothing, so that a back-end can be written without proving
/// anything about it.
pub trait Hid: Sized {
    /// What has to hold of the back-end between calls.
    open spec fn inv(&self) -> bool {
        true
    }

    /// Whether `descriptor` is the report descriptor of the back-end.
    open spec fn describes(&self, descriptor: Seq<u8>) -> bool {
        true
    }

    /// Whether a back-end in state `self` may answer a request for report
    /// `report_id` with `answer` and be in state `after` then.
    open spec fn gets(
        &self,
        after: &Self,
        report_type: HidReportType,
        report_id: u8,
        length: Option<u16>,
        answer: Report,
    ) -> bool {
        true
    }

    /// Whether a back-end in state `self` may answer the host's report
    /// `data` with `answer` and be in state `after` then.
    open spec fn sets(
        &self,
        after: &Self,
        report_type: HidReportType,
        report_id: u8,
        data: Seq<u8>,
        answer: Result<(), ()>,
    ) -> bool {
        true
    }

    /// The report descriptor.
    fn report_descriptor(&self) -> (r: &[u8])
        requires
            self.inv(),
        ensures
            self.describes(r@),
    ;

    /// Answers a request for a report.
    fn get_report(&mut self, report_type: HidReportType, report_id: u8, length: Option<u16>) -> (r:
        Result<&[u8], ()>)
        requires
            old(self).inv(),
        ensures
            final(self).inv(),
            old(self).gets(
                final(self),
                report_type,
                report_id,
                length,
                match r {
                    Ok(data) => Ok(data@),
                    Err(_) => Err(()),
                },
            ),
    ;

    /// Takes a report from the host.
    fn set_report(&mut self, report_type: HidReportType, report_id: u8, data: &[u8]) -> (r: Result<
        (),
        (),
    >)
        requires
            old(self).inv(),
        ensures
            final(self).inv(),
            old(self).sets(final(self), report_type, report_id, data@, r),
    ;
}

/// The type of a control request.
#[derive(Clone, Copy, Debug, PartialEq, Eq, Structural)]
pub enum RequestType {
    Standard,
    Class,
    Vendor,
    Reserved,
}

/// The recipient of a control request.
#[derive(Clone, Copy, Debug, PartialEq, Eq, Structural)]
pub enum Recipient {
    Device,
    Interface,
    Endpoint,
    Other,
    Reserved,
}

/// The fields of a setup packet that the class reads.
#[derive(Clone, Copy, Debug, PartialEq, Eq, Structural)]
pub struct ControlRequest {
    pub request_type: RequestType,
    pub recipient: Recipient,
    pub request: u8,
    pub value: u16,
    pub index: u16,
    pub length: u16,
}

impl ControlRequest {
    /// The high octet of `value`: the report type, the descriptor type, or
    /// the idle duration.
    pub open spec fn spec_high(&self) -> u8 {
        (self.value / 0x100) as u8
    }

    /// The low octet of `value`: the report id or the descriptor index.
    pub open spec fn spec_low(&self) -> u8 {
        (self.value % 0x100) as u8
    }

    /// The high octet of `value`.
    #[verifier::when_used_as_spec(spec_high)]
    pub fn high(&self) -> (r: u8)
        ensures
            r == self.spec_high(),
    {
        (self.value / 0x100) as u8
    }

    /// The low octet of `value`.
    #[verifier::when_used_as_spec(spec_low)]
    pub fn low(&self) -> (r: u8)
        ensures
            r == self.spec_low(),
    {
        (self.value % 0x100) as u8
    }
}

/// The answer to a control transfer towards the host.
#[derive(Clone, Copy, Debug, PartialEq, Eq)]
pub enum InResponse<'a> {
    /// The class does not handle the transfer.
    Unhandled,
    /// The transfer is accepted with these bytes.
    Accept(&'a [u8]),
    /// The transfer is rejected.
    Reject,
}

impl InResponse<'_> {
    /// The answer with the data as a sequence.
    pub open spec fn view(&self) -> InAnswer {
        match self {
            InResponse::Unhandled => InAnswer::Unhandled,
            InResponse::Accept(data) => InAnswer::Accept(data@),
            InResponse::Reject => InAnswer::Reject,
        }
    }
}

/// The answer to a control transfer towards the host, by value.
pub enum InAnswer {
    Unhandled,
    Accept(Seq<u8>),
    Reject,
}

/// The answer to a control transfer from the host.
#[derive(Clone, Copy, Debug, PartialEq, Eq, Structural)]
pub enum OutResponse {
    /// The class does not handle the transfer.
    Unhandled,
    /// The transfer is accepted.
    Accept,
    /// The transfer is rejected.
    Reject,
}

/// What a control transfer towards the host asks of the class.
#[derive(Clone, Copy, Debug, PartialEq, Eq, Structural)]
pub enum InRoute {
    Unhandled,
    ReportDescriptor,
    GetReport,
    GetIdle,
    GetProtocol,
}

/// What a control transfer from the host asks of the class.
#[derive(Clone, Copy, Debug, PartialEq, Eq, Structural)]
pub enum OutRoute {
    Unhandled,
    SetReport,
    SetIdle,
    SetProtocol,
}

/// Where a transfer towards the host goes. Only requests to the interface
/// are handled: of the standard requests GET_DESCRIPTOR for report
/// descriptor 0, of the class requests GetReport, GetIdle and GetProtocol.
pub open spec fn spec_route_in(req: &ControlRequest) -> InRoute {
    if req.recipient != Recipient::Interface {
        InRoute::Unhandled
    } else if req.request_type == RequestType::Standard {
        if req.request == GET_DESCRIPTOR && req.spec_high() == DESCRIPTOR_TYPE_REPORT
            && req.spec_low() == 0 {
            InRoute::ReportDescriptor
        } else {
            InRoute::Unhandled
        }
    } else if req.request_type == RequestType::Class {
        match HidRequest::of_code(req.request) {
            Some(HidRequest::GetReport) => InRoute::GetReport,
            Some(HidRequest::GetIdle) => InRoute::GetIdle,
            Some(HidRequest::GetProtocol) => InRoute::GetProtocol,
            _ => InRoute::Unhandled,
        }
    } else {
        InRoute::Unhandled
    }
}

/// Where a transfer from the host goes. Only class requests to the
/// interface are handled: SetReport, SetIdle and SetProtocol.
pub open spec fn spec_route_out(req: &ControlRequest) -> OutRoute {
    if req.recipient != Recipient::Interface {
        OutRoute::Unhandled
    } else if req.request_type == RequestType::Class {
        match HidRequest::of_code(req.request) {
            Some(HidRequest::SetReport) => OutRoute::SetReport,
            Some(HidRequest::SetIdle) => OutRoute::SetIdle,
            Some(HidRequest::SetProtocol) => OutRoute::SetProtocol,
            _ => OutRoute::Unhandled,
        }
    } else {
        OutRoute::Unhandled
    }
}

/// Where a transfer towards the host goes.
#[verifier::when_used_as_spec(spec_route_in)]
pub fn route_in(req: &ControlRequest) -> (route: InRoute)
    ensures
        route == spec_route_in(req),
{
    if req.recipient != Recipient::Interface {
        return InRoute::Unhandled;
    }
    match req.request_type {
        RequestType::Standard => {
            if req.request == GET_DESCRIPTOR && req.high() == DESCRIPTOR_TYPE_REPORT && req.low()
                == 0 {
                InRoute::ReportDescriptor
            } else {
                InRoute::Unhandled
            }
        },
        RequestType::Class => match HidRequest::from_u8(req.request) {
            Some(HidRequest::GetReport) => InRoute::GetReport,
            Some(HidRequest::GetIdle) => InRoute::GetIdle,
            Some(HidRequest::GetProtocol) => InRoute::GetProtocol,
            _ => InRoute::Unhandled,
        },
        _ => InRoute::Unhandled,
    }
}

/// Where a transfer from the host goes.
#[verifier::when_used_as_spec(spec_route_out)]
pub fn route_out(req: &ControlRequest) -> (route: OutRoute)
    ensures
        route == spec_route_out(req),
{
    if req.recipient != Recipient::Interface {
        return OutRoute::Unhandled;
    }
    match req.request_type {
        RequestType::Class => match HidRequest::from_u8(req.request) {
            Some(HidRequest::SetReport) => OutRoute::SetReport,
            Some(HidRequest::SetIdle) => OutRoute::SetIdle,
            Some(HidRequest::SetProtocol) => OutRoute::SetProtocol,
            _ => OutRoute::Unhandled,
        },
        _ => OutRoute::Unhandled,
    }
}

/// The payload of the HID class descriptor for a report descriptor of
/// `len` bytes: version 1.11, no country code, one descriptor, of type
/// report, and its length as sixteen bits, low octet first.
pub open spec fn class_descriptor(len: nat) -> Seq<u8> {
    seq![
        0x11u8,
        0x01u8,
        0u8,
        1u8,
        0x22u8,
        (len % 0x100) as u8,
        ((len / 0x100) % 0x100) as u8,
    ]
}

/// The HID class over a report back-end.
pub struct HidClass<H: Hid> {
    hid: H,
    idle: [u8; 1],
}

impl<H: Hid> HidClass<H> {
    /// The back-end.
    pub closed spec fn backend(&self) -> H {
        self.hid
    }

    /// The idle duration that the host has set.
    pub closed spec fn idle_duration(&self) -> u8 {
        self.idle@[0]
    }

    /// The back-end is in order.
    pub open spec fn inv(&self) -> bool {
        self.backend().inv()
    }

    /// The class over `hid`, with no idle duration set.
    pub fn new(hid: H) -> (class: HidClass<H>)
        requires
            hid.inv(),
        ensures
            class.inv(),
            class.backend() == hid,
            class.idle_duration() == 0,
    {
        HidClass { hid, idle: [0u8; 1] }
    }

    /// The back-end.
    pub fn hid(&self) -> (r: &H)
        ensures
            *r == self.backend(),
    {
        &self.hid
    }

    /// The back-end, to change it between transfers.
    pub fn hid_mut(&mut self) -> (r: &mut H)
        ensures
            *r == old(self).backend(),
            final(self).backend() == *final(r),
            final(self).idle_duration() == old(self).idle_duration(),
    {
        &mut self.hid
    }

    /// The latest input report, to be written to the IN endpoint.
    pub fn send(&mut self) -> (r: Result<&[u8], ()>)
        requires
            old(self).inv(),
        ensures
            final(self).inv(),
            final(self).idle_duration() == old(self).idle_duration(),
            old(self).backend().gets(
                &final(self).backend(),
                HidReportType::Input,
                0,
                None,
                match r {
                    Ok(data) => Ok(data@),
                    Err(_) => Err(()),
                },
            ),
    {
        self.hid.get_report(HidReportType::Input, 0, None)
    }

    /// GetReport: asks the back-end for the report that `value` names, type
    /// in the high octet and id in the low one, and accepts with it or
    /// rejects.
    fn get_report(&mut self, req: &ControlRequest) -> (r: InResponse<'_>)
        requires
            old(self).inv(),
        ensures
            final(self).inv(),
            final(self).idle_duration() == old(self).idle_duration(),
            r@ !is Unhandled,
            old(self).backend().gets(
                &final(self).backend(),
                HidReportType::of_code(req.high()),
                req.low(),
                Some(req.length),
                match r@ {
                    InAnswer::Accept(data) => Ok(data),
                    _ => Err(()),
                },
            ),
    {
        let report_type = HidReportType::from(req.high());
        let report_id = req.low();
        match self.hid.get_report(report_type, report_id, Some(req.length)) {
            Ok(data) => InResponse::Accept(data),
            Err(_) => InResponse::Reject,
        }
    }

    /// SetReport: hands the data to the back-end and accepts or rejects as
    /// it says.
    fn set_report(&mut self, req: &ControlRequest, data: &[u8]) -> (r: OutResponse)
        requires
            old(self).inv(),
        ensures
            final(self).inv(),
            final(self).idle_duration() == old(self).idle_duration(),
            r != OutResponse::Unhandled,
            old(self).backend().sets(
                &final(self).backend(),
                HidReportType::of_code(req.high()),
                req.low(),
                data@,
                if r == OutResponse::Accept {
                    Ok(())
                } else {
                    Err(())
                },
            ),
    {
        let report_type = HidReportType::from(req.high());
        let report_id = req.low();
        let answer = self.hid.set_report(report_type, report_id, data);
        match answer {
            Ok(done) => {
                assert(answer == Ok::<(), ()>(()));
                OutResponse::Accept
            },
            Err(failed) => {
                assert(answer == Err::<(), ()>(()));
                OutResponse::Reject
            },
        }
    }

    /// GetIdle: the high octet of `value` must be zero; the answer is the
    /// one idle duration, whichever report is asked about.
    fn get_idle(&self, req: &ControlRequest) -> (r: InResponse<'_>)
        ensures
            r@ == if req.high() != 0 {
                InAnswer::Reject
            } else {
                InAnswer::Accept(seq![self.idle_duration()])
            },
    {
        if req.high() != 0 {
            InResponse::Reject
        } else {
            assert(self.idle@ =~= seq![self.idle@[0]]);
            InResponse::Accept(self.idle.as_slice())
        }
    }

    /// SetIdle: stores the duration when it is meant for all reports, and
    /// accepts in any case.
    fn set_idle(&mut self, req: &ControlRequest) -> (r: OutResponse)
        ensures
            r == OutResponse::Accept,
            final(self).backend() == old(self).backend(),
            final(self).idle_duration() == if req.low() == 0 {
                req.high()
            } else {
                old(self).idle_duration()
            },
    {
        if req.low() == 0 {
            self.idle[0] = req.high();
        }
        OutResponse::Accept
    }

    /// GetProtocol is not supported.
    fn get_protocol(&self) -> (r: InResponse<'_>)
        ensures
            r@ is Reject,
    {
        InResponse::Reject
    }

    /// SetProtocol is not supported.
    fn set_protocol(&self) -> (r: OutResponse)
        ensures
            r == OutResponse::Reject,
    {
        OutResponse::Reject
    }

    /// A bus reset clears the idle duration.
    pub fn reset(&mut self)
        ensures
            final(self).backend() == old(self).backend(),
            final(self).idle_duration() == 0,
    {
        self.idle[0] = 0;
    }

    /// The payload of the HID class descriptor that follows the interface
    /// descriptor in the configuration.
    pub fn get_configuration_descriptors(&self) -> (r: [u8; 7])
        requires
            self.inv(),
        ensures
            exists|descriptor: Seq<u8>| #[trigger]
                self.backend().describes(descriptor) && r@ == class_descriptor(descriptor.len()),
    {
        let descriptor = self.hid.report_descriptor();
        let len: usize = descriptor.len();
        let r = [
            0x11,
            0x01,
            0,
            1,
            DESCRIPTOR_TYPE_REPORT,
            (len % 0x100) as u8,
            ((len / 0x100) % 0x100) as u8,
        ];
        assert(r@ =~= class_descriptor(descriptor@.len()));
        r
    }

    /// The class has no strings.
    pub fn get_string(&self, index: u8, lang_id: u16) -> (r: Option<&str>)
        ensures
            r is None,
    {
        None
    }

    /// Answers a control transfer towards the host.
    pub fn control_in(&mut self, req: &ControlRequest) -> (r: InResponse<'_>)
        requires
            old(self).inv(),
        ensures
            final(self).inv(),
            final(self).idle_duration() == old(self).idle_duration(),
            match spec_route_in(req) {
                InRoute::Unhandled => r@ is Unhandled && final(self).backend() == old(self).backend(),
                InRoute::ReportDescriptor => final(self).backend() == old(self).backend() && (r@
                    matches InAnswer::Accept(descriptor) && old(self).backend().describes(
                    descriptor,
                )),
                InRoute::GetReport => r@ !is Unhandled && old(self).backend().gets(
                    &final(self).backend(),
                    HidReportType::of_code(req.high()),
                    req.low(),
                    Some(req.length),
                    match r@ {
                        InAnswer::Accept(data) => Ok(data),
                        _ => Err(()),
                    },
                ),
                InRoute::GetIdle => final(self).backend() == old(self).backend() && r@ == if req.high()
                    != 0 {
                    InAnswer::Reject
                } else {
                    InAnswer::Accept(seq![old(self).idle_duration()])
                },
                InRoute::GetProtocol => r@ is Reject && final(self).backend() == old(self).backend(),
            },
    {
        match route_in(req) {
            InRoute::Unhandled => InResponse::Unhandled,
            InRoute::ReportDescriptor => InResponse::Accept(self.hid.report_descriptor()),
            InRoute::GetReport => self.get_report(req),
            InRoute::GetIdle => self.get_idle(req),
            InRoute::GetProtocol => self.get_protocol(),
        }
    }

    /// Answers a control transfer from the host that carries `data`.
    pub fn control_out(&mut self, req: &ControlRequest, data: &[u8]) -> (r: OutResponse)
        requires
            old(self).inv(),
        ensures
            final(self).inv(),
            match spec_route_out(req) {
                OutRoute::Unhandled => r == OutResponse::Unhandled && final(self).backend() == old(self).backend() && final(self).idle_duration() == old(self).idle_duration(),
                OutRoute::SetReport => r != OutResponse::Unhandled && final(self).idle_duration()
                    == old(self).idle_duration() && old(self).backend().sets(
                    &final(self).backend(),
                    HidReportType::of_code(req.high()),
                    req.low(),
                    data@,
                    if r == OutResponse::Accept {
                        Ok(())
                    } else {
                        Err(())
                    },
                ),
                OutRoute::SetIdle => r == OutResponse::Accept && final(self).backend() == old(self).backend() && final(self).idle_duration() == if req.low() == 0 {
                    req.high()
                } else {
                    old(self).idle_duration()
                },
                OutRoute::SetProtocol => r == OutResponse::Reject && final(self).backend() == old(self).backend() && final(self).idle_duration() == old(self).idle_duration(),
            },
    {
        match route_out(req) {
            OutRoute::Unhandled => OutResponse::Unhandled,
            OutRoute::SetReport => self.set_report(req, data),
            OutRoute::SetIdle => self.set_idle(req),
            OutRoute::SetProtocol => self.set_protocol(),
        }
    }
}

} // verus!
