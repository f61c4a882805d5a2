//! The gamepad as the console sees it: the 64-byte input report, the report
//! descriptor, and the back-end that serves the input report, the capability
//! report and the reports of the authentication exchange.

use crate::auth::{
    get_signature_chunk, get_status, set_nonce, AuthState, AuthStateType, Authenticator, Machine,
};
use crate::bytes::{put, zeros};
use crate::hid::{Hid, HidReportType, Report};
use crate::input::{DeviceInputs, Hat};
use vstd::prelude::*;

verus! {

/// Report id of the input report on the wire.
pub const REPORT_INPUT: u8 = 0x01;

/// Report id under which the back-end is asked for the input report.
pub const REPORT_DEFAULT: u8 = 0x00;

/// Report id of the capability report.
pub const REPORT_CAPABILITIES: u8 = 0x03;

/// Report id of the capability report within the authentication reports.
pub const REPORT_AUTH_CAPABILITIES: u8 = 0xF3;

/// Length of the input report.
pub const INPUT_REPORT_LEN: usize = 64;

/// Length of the capability report.
pub const CAPABILITIES_LEN: u16 = 48;

/// The report descriptor, byte for byte that of a licensed controller.
pub const REPORT_DESCRIPTOR: [u8; 160] = [
    0x05, 0x01, 0x09, 0x05, 0xA1, 0x01, 0x85, 0x01, 0x09, 0x30, 0x09, 0x31,
    0x09, 0x32, 0x09, 0x35, 0x15, 0x00, 0x26, 0xFF, 0x00, 0x75, 0x08, 0x95,
    0x04, 0x81, 0x02, 0x09, 0x39, 0x15, 0x00, 0x25, 0x07, 0x35, 0x00, 0x46,
    0x3B, 0x01, 0x65, 0x14, 0x75, 0x04, 0x95, 0x01, 0x81, 0x42, 0x65, 0x00,
    0x05, 0x09, 0x19, 0x01, 0x29, 0x0E, 0x15, 0x00, 0x25, 0x01, 0x75, 0x01,
    0x95, 0x0E, 0x81, 0x02, 0x06, 0x00, 0xFF, 0x09, 0x20, 0x75, 0x06, 0x95,
    0x01, 0x81, 0x02, 0x05, 0x01, 0x09, 0x33, 0x09, 0x34, 0x15, 0x00, 0x26,
    0xFF, 0x00, 0x75, 0x08, 0x95, 0x02, 0x81, 0x02, 0x06, 0x00, 0xFF, 0x09,
    0x21, 0x95, 0x36, 0x81, 0x02, 0x85, 0x05, 0x09, 0x22, 0x95, 0x1F, 0x91,
    0x02, 0x85, 0x03, 0x0A, 0x21, 0x27, 0x95, 0x2F, 0xB1, 0x02, 0xC0, 0x06,
    0xF0, 0xFF, 0x09, 0x40, 0xA1, 0x01, 0x85, 0xF0, 0x09, 0x47, 0x95, 0x3F,
    0xB1, 0x02, 0x85, 0xF1, 0x09, 0x48, 0x95, 0x3F, 0xB1, 0x02, 0x85, 0xF2,
    0x09, 0x49, 0x95, 0x0F, 0xB1, 0x02, 0x85, 0xF3, 0x0A, 0x01, 0x47, 0x95,
    0x07, 0xB1, 0x02, 0xC0,
];

/// The capability report of a licensed controller; its first byte is the
/// report id.
pub const CAPABILITIES: [u8; 48] = [
    0x03, 0x21, 0x27, 0x04, 0x40, 0x07, 0x2C, 0x56, 0x00, 0x00, 0x00, 0x00,
    0x00, 0x00, 0x00, 0x00, 0x00, 0x00, 0x0D, 0x0D, 0x00, 0x00, 0x00, 0x00,
    0x00, 0x00, 0x00, 0x00, 0x00, 0x00, 0x00, 0x00, 0x00, 0x00, 0x00, 0x00,
    0x00, 0x00, 0x00, 0x00, 0x00, 0x00, 0x00, 0x00, 0x00, 0x00, 0x00, 0x00,
];

/// One for a pressed button, zero for a released one.
pub open spec fn bit(pressed: bool) -> int {
    if pressed {
        1
    } else {
        0
    }
}

/// The hat position on the wire: clockwise from north, eight when at rest.
pub open spec fn spec_hat_code(hat: Hat) -> u8 {
    match hat {
        Hat::North => 0,
        Hat::NorthEast => 1,
        Hat::East => 2,
        Hat::SouthEast => 3,
        Hat::South => 4,
        Hat::SouthWest => 5,
        Hat::West => 6,
        Hat::NorthWest => 7,
        Hat::Neutral => 8,
    }
}

/// Four flags packed into a nibble, the first in the lowest bit.
#[verifier::opaque]
pub open spec fn spec_nibble(b0: bool, b1: bool, b2: bool, b3: bool) -> u8 {
    (bit(b0) + 2 * bit(b1) + 4 * bit(b2) + 8 * bit(b3)) as u8
}

/// The octet that packs the hat into its low four bits and the face buttons
/// west, south, east and north above them.
pub open spec fn face_octet(inputs: DeviceInputs) -> u8 {
    (spec_hat_code(inputs.hat_dpad) + 16 * spec_nibble(
        inputs.button_west.get(),
        inputs.button_south.get(),
        inputs.button_east.get(),
        inputs.button_north.get(),
    )) as u8
}

/// The octet that packs L1, R1, L2, R2, select, start, L3 and R3 from the
/// lowest bit up.
pub open spec fn shoulder_octet(inputs: DeviceInputs) -> u8 {
    (spec_nibble(
        inputs.button_l1.get(),
        inputs.button_r1.get(),
        inputs.button_l2.get(),
        inputs.button_r2.get(),
    ) + 16 * spec_nibble(
        inputs.button_select.get(),
        inputs.button_start.get(),
        inputs.button_l3.get(),
        inputs.button_r3.get(),
    )) as u8
}

/// The octet that packs home and trackpad into its two lowest bits and the
/// low six bits of the counter above them.
pub open spec fn system_octet(inputs: DeviceInputs) -> u8 {
    (spec_nibble(inputs.button_home.get(), inputs.button_trackpad.get(), false, false) + 4 * (
    inputs.counter % 64)) as u8
}

/// The three octets that pack hat, buttons and counter.
pub open spec fn hat_buttons(inputs: DeviceInputs) -> Seq<u8> {
    seq![face_octet(inputs), shoulder_octet(inputs), system_octet(inputs)]
}

/// The input report for a snapshot: report id 1, the two sticks, the packed
/// hat and buttons, the two triggers, and 54 zero bytes.
pub open spec fn input_report(inputs: DeviceInputs) -> Seq<u8> {
    seq![
        1u8,
        inputs.axis_left_stick_x.get(),
        inputs.axis_left_stick_y.get(),
        inputs.axis_right_stick_x.get(),
        inputs.axis_right_stick_y.get(),
    ] + hat_buttons(inputs) + seq![
        inputs.axis_left_trigger.get(),
        inputs.axis_right_trigger.get(),
    ] + zeros(54)
}

/// The layout of the input report: 64 bytes that start with the report id
/// and the four stick axes; the hat in the low nibble of the sixth byte and
/// the face buttons in its high nibble; the shoulder, select, start and stick
/// buttons in the seventh; home and trackpad in the two lowest bits of the
/// eighth and the low six bits of the counter above them; the two triggers;
/// and zeros to the end.
pub proof fn lemma_input_report_layout(inputs: DeviceInputs)
    ensures
        input_report(inputs).len() == 64,
        input_report(inputs)[0] == 1,
        input_report(inputs)[1] == inputs.axis_left_stick_x.get(),
        input_report(inputs)[2] == inputs.axis_left_stick_y.get(),
        input_report(inputs)[3] == inputs.axis_right_stick_x.get(),
        input_report(inputs)[4] == inputs.axis_right_stick_y.get(),
        input_report(inputs)[5] % 16 == spec_hat_code(inputs.hat_dpad),
        input_report(inputs)[5] / 16 == bit(inputs.button_west.get()) + 2 * bit(
            inputs.button_south.get(),
        ) + 4 * bit(inputs.button_east.get()) + 8 * bit(inputs.button_north.get()),
        input_report(inputs)[6] == bit(inputs.button_l1.get()) + 2 * bit(inputs.button_r1.get())
            + 4 * bit(inputs.button_l2.get()) + 8 * bit(inputs.button_r2.get()) + 16 * bit(
            inputs.button_select.get(),
        ) + 32 * bit(inputs.button_start.get()) + 64 * bit(inputs.button_l3.get()) + 128 * bit(
            inputs.button_r3.get(),
        ),
        input_report(inputs)[7] % 4 == bit(inputs.button_home.get()) + 2 * bit(
            inputs.button_trackpad.get(),
        ),
        input_report(inputs)[7] / 4 == inputs.counter % 64,
        input_report(inputs)[8] == inputs.axis_left_trigger.get(),
        input_report(inputs)[9] == inputs.axis_right_trigger.get(),
        forall|i: int| 10 <= i < 64 ==> input_report(inputs)[i] == 0,
{
    reveal(spec_nibble);
    let report = input_report(inputs);
    assert(report[5] == face_octet(inputs));
    assert(report[6] == shoulder_octet(inputs));
    assert(report[7] == system_octet(inputs));
}

/// The capability report as it is served under `report_id`.
pub open spec fn capabilities(report_id: u8) -> Seq<u8> {
    CAPABILITIES@.update(0, report_id)
}

/// The hat position on the wire.
#[verifier::when_used_as_spec(spec_hat_code)]
pub fn hat_code(hat: Hat) -> (code: u8)
    ensures
        code == spec_hat_code(hat),
{
    match hat {
        Hat::North => 0,
        Hat::NorthEast => 1,
        Hat::East => 2,
        Hat::SouthEast => 3,
        Hat::South => 4,
        Hat::SouthWest => 5,
        Hat::West => 6,
        Hat::NorthWest => 7,
        Hat::Neutral => 8,
    }
}

/// Packs four flags into a nibble, the first in the lowest bit.
#[verifier::when_used_as_spec(spec_nibble)]
pub fn nibble(b0: bool, b1: bool, b2: bool, b3: bool) -> (r: u8)
    ensures
        r == spec_nibble(b0, b1, b2, b3),
        r <= 15,
        !b2 && !b3 ==> r <= 3,
{
    reveal(spec_nibble);
    let mut r: u8 = 0;
    if b0 {
        r = r + 1;
    }
    if b1 {
        r = r + 2;
    }
    if b2 {
        r = r + 4;
    }
    if b3 {
        r = r + 8;
    }
    r
}

/// Packs the hat and the face buttons.
fn pack_face(inputs: &DeviceInputs) -> (r: u8)
    ensures
        r == face_octet(*inputs),
{
    let face = nibble(
        inputs.button_west.get(),
        inputs.button_south.get(),
        inputs.button_east.get(),
        inputs.button_north.get(),
    );
    hat_code(inputs.hat_dpad) + 16 * face
}

/// Packs the shoulder buttons, select, start and the stick buttons.
fn pack_shoulders(inputs: &DeviceInputs) -> (r: u8)
    ensures
        r == shoulder_octet(*inputs),
{
    let shoulders = nibble(
        inputs.button_l1.get(),
        inputs.button_r1.get(),
        inputs.button_l2.get(),
        inputs.button_r2.get(),
    );
    let sticks = nibble(
        inputs.button_select.get(),
        inputs.button_start.get(),
        inputs.button_l3.get(),
        inputs.button_r3.get(),
    );
    shoulders + 16 * sticks
}

/// Packs home, trackpad and the counter.
fn pack_system(inputs: &DeviceInputs) -> (r: u8)
    ensures
        r == system_octet(*inputs),
{
    let system = nibble(inputs.button_home.get(), inputs.button_trackpad.get(), false, false);
    system + 4 * (inputs.counter % 64)
}

/// Packs hat, buttons and counter into their three octets.
pub fn pack_hat_buttons(inputs: &DeviceInputs) -> (r: [u8; 3])
    ensures
        r@ == hat_buttons(*inputs),
{
    let r = [pack_face(inputs), pack_shoulders(inputs), pack_system(inputs)];
    assert(r@ =~= hat_buttons(*inputs));
    r
}

/// The input report, field by field.
#[derive(Clone, Copy, Debug, PartialEq, Eq)]
pub struct PS4HidReport {
    /// Always 0x1.
    report_id: u8,
    left_stick_x: u8,
    left_stick_y: u8,
    right_stick_x: u8,
    right_stick_y: u8,
    /// First 4 bits are the hat position, followed by 14 bits for buttons,
    /// followed by a 6-bit report counter.
    hat_buttons: [u8; 3],
    left_trigger: u8,
    right_trigger: u8,
    /// Trackpad and tilt, presumably.
    mystery: [u8; 54],
}

impl View for PS4HidReport {
    type V = Seq<u8>;

    /// The report on the wire.
    closed spec fn view(&self) -> Seq<u8> {
        seq![
            self.report_id,
            self.left_stick_x,
            self.left_stick_y,
            self.right_stick_x,
            self.right_stick_y,
        ] + self.hat_buttons@ + seq![self.left_trigger, self.right_trigger] + self.mystery@
    }
}

impl PS4HidReport {
    /// The report carries its id and nothing in its unused part.
    pub closed spec fn wf(&self) -> bool {
        self.report_id == 1 && self.mystery@ == zeros(54)
    }

    /// A report with every field at zero.
    pub fn new() -> (report: PS4HidReport)
        ensures
            report.wf(),
            report@ == seq![1u8] + zeros(63),
    {
        let report = PS4HidReport {
            report_id: 0x1,
            left_stick_x: 0,
            left_stick_y: 0,
            right_stick_x: 0,
            right_stick_y: 0,
            hat_buttons: [0u8; 3],
            left_trigger: 0,
            right_trigger: 0,
            mystery: [0u8; 54],
        };
        assert(report.mystery@ =~= zeros(54));
        assert(report@ =~= seq![1u8] + zeros(63));
        report
    }

    /// Fills the report from a snapshot.
    pub fn update(&mut self, inputs: &DeviceInputs)
        requires
            old(self).wf(),
        ensures
            final(self).wf(),
            final(self)@ == input_report(*inputs),
    {
        self.left_stick_x = inputs.axis_left_stick_x.get();
        self.left_stick_y = inputs.axis_left_stick_y.get();
        self.right_stick_x = inputs.axis_right_stick_x.get();
        self.right_stick_y = inputs.axis_right_stick_y.get();
        self.hat_buttons = pack_hat_buttons(inputs);
        self.left_trigger = inputs.axis_left_trigger.get();
        self.right_trigger = inputs.axis_right_trigger.get();
        assert(self@ =~= input_report(*inputs));
    }

    /// The report on the wire.
    pub fn as_bytes(&self) -> (r: [u8; 64])
        ensures
            r@ == self@,
    {
        let mut r = [0u8; 64];
        r[0] = self.report_id;
        r[1] = self.left_stick_x;
        r[2] = self.left_stick_y;
        r[3] = self.right_stick_x;
        r[4] = self.right_stick_y;
        put(&mut r, 5, self.hat_buttons.as_slice());
        r[8] = self.left_trigger;
        r[9] = self.right_trigger;
        put(&mut r, 10, self.mystery.as_slice());
        assert(r@ =~= self@);
        r
    }
}

/// The controller's report back-end: the snapshot of the inputs that the
/// input report is made from, and the authentication machine behind the
/// vendor reports.
pub struct PS4Hid {
    inputs: DeviceInputs,
    report: PS4HidReport,
    auth: Authenticator,
    buffer: [u8; 64],
}

impl PS4Hid {
    /// The snapshot of the inputs.
    pub closed spec fn inputs(&self) -> DeviceInputs {
        self.inputs
    }

    /// The authentication machine.
    pub closed spec fn auth(&self) -> Authenticator {
        self.auth
    }

    /// The input report is in order.
    pub closed spec fn report_wf(&self) -> bool {
        self.report.wf()
    }

    /// What the back-end answers to a request that does not move the
    /// authentication machine: the input report under id 0, the capability
    /// report under its two ids when exactly 48 bytes are asked for, the
    /// status report, and failure for everything else.
    pub open spec fn served(&self, report_id: u8, length: Option<u16>) -> Report {
        if report_id == REPORT_DEFAULT {
            Ok(input_report(self.inputs()))
        } else if report_id == REPORT_CAPABILITIES || report_id == REPORT_AUTH_CAPABILITIES {
            if length == Some(48u16) {
                Ok(capabilities(report_id))
            } else {
                Err(())
            }
        } else if report_id == 0xF2 {
            Ok(self.auth()@.status())
        } else {
            Err(())
        }
    }

    /// A back-end over a snapshot, with an authentication machine at rest.
    pub fn new(inputs: DeviceInputs) -> (hid: PS4Hid)
        ensures
            hid.inv(),
            hid.inputs() == inputs,
            hid.auth()@ == (Machine { state: AuthState::idle(), data: zeros(1064) }),
            hid.auth().key() is None,
    {
        PS4Hid {
            inputs,
            report: PS4HidReport::new(),
            auth: Authenticator::new(),
            buffer: [0u8; 64],
        }
    }

    /// The snapshot of the inputs.
    pub fn device_inputs(&self) -> (r: &DeviceInputs)
        ensures
            *r == self.inputs(),
    {
        &self.inputs
    }

    /// Replaces the snapshot of the inputs.
    pub fn set_inputs(&mut self, inputs: DeviceInputs)
        ensures
            final(self).inputs() == inputs,
            final(self).auth() == old(self).auth(),
            final(self).report_wf() == old(self).report_wf(),
    {
        self.inputs = inputs;
    }

    /// The authentication machine.
    pub fn authenticator(&self) -> (r: &Authenticator)
        ensures
            *r == self.auth(),
    {
        &self.auth
    }

    /// The authentication machine, for the signing worker.
    pub fn authenticator_mut(&mut self) -> (r: &mut Authenticator)
        ensures
            *r == old(self).auth(),
            final(self).auth() == *final(r),
            final(self).inputs() == old(self).inputs(),
            final(self).report_wf() == old(self).report_wf(),
    {
        &mut self.auth
    }
}

impl Hid for PS4Hid {
    open spec fn inv(&self) -> bool {
        self.auth().wf() && self.report_wf()
    }

    /// The descriptor is the one of the licensed controller, byte for byte.
    open spec fn describes(&self, descriptor: Seq<u8>) -> bool {
        descriptor == REPORT_DESCRIPTOR@
    }

    /// Snapshot and key stay as they are. A request for a chunk of the
    /// response while one is being sent hands out the next chunk and moves
    /// the machine on; every other request leaves the machine alone and is
    /// answered as `served` says.
    open spec fn gets(
        &self,
        after: &Self,
        report_type: HidReportType,
        report_id: u8,
        length: Option<u16>,
        answer: Report,
    ) -> bool {
        &&& after.inputs() == self.inputs()
        &&& after.auth().key() == self.auth().key()
        &&& if report_id == 0xF1 && self.auth()@.state.state == AuthStateType::SendingSignature {
            &&& answer == Ok::<Seq<u8>, ()>(self.auth()@.chunk())
            &&& after.auth()@ == self.auth()@.sent()
        } else {
            &&& answer == self.served(report_id, length)
            &&& after.auth()@ == self.auth()@
        }
    }

    /// Snapshot and key stay as they are. A report under the id of the
    /// challenge chunks is offered to the authentication machine, which
    /// stores it or asks for a reset; every other report is accepted and
    /// ignored.
    open spec fn sets(
        &self,
        after: &Self,
        report_type: HidReportType,
        report_id: u8,
        data: Seq<u8>,
        answer: Result<(), ()>,
    ) -> bool {
        &&& after.inputs() == self.inputs()
        &&& after.auth().key() == self.auth().key()
        &&& if report_id == 0xF0 {
            &&& answer is Ok <==> self.auth()@.accepts(data)
            &&& after.auth()@ == self.auth()@.offered(data)
        } else {
            &&& answer is Ok
            &&& after.auth()@ == self.auth()@
        }
    }

    fn report_descriptor(&self) -> (r: &[u8]) {
        let r: &'static [u8] = &REPORT_DESCRIPTOR;
        r
    }

    fn get_report(&mut self, report_type: HidReportType, report_id: u8, length: Option<u16>) -> (r:
        Result<&[u8], ()>) {
        if report_id == REPORT_DEFAULT {
            self.report.update(&self.inputs);
            self.buffer = self.report.as_bytes();
            Ok(self.buffer.as_slice())
        } else if report_id == REPORT_CAPABILITIES || report_id == REPORT_AUTH_CAPABILITIES {
            match length {
                Some(CAPABILITIES_LEN) => {
                    put(&mut self.buffer, 0, CAPABILITIES.as_slice());
                    self.buffer[0] = report_id;
                    assert(self.buffer@.subrange(0, 48) =~= capabilities(report_id));
                    Ok(&self.buffer[0..48])
                },
                _ => Err(()),
            }
        } else if report_id == crate::auth::REPORT_SIGNATURE {
            match get_signature_chunk(&mut self.auth, &mut self.buffer) {
                Ok(_) => Ok(self.buffer.as_slice()),
                Err(_) => Err(()),
            }
        } else if report_id == crate::auth::REPORT_STATUS {
            let status = get_status(&self.auth);
            put(&mut self.buffer, 0, status.as_slice());
            assert(self.buffer@.subrange(0, 16) =~= status@);
            Ok(&self.buffer[0..16])
        } else {
            Err(())
        }
    }

    fn set_report(&mut self, report_type: HidReportType, report_id: u8, data: &[u8]) -> (r: Result<
        (),
        (),
    >) {
        if report_id == crate::auth::REPORT_NONCE {
            set_nonce(&mut self.auth, data)
        } else {
            Ok(())
        }
    }
}

} // verus!
