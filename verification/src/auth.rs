//! The challenge/response state machine.
//!
//! The host posts a 256-byte challenge in five chunks, polls until the
//! device has signed it, and reads the 1064-byte response back in nineteen
//! chunks. One packed 32-bit word holds the phase, the tag of the challenge
//! and the index of the next chunk; the phase decides who may touch the
//! buffer: the transfer handlers while waiting, receiving, ready to sign and
//! sending, the signing worker while signing and resetting.

use crate::bytes::{clear_from, put, take, zeros};
use crate::crc32::{
    check, crc, crc32, is_sealed, le_bytes, lemma_sealed_checks, sealed, to_le_bytes,
};
use crate::ds4auth::{rsa_der_accepted, DS4Key, DS4Signature};
use vstd::arithmetic::div_mod::{lemma_fundamental_div_mod, lemma_fundamental_div_mod_converse};
use vstd::prelude::*;

verus! {

/// Report id of a challenge chunk.
pub const REPORT_NONCE: u8 = 0xF0;

/// Report id of a response chunk.
pub const REPORT_SIGNATURE: u8 = 0xF1;

/// Report id of the status report.
pub const REPORT_STATUS: u8 = 0xF2;

/// Length of a chunk report, header and checksum included.
pub const CHUNK_LEN: usize = 64;

/// Payload bytes of a chunk.
pub const PAYLOAD_LEN: usize = 56;

/// Number of chunks of a challenge.
pub const NONCE_PARTS: u8 = 5;

/// Number of chunks of a response.
pub const SIGNATURE_PARTS: u8 = 19;

/// Length of the status report.
pub const STATUS_LEN: usize = 16;

/// Third byte of the status report while no response is ready.
pub const STATUS_BUSY: u8 = 0x10;

/// The phase of the exchange.
#[derive(Copy, Clone, Debug, PartialEq, Eq, Structural)]
pub enum AuthStateType {
    Waiting,
    ReceivingNonce,
    ReadyToSign,
    Signing,
    SendingSignature,
    Resetting,
}

impl AuthStateType {
    /// The octet that stands for the phase in the packed word.
    pub open spec fn code(self) -> u8 {
        match self {
            AuthStateType::Waiting => 0,
            AuthStateType::ReceivingNonce => 1,
            AuthStateType::ReadyToSign => 2,
            AuthStateType::Signing => 3,
            AuthStateType::SendingSignature => 4,
            AuthStateType::Resetting => 5,
        }
    }

    /// The phase that an octet stands for; octets above 5 stand for none and
    /// are read as `Waiting`.
    pub open spec fn of_code(code: int) -> AuthStateType {
        if code == 1 {
            AuthStateType::ReceivingNonce
        } else if code == 2 {
            AuthStateType::ReadyToSign
        } else if code == 3 {
            AuthStateType::Signing
        } else if code == 4 {
            AuthStateType::SendingSignature
        } else if code == 5 {
            AuthStateType::Resetting
        } else {
            AuthStateType::Waiting
        }
    }

    /// The octet that stands for the phase.
    pub fn to_u8(self) -> (r: u8)
        ensures
            r == self.code(),
    {
        match self {
            AuthStateType::Waiting => 0,
            AuthStateType::ReceivingNonce => 1,
            AuthStateType::ReadyToSign => 2,
            AuthStateType::Signing => 3,
            AuthStateType::SendingSignature => 4,
            AuthStateType::Resetting => 5,
        }
    }

    /// The phase that an octet stands for, if any.
    pub fn from_u8(code: u8) -> (r: Option<AuthStateType>)
        ensures
            r is Some <==> code <= 5,
            r matches Some(t) ==> t == AuthStateType::of_code(code as int),
    {
        match code {
            0 => Some(AuthStateType::Waiting),
            1 => Some(AuthStateType::ReceivingNonce),
            2 => Some(AuthStateType::ReadyToSign),
            3 => Some(AuthStateType::Signing),
            4 => Some(AuthStateType::SendingSignature),
            5 => Some(AuthStateType::Resetting),
            _ => None,
        }
    }
}

/// The state of the exchange: four octets that are read and written together.
#[derive(Copy, Clone, Debug, PartialEq, Eq, Structural)]
pub struct AuthState {
    pub state: AuthStateType,
    pub nonce_id: u8,
    pub next_part: u8,
    pub padding: u8,
}

impl AuthState {
    /// The packed word: phase in the lowest octet, then the tag, the chunk
    /// index, and the reserved octet.
    pub open spec fn word(self) -> u32 {
        (self.state.code() + 0x100 * self.nonce_id + 0x1_0000 * self.next_part + 0x100_0000
            * self.padding) as u32
    }

    /// The state that a packed word holds.
    pub open spec fn decode(word: u32) -> AuthState {
        AuthState {
            state: AuthStateType::of_code(word as int % 0x100),
            nonce_id: ((word as int / 0x100) % 0x100) as u8,
            next_part: ((word as int / 0x1_0000) % 0x100) as u8,
            padding: ((word as int / 0x100_0000) % 0x100) as u8,
        }
    }

    /// Whether a word holds a state: its lowest octet names a phase.
    pub open spec fn decodes(word: u32) -> bool {
        word % 0x100 <= 5
    }

    /// The chunk index is in the range of its phase, an idle machine carries
    /// no tag, and the reserved octet is zero.
    pub open spec fn wf(self) -> bool {
        &&& self.padding == 0
        &&& match self.state {
            AuthStateType::Waiting => self.nonce_id == 0 && self.next_part == 0,
            AuthStateType::ReceivingNonce => 1 <= self.next_part <= 4,
            AuthStateType::SendingSignature => self.next_part <= 18,
            _ => self.next_part == 0,
        }
    }

    /// The state of a machine at rest.
    pub open spec fn idle() -> AuthState {
        AuthState { state: AuthStateType::Waiting, nonce_id: 0, next_part: 0, padding: 0 }
    }

    /// The state after a reset was asked for. A worker that is signing is
    /// not disturbed: the machine only notes the request.
    pub open spec fn spec_reset(self) -> AuthState {
        match self.state {
            AuthStateType::Resetting => self,
            AuthStateType::Signing => AuthState {
                state: AuthStateType::Resetting,
                nonce_id: self.nonce_id,
                next_part: self.next_part,
                padding: self.padding,
            },
            _ => AuthState {
                state: AuthStateType::Waiting,
                nonce_id: 0,
                next_part: 0,
                padding: self.padding,
            },
        }
    }

    /// Whether chunk `part` of challenge `nonce_id` is the one that may come
    /// next.
    pub open spec fn spec_expects(self, nonce_id: u8, part: u8) -> bool {
        match self.state {
            AuthStateType::Waiting => part == 0,
            AuthStateType::ReceivingNonce => nonce_id == self.nonce_id && part == self.next_part,
            _ => false,
        }
    }

    /// The state after chunk `part` of challenge `nonce_id` was stored.
    pub open spec fn spec_received(nonce_id: u8, part: u8) -> AuthState {
        if part == 4 {
            AuthState { state: AuthStateType::ReadyToSign, nonce_id, next_part: 0, padding: 0 }
        } else {
            AuthState {
                state: AuthStateType::ReceivingNonce,
                nonce_id,
                next_part: (part + 1) as u8,
                padding: 0,
            }
        }
    }

    /// The state after the worker took the challenge.
    pub open spec fn spec_claimed(self) -> AuthState {
        AuthState {
            state: AuthStateType::Signing,
            nonce_id: self.nonce_id,
            next_part: self.next_part,
            padding: self.padding,
        }
    }

    /// The state after the worker is done. A worker that was left to sign
    /// offers its response; one that was asked to reset, or that finds the
    /// machine in any other phase, puts the machine back to rest.
    pub open spec fn spec_completed(self) -> AuthState {
        if self.state == AuthStateType::Signing {
            AuthState {
                state: AuthStateType::SendingSignature,
                nonce_id: self.nonce_id,
                next_part: 0,
                padding: self.padding,
            }
        } else {
            AuthState {
                state: AuthStateType::Waiting,
                nonce_id: 0,
                next_part: 0,
                padding: self.padding,
            }
        }
    }

    /// The state after chunk `next_part` of the response was handed out.
    pub open spec fn spec_sent(self) -> AuthState {
        if self.next_part == 18 {
            AuthState::idle()
        } else {
            AuthState {
                state: AuthStateType::SendingSignature,
                nonce_id: self.nonce_id,
                next_part: (self.next_part + 1) as u8,
                padding: 0,
            }
        }
    }

    /// One move of the machine: a reset request, an accepted chunk, the
    /// worker taking the challenge, the worker being done, or a chunk of the
    /// response handed out.
    pub open spec fn steps_to(self, next: AuthState) -> bool {
        ||| next == self.spec_reset()
        ||| exists|nonce_id: u8, part: u8|
            self.spec_expects(nonce_id, part) && next == #[trigger] AuthState::spec_received(
                nonce_id,
                part,
            )
        ||| self.state == AuthStateType::ReadyToSign && next == self.spec_claimed()
        ||| next == self.spec_completed()
        ||| self.state == AuthStateType::SendingSignature && next == self.spec_sent()
    }

    /// Unpacks a state word; `None` when its lowest octet names no phase.
    pub fn from_u32(value: u32) -> (r: Option<AuthState>)
        ensures
            r is Some <==> AuthState::decodes(value),
            r matches Some(s) ==> s == AuthState::decode(value) && s.word() == value,
    {
        let code: u8 = (value % 0x100) as u8;
        let nonce_id: u8 = ((value / 0x100) % 0x100) as u8;
        let next_part: u8 = ((value / 0x1_0000) % 0x100) as u8;
        let padding: u8 = ((value / 0x100_0000) % 0x100) as u8;
        match AuthStateType::from_u8(code) {
            Some(state) => {
                proof {
                    lemma_word_decode(value);
                }
                Some(AuthState { state, nonce_id, next_part, padding })
            },
            None => None,
        }
    }

    /// Packs the state into its word.
    pub fn to_u32(self) -> (r: u32)
        ensures
            r == self.word(),
            AuthState::decodes(r),
            AuthState::decode(r) == self,
    {
        proof {
            lemma_decode_word(self);
        }
        let code: u32 = self.state.to_u8() as u32;
        code + 0x100 * (self.nonce_id as u32) + 0x1_0000 * (self.next_part as u32) + 0x100_0000 * (
        self.padding as u32)
    }

    /// The state after a reset was asked for.
    #[verifier::when_used_as_spec(spec_reset)]
    pub fn reset(self) -> (r: AuthState)
        ensures
            r == self.spec_reset(),
    {
        match self.state {
            AuthStateType::Resetting => self,
            AuthStateType::Signing => AuthState {
                state: AuthStateType::Resetting,
                nonce_id: self.nonce_id,
                next_part: self.next_part,
                padding: self.padding,
            },
            _ => AuthState {
                state: AuthStateType::Waiting,
                nonce_id: 0,
                next_part: 0,
                padding: self.padding,
            },
        }
    }

    /// Whether chunk `part` of challenge `nonce_id` is the one that may come
    /// next.
    #[verifier::when_used_as_spec(spec_expects)]
    pub fn expects(self, nonce_id: u8, part: u8) -> (r: bool)
        ensures
            r == self.spec_expects(nonce_id, part),
    {
        match self.state {
            AuthStateType::Waiting => part == 0,
            AuthStateType::ReceivingNonce => nonce_id == self.nonce_id && part == self.next_part,
            _ => false,
        }
    }

    /// The state after chunk `part` of challenge `nonce_id` was stored.
    #[verifier::when_used_as_spec(spec_received)]
    pub fn received(nonce_id: u8, part: u8) -> (r: AuthState)
        requires
            part <= 4,
        ensures
            r == AuthState::spec_received(nonce_id, part),
    {
        if part == 4 {
            AuthState { state: AuthStateType::ReadyToSign, nonce_id, next_part: 0, padding: 0 }
        } else {
            AuthState { state: AuthStateType::ReceivingNonce, nonce_id, next_part: part + 1, padding: 0 }
        }
    }

    /// The state after the worker took the challenge; `None` unless a
    /// challenge is ready to be signed.
    pub fn claimed(self) -> (r: Option<AuthState>)
        ensures
            r is Some <==> self.state == AuthStateType::ReadyToSign,
            r matches Some(s) ==> s == self.spec_claimed(),
    {
        match self.state {
            AuthStateType::ReadyToSign => Some(
                AuthState {
                    state: AuthStateType::Signing,
                    nonce_id: self.nonce_id,
                    next_part: self.next_part,
                    padding: self.padding,
                },
            ),
            _ => None,
        }
    }

    /// The state after the worker is done.
    #[verifier::when_used_as_spec(spec_completed)]
    pub fn completed(self) -> (r: AuthState)
        ensures
            r == self.spec_completed(),
    {
        match self.state {
            AuthStateType::Signing => AuthState {
                state: AuthStateType::SendingSignature,
                nonce_id: self.nonce_id,
                next_part: 0,
                padding: self.padding,
            },
            _ => AuthState {
                state: AuthStateType::Waiting,
                nonce_id: 0,
                next_part: 0,
                padding: self.padding,
            },
        }
    }

    /// The state after chunk `next_part` of the response was handed out;
    /// `None` unless a response is being sent.
    pub fn sent(self) -> (r: Option<AuthState>)
        requires
            self.next_part < 255,
        ensures
            r is Some <==> self.state == AuthStateType::SendingSignature,
            r matches Some(s) ==> s == self.spec_sent(),
    {
        match self.state {
            AuthStateType::SendingSignature => {
                if self.next_part == 18 {
                    Some(
                        AuthState {
                            state: AuthStateType::Waiting,
                            nonce_id: 0,
                            next_part: 0,
                            padding: 0,
                        },
                    )
                } else {
                    Some(
                        AuthState {
                            state: AuthStateType::SendingSignature,
                            nonce_id: self.nonce_id,
                            next_part: self.next_part + 1,
                            padding: 0,
                        },
                    )
                }
            },
            _ => None,
        }
    }
}

/// Packing a state and unpacking the word gives the state back.
pub proof fn lemma_decode_word(s: AuthState)
    ensures
        AuthState::decodes(s.word()),
        AuthState::decode(s.word()) == s,
{
    let c = s.state.code() as int;
    let n = s.nonce_id as int;
    let p = s.next_part as int;
    let q = s.padding as int;
    let w = s.word() as int;
    assert(w == c + 0x100 * n + 0x1_0000 * p + 0x100_0000 * q);
    lemma_fundamental_div_mod_converse(w, 0x100, n + 0x100 * p + 0x1_0000 * q, c);
    lemma_fundamental_div_mod_converse(w / 0x100, 0x100, p + 0x100 * q, n);
    lemma_fundamental_div_mod_converse(w, 0x1_0000, p + 0x100 * q, c + 0x100 * n);
    lemma_fundamental_div_mod_converse(w / 0x1_0000, 0x100, q, p);
    lemma_fundamental_div_mod_converse(w, 0x100_0000, q, c + 0x100 * n + 0x1_0000 * p);
    lemma_fundamental_div_mod_converse(q, 0x100, 0, q);
}

/// Unpacking a word that holds a state and packing the state gives the word
/// back.
pub proof fn lemma_word_decode(word: u32)
    requires
        AuthState::decodes(word),
    ensures
        AuthState::decode(word).word() == word,
{
    let w = word as int;
    let s = AuthState::decode(word);
    assert(s.state.code() == w % 0x100);
    lemma_fundamental_div_mod(w, 0x100);
    lemma_fundamental_div_mod(w / 0x100, 0x100);
    lemma_fundamental_div_mod(w, 0x1_0000);
    lemma_fundamental_div_mod(w / 0x1_0000, 0x100);
    lemma_fundamental_div_mod(w, 0x100_0000);
    lemma_fundamental_div_mod_converse(w, 0x1_0000, (w / 0x100) / 0x100, w % 0x100 + 0x100 * ((w
        / 0x100) % 0x100));
    lemma_fundamental_div_mod_converse(
        w,
        0x100_0000,
        (w / 0x1_0000) / 0x100,
        w % 0x100 + 0x100 * ((w / 0x100) % 0x100) + 0x1_0000 * ((w / 0x1_0000) % 0x100),
    );
    assert(w / 0x100_0000 < 0x100);
}

/// Every move of a well-formed machine leaves it well formed, takes the
/// chunk index either one up or back to zero, and takes a non-zero index
/// back to zero only together with a change of phase.
pub proof fn lemma_step_next_part(a: AuthState, b: AuthState)
    requires
        a.wf(),
        a.steps_to(b),
    ensures
        b.wf(),
        b.next_part == 0 || b.next_part == a.next_part + 1,
        b.next_part == 0 && a.next_part != 0 ==> b.state != a.state,
{
}

/// Whether every byte of `data` from `from` on is zero.
pub open spec fn tail_zero(data: Seq<u8>, from: int) -> bool {
    forall|i: int| from <= i < data.len() ==> data[i] == 0
}

/// Number of challenge bytes that chunk `part` carries: the fifth chunk
/// carries the last 32, the others 56 each.
pub open spec fn nonce_part_len(part: int) -> int {
    if part == 4 {
        32
    } else {
        56
    }
}

/// The machine as the contracts see it: its state and what its buffer
/// holds.
pub struct Machine {
    pub state: AuthState,
    pub data: Seq<u8>,
}

impl Machine {
    /// The state is well formed and the buffer has its length; while a
    /// challenge is coming in, the buffer is zero behind what has arrived,
    /// and while the challenge waits for the worker it is zero behind the
    /// challenge.
    pub open spec fn wf(self) -> bool {
        &&& self.state.wf()
        &&& self.data.len() == 1064
        &&& match self.state.state {
            AuthStateType::ReceivingNonce => tail_zero(self.data, 56 * (self.state.next_part as int)),
            AuthStateType::ReadyToSign => tail_zero(self.data, 256),
            _ => true,
        }
    }

    /// The challenge: the first 256 bytes of the buffer.
    pub open spec fn nonce(self) -> Seq<u8> {
        self.data.subrange(0, 256)
    }

    /// Whether the machine takes the report `bytes` as the next chunk of a
    /// challenge: it is 64 bytes long, its last four bytes are the checksum
    /// of the first sixty, and tag and index are the ones expected.
    pub open spec fn accepts(self, bytes: Seq<u8>) -> bool {
        &&& bytes.len() == 64
        &&& is_sealed(bytes)
        &&& self.state.spec_expects(bytes[1], bytes[2])
    }

    /// The buffer after the chunk `bytes` was stored: what came before the
    /// chunk's place is kept, the chunk's challenge bytes stand at 56 times
    /// its index, and everything behind them is zero.
    pub open spec fn stored(self, bytes: Seq<u8>) -> Seq<u8> {
        let at = 56 * (bytes[2] as int);
        let len = nonce_part_len(bytes[2] as int);
        self.data.subrange(0, at) + bytes.subrange(4, 4 + len) + zeros(self.data.len() - at - len)
    }

    /// The machine after a reset was asked for: the buffer is not touched.
    pub open spec fn reset(self) -> Machine {
        Machine { state: self.state.spec_reset(), data: self.data }
    }

    /// The machine after the report `bytes` was offered as a chunk of a
    /// challenge: stored and moved on when accepted, reset otherwise.
    pub open spec fn offered(self, bytes: Seq<u8>) -> Machine {
        if self.accepts(bytes) {
            Machine {
                state: AuthState::spec_received(bytes[1], bytes[2]),
                data: self.stored(bytes),
            }
        } else {
            self.reset()
        }
    }

    /// The machine after the worker took the challenge.
    pub open spec fn claimed(self) -> Machine {
        Machine { state: self.state.spec_claimed(), data: self.data }
    }

    /// The machine after a worker that was still signing wrote its
    /// response and offered it.
    pub open spec fn written(self, response: Seq<u8>) -> Machine {
        Machine { state: self.state.spec_completed(), data: response }
    }

    /// The machine after a worker that has nothing to offer let go of it.
    pub open spec fn released(self) -> Machine {
        Machine { state: self.state.spec_completed(), data: self.data }
    }

    /// The machine after the worker is done, with the wire form of the
    /// response if signing succeeded. A worker that was still signing writes
    /// its response and offers it. A worker whose signing failed asks for a
    /// reset first; it then lets go of the machine, as does every worker that
    /// was asked to reset meanwhile.
    pub open spec fn finished(self, response: Option<Seq<u8>>) -> Machine {
        match response {
            Some(wire) => if self.state.state == AuthStateType::Signing {
                self.written(wire)
            } else {
                self.released()
            },
            None => self.reset().released(),
        }
    }

    /// The next chunk of the response: header, 56 bytes of the buffer,
    /// checksum.
    pub open spec fn chunk(self) -> Seq<u8> {
        sealed(
            seq![0xF1u8, self.state.nonce_id, self.state.next_part, 0u8] + self.data.subrange(
                56 * (self.state.next_part as int),
                56 * (self.state.next_part as int) + 56,
            ),
        )
    }

    /// The machine after the next chunk of the response was handed out.
    pub open spec fn sent(self) -> Machine {
        Machine { state: self.state.spec_sent(), data: self.data }
    }

    /// The status report: its id, the tag of the challenge, zero when the
    /// response can be read and `STATUS_BUSY` otherwise, nine zero bytes,
    /// and the checksum of these twelve.
    pub open spec fn status(self) -> Seq<u8> {
        sealed(
            seq![
                0xF2u8,
                self.state.nonce_id,
                if self.state.state == AuthStateType::SendingSignature {
                    0u8
                } else {
                    0x10u8
                },
            ] + zeros(9),
        )
    }

    /// One move of the machine with its buffer: a report offered as a chunk,
    /// a reset request, the worker taking the challenge, a worker that was
    /// still signing writing its response, a worker letting go, or a chunk
    /// of the response handed out.
    pub open spec fn moves_to(self, next: Machine) -> bool {
        ||| exists|bytes: Seq<u8>| next == #[trigger] self.offered(bytes)
        ||| next == self.reset()
        ||| self.state.state == AuthStateType::ReadyToSign && next == self.claimed()
        ||| self.state.state == AuthStateType::Signing && exists|response: Seq<u8>|
            response.len() == 1064 && next == #[trigger] self.written(response)
        ||| self.state.state != AuthStateType::Signing && next == self.released()
        ||| self.state.state == AuthStateType::SendingSignature && next == self.sent()
    }
}

/// Every move of a well-formed machine leaves it well formed and moves its
/// state by one step.
pub proof fn lemma_move_steps(before: Machine, after: Machine)
    requires
        before.wf(),
        before.moves_to(after),
    ensures
        after.wf(),
        before.state.steps_to(after.state),
{
    if exists|bytes: Seq<u8>| after == #[trigger] before.offered(bytes) {
        let bytes = choose|bytes: Seq<u8>| after == #[trigger] before.offered(bytes);
        if before.accepts(bytes) {
            assert(before.state.spec_expects(bytes[1], bytes[2]) && after.state
                == AuthState::spec_received(bytes[1], bytes[2]));
        }
    }
}

/// A worker that is done moves the machine once when it has a response, and
/// twice, by way of a reset, when it has none.
pub proof fn lemma_finished_moves(machine: Machine, response: Option<Seq<u8>>)
    requires
        machine.wf(),
        response matches Some(wire) ==> wire.len() == 1064,
    ensures
        response is Some ==> machine.moves_to(machine.finished(response)),
        response is None ==> machine.moves_to(machine.reset()) && machine.reset().moves_to(
            machine.finished(response),
        ),
{
    match response {
        Some(wire) => {
            if machine.state.state == AuthStateType::Signing {
                assert(machine.finished(response) == machine.written(wire));
            }
        },
        None => {},
    }
}

/// Signing ends in one of two ways: the worker offers its response, or a
/// reset is noted and the worker lets go later. No single move takes a
/// machine that is signing back to rest, and only the worker's move makes a
/// response available.
pub proof fn lemma_signing_ends(a: AuthState, b: AuthState)
    requires
        a.wf(),
        a.steps_to(b),
    ensures
        a.state == AuthStateType::Signing ==> b.state == AuthStateType::Resetting || b
            == a.spec_completed(),
        a.state == AuthStateType::Signing ==> b.state != AuthStateType::Waiting,
        a.state == AuthStateType::Resetting ==> b.state == AuthStateType::Resetting || b.state
            == AuthStateType::Waiting,
        b.state == AuthStateType::SendingSignature ==> a.state == AuthStateType::Signing
            || a.state == AuthStateType::SendingSignature,
{
}

/// The phase decides who writes the buffer. A move changes the buffer only
/// by storing a chunk of a challenge, which leaves the machine receiving or
/// ready to sign, or by writing the response of a worker that was still
/// signing, which leaves the machine sending. So a challenge that is ready
/// stays in place until it is signed or given up, and a response that is
/// being sent stays in place until it is sent or given up.
pub proof fn lemma_move_owns_buffer(before: Machine, after: Machine)
    requires
        before.wf(),
        before.moves_to(after),
    ensures
        after.data != before.data ==> {
            ||| (before.state.state == AuthStateType::Waiting || before.state.state
                == AuthStateType::ReceivingNonce) && (after.state.state
                == AuthStateType::ReceivingNonce || after.state.state
                == AuthStateType::ReadyToSign)
            ||| before.state.state == AuthStateType::Signing && after.state.state
                == AuthStateType::SendingSignature
        },
        after.state.state == AuthStateType::Signing ==> after.nonce() == before.nonce(),
        after.state.state == AuthStateType::SendingSignature ==> before.state.state
            == AuthStateType::Signing || (before.state.state == AuthStateType::SendingSignature
            && after.data == before.data),
{
}

/// While a challenge is coming in, a report that starts over with chunk
/// zero is refused and puts the machine back to rest.
pub proof fn lemma_restart_refused(machine: Machine, bytes: Seq<u8>)
    requires
        machine.wf(),
        machine.state.state == AuthStateType::ReceivingNonce,
        bytes.len() == 64,
        bytes[2] == 0,
    ensures
        !machine.accepts(bytes),
        machine.offered(bytes).state == AuthState::idle(),
        machine.offered(bytes).data == machine.data,
{
}

/// While a challenge is coming in, a report under another tag is refused
/// and puts the machine back to rest.
pub proof fn lemma_foreign_tag_refused(machine: Machine, bytes: Seq<u8>)
    requires
        machine.wf(),
        machine.state.state == AuthStateType::ReceivingNonce,
        bytes.len() == 64,
        bytes[1] != machine.state.nonce_id,
    ensures
        !machine.accepts(bytes),
        machine.offered(bytes).state == AuthState::idle(),
        machine.offered(bytes).data == machine.data,
{
}

/// The fifth chunk completes the challenge: its first 32 payload bytes
/// become bytes 224 to 255 of the challenge, what was received before stays,
/// and the challenge is ready to be signed under the chunk's tag.
pub proof fn lemma_last_chunk_stored(machine: Machine, bytes: Seq<u8>)
    requires
        machine.wf(),
        machine.accepts(bytes),
        bytes[2] == 4,
    ensures
        machine.offered(bytes).state == (AuthState {
            state: AuthStateType::ReadyToSign,
            nonce_id: bytes[1],
            next_part: 0,
            padding: 0,
        }),
        machine.offered(bytes).nonce().subrange(224, 256) == bytes.subrange(4, 36),
        machine.offered(bytes).nonce().subrange(0, 224) == machine.data.subrange(0, 224),
{
    assert(machine.offered(bytes).nonce().subrange(224, 256) =~= bytes.subrange(4, 36));
    assert(machine.offered(bytes).nonce().subrange(0, 224) =~= machine.data.subrange(0, 224));
}

/// The layout of the status report: sixteen bytes that pass the check,
/// with the report id, the tag of the challenge, and a third byte that is
/// zero exactly when the response can be read.
pub proof fn lemma_status_layout(machine: Machine)
    ensures
        machine.status().len() == 16,
        machine.status()[0] == 0xF2,
        machine.status()[1] == machine.state.nonce_id,
        machine.status()[2] == 0 <==> machine.state.state == AuthStateType::SendingSignature,
        forall|i: int| 3 <= i < 12 ==> machine.status()[i] == 0,
        is_sealed(machine.status()),
{
    let body = seq![
        0xF2u8,
        machine.state.nonce_id,
        if machine.state.state == AuthStateType::SendingSignature {
            0u8
        } else {
            0x10u8
        },
    ] + zeros(9);
    lemma_sealed_checks(body);
}

/// The machine: the packed state word, the buffer that holds first the
/// challenge and then the response, and the signing key once it is loaded.
pub struct Authenticator {
    state: u32,
    data: [u8; 1064],
    keypair: Option<DS4Key>,
}

impl View for Authenticator {
    type V = Machine;

    /// The state that the word holds, and the buffer.
    closed spec fn view(&self) -> Machine {
        Machine { state: AuthState::decode(self.state), data: self.data@ }
    }
}

impl Authenticator {
    /// The packed state word.
    pub closed spec fn word(&self) -> u32 {
        self.state
    }

    /// The signing key.
    pub closed spec fn key(&self) -> Option<DS4Key> {
        self.keypair
    }

    /// The word holds the state of a well-formed machine, and a loaded key
    /// is well formed.
    pub closed spec fn wf(&self) -> bool {
        &&& AuthState::decodes(self.state)
        &&& self@.wf()
        &&& self.keypair matches Some(key) ==> key.wf()
    }

    /// A machine at rest with a zeroed buffer and no key.
    pub fn new() -> (auth: Authenticator)
        ensures
            auth.wf(),
            auth@ == (Machine { state: AuthState::idle(), data: zeros(1064) }),
            auth.key() is None,
    {
        let auth = Authenticator { state: 0, data: [0u8; 1064], keypair: None };
        assert(auth.data@ =~= zeros(1064));
        auth
    }

    /// The current state.
    pub fn current(&self) -> (s: AuthState)
        requires
            self.wf(),
        ensures
            s == self@.state,
            s.wf(),
            s.word() == self.word(),
    {
        match AuthState::from_u32(self.state) {
            Some(s) => s,
            None => AuthState { state: AuthStateType::Waiting, nonce_id: 0, next_part: 0, padding: 0 },
        }
    }

    /// The buffer as it stands.
    pub fn contents(&self) -> (r: &[u8; 1064])
        ensures
            r@ == self@.data,
    {
        &self.data
    }

    /// The signing key, once loaded.
    pub fn keypair(&self) -> (r: &Option<DS4Key>)
        ensures
            *r == self.key(),
    {
        &self.keypair
    }

    /// Gives the machine its signing key, or takes it away. State and
    /// buffer stay as they are.
    pub fn set_keypair(&mut self, key: Option<DS4Key>)
        requires
            old(self).wf(),
            key matches Some(k) ==> k.wf(),
        ensures
            final(self).wf(),
            final(self)@ == old(self)@,
            final(self).key() == key,
    {
        self.keypair = key;
    }
}

/// Loads the signing key from the DER-encoded private key, the serial and
/// the certificate that the firmware image embeds. State and buffer stay as
/// they are; the machine has a key afterwards exactly when the private key
/// parses.
pub fn read_keypair(auth: &mut Authenticator, der: &[u8], serial: [u8; 16], signature: [u8; 256])
    requires
        old(auth).wf(),
    ensures
        final(auth).wf(),
        final(auth)@ == old(auth)@,
        final(auth).key() is Some <==> rsa_der_accepted(der@),
        final(auth).key() matches Some(key) ==> key.serial() == serial@ && key.certificate()
            == signature@,
{
    auth.set_keypair(DS4Key::embedded(der, serial, signature));
}

/// Asks for a reset. Always reports failure, so that a handler can return
/// the result as its own. A machine that is signing goes to `Resetting` and
/// the worker finishes undisturbed; a machine that is already resetting stays
/// so; any other goes back to rest. The buffer is not touched.
pub fn reset_state(auth: &mut Authenticator) -> (r: Result<(), ()>)
    requires
        old(auth).wf(),
    ensures
        r is Err,
        final(auth).wf(),
        final(auth)@ == old(auth)@.reset(),
        final(auth).key() == old(auth).key(),
{
    let current = auth.current();
    auth.state = current.reset().to_u32();
    Err(())
}

/// Takes a report that claims to be the next chunk of a challenge.
///
/// A chunk is accepted when it is 64 bytes long with a matching checksum and
/// is the chunk expected: at rest the first chunk of any challenge, while
/// receiving the next chunk of the same challenge. Its challenge bytes are
/// stored, and the fifth chunk makes the challenge ready to be signed. Any
/// other report asks for a reset and is refused.
pub fn set_nonce(auth: &mut Authenticator, bytes: &[u8]) -> (r: Result<(), ()>)
    requires
        old(auth).wf(),
    ensures
        final(auth).wf(),
        final(auth).key() == old(auth).key(),
        r is Ok <==> old(auth)@.accepts(bytes@),
        final(auth)@ == old(auth)@.offered(bytes@),
{
    if bytes.len() != CHUNK_LEN {
        return reset_state(auth);
    }
    if !check(bytes) {
        return reset_state(auth);
    }
    let received_nonce_id = bytes[1];
    let received_nonce_part = bytes[2];
    let state = auth.current();
    if !state.expects(received_nonce_id, received_nonce_part) {
        return reset_state(auth);
    }
    let last_packet = received_nonce_part == 4;
    let nonce_start: usize = 56 * (received_nonce_part as usize);
    let nonce_len: usize = if last_packet {
        32
    } else {
        56
    };
    put(&mut auth.data, nonce_start, &bytes[4..4 + nonce_len]);
    clear_from(&mut auth.data, nonce_start + nonce_len);
    assert(auth.data@ =~= old(auth)@.stored(bytes@));
    auth.state = AuthState::received(received_nonce_id, received_nonce_part).to_u32();
    Ok(())
}

/// Whether the response can be read.
pub fn signature_ready(auth: &Authenticator) -> (ready: bool)
    requires
        auth.wf(),
    ensures
        ready == (auth@.state.state == AuthStateType::SendingSignature),
{
    auth.current().state == AuthStateType::SendingSignature
}

/// The tag of the challenge in hand; zero at rest.
pub fn get_nonce_id(auth: &Authenticator) -> (id: u8)
    requires
        auth.wf(),
    ensures
        id == auth@.state.nonce_id,
{
    auth.current().nonce_id
}

/// Writes the next chunk of the response into `buf` and moves on to the one
/// after it; the nineteenth chunk puts the machine back to rest. Fails, and
/// changes nothing, unless a response is being sent.
pub fn get_signature_chunk(auth: &mut Authenticator, buf: &mut [u8]) -> (r: Result<(), ()>)
    requires
        old(auth).wf(),
        old(buf)@.len() == 64,
    ensures
        final(auth).wf(),
        final(auth).key() == old(auth).key(),
        r is Ok <==> old(auth)@.state.state == AuthStateType::SendingSignature,
        r is Ok ==> final(buf)@ == old(auth)@.chunk() && final(auth)@ == old(auth)@.sent(),
        r is Err ==> final(buf)@ == old(buf)@ && final(auth)@ == old(auth)@,
{
    let state = auth.current();
    match state.sent() {
        None => Err(()),
        Some(next_state) => {
            let nonce_id = state.nonce_id;
            let part = state.next_part;
            let offset: usize = (part as usize) * 56;
            buf[0] = REPORT_SIGNATURE;
            buf[1] = nonce_id;
            buf[2] = part;
            buf[3] = 0;
            put(buf, 4, &auth.data[offset..offset + 56]);
            let ghost body = seq![0xF1u8, state.nonce_id, state.next_part, 0u8] + old(auth)@.data.subrange(56 * (state.next_part as int), 56 * (state.next_part as int) + 56);
            assert(buf@.subrange(0, 60) =~= body);
            let crc_bytes = to_le_bytes(crc(&buf[0..60]));
            put(buf, 60, crc_bytes.as_slice());
            auth.state = next_state.to_u32();
            assert(buf@ =~= body + le_bytes(crc32(body)));
            Ok(())
        },
    }
}

/// The status report for the host's poll.
pub fn get_status(auth: &Authenticator) -> (r: [u8; 16])
    requires
        auth.wf(),
    ensures
        r@ == auth@.status(),
{
    let state = auth.current();
    let mut r = [0u8; 16];
    r[0] = REPORT_STATUS;
    r[1] = state.nonce_id;
    r[2] = if state.state == AuthStateType::SendingSignature {
        0
    } else {
        STATUS_BUSY
    };
    let ghost body = seq![
        0xF2u8,
        state.nonce_id,
        if state.state == AuthStateType::SendingSignature {
            0u8
        } else {
            0x10u8
        },
    ] + zeros(9);
    assert(r@.subrange(0, 12) =~= body);
    let crc_bytes = to_le_bytes(crc(&r[0..12]));
    put(&mut r, 12, crc_bytes.as_slice());
    assert(r@ =~= body + le_bytes(crc32(body)));
    r
}

/// The worker takes the challenge: a machine that is ready to sign goes to
/// `Signing` and hands out the 256 bytes of the challenge. Any other machine
/// stays as it is.
pub fn begin_signing(auth: &mut Authenticator) -> (r: Option<[u8; 256]>)
    requires
        old(auth).wf(),
    ensures
        final(auth).wf(),
        final(auth).key() == old(auth).key(),
        r is Some <==> old(auth)@.state.state == AuthStateType::ReadyToSign,
        r matches Some(nonce) ==> nonce@ == old(auth)@.nonce() && final(auth)@ == old(auth)@.claimed(),
        r is None ==> final(auth)@ == old(auth)@,
{
    let state = auth.current();
    match state.claimed() {
        None => None,
        Some(next_state) => {
            auth.state = next_state.to_u32();
            Some(take::<256>(auth.data.as_slice(), 0))
        },
    }
}

/// The worker is done. When it was still signing and hands in a response,
/// the response fills the buffer and is offered to the host; in every other
/// case the machine goes back to rest and the buffer stays as it is.
pub fn finish_signing(auth: &mut Authenticator, signature: Option<DS4Signature>)
    requires
        old(auth).wf(),
    ensures
        final(auth).wf(),
        final(auth).key() == old(auth).key(),
        final(auth)@ == old(auth)@.finished(
            match signature {
                Some(s) => Some(s@),
                None => None,
            },
        ),
{
    match signature {
        Some(s) => {
            if auth.current().state == AuthStateType::Signing {
                auth.data = s.as_bytes();
            }
        },
        None => {
            let _ = reset_state(auth);
        },
    }
    auth.state = auth.current().completed().to_u32();
}

/// One round of the worker: when a challenge is ready, takes it, signs it
/// with the loaded key, and hands in the result. Without a key, or when
/// signing fails, the machine goes back to rest. A response that is offered
/// carries the serial, the public key and the certificate of the key.
pub fn perform_work(auth: &mut Authenticator)
    requires
        old(auth).wf(),
    ensures
        final(auth).wf(),
        final(auth).key() == old(auth).key(),
        old(auth)@.state.state != AuthStateType::ReadyToSign ==> final(auth)@ == old(auth)@,
        old(auth)@.state.state == AuthStateType::ReadyToSign ==> {
            ||| final(auth)@ == old(auth)@.claimed().finished(None)
            ||| {
                &&& old(auth).key() is Some
                &&& old(auth).key()->0.fits()
                &&& exists|s: DS4Signature| #[trigger]
                    old(auth).key()->0.issued(s) && final(auth)@ == old(auth)@.claimed().finished(
                        Some(s@),
                    )
            }
        },
{
    match begin_signing(auth) {
        None => {},
        Some(nonce) => {
            let signature = match &auth.keypair {
                Some(key) => key.sign(nonce.as_slice()),
                None => None,
            };
            finish_signing(auth, signature);
        },
    }
}

} // verus!
