//! The host's side of the chunked exchange: cutting a challenge into the
//! five reports that carry it, and putting the response together from the
//! nineteen reports that bring it back.
//!
//! The laws at the end tie the two sides together: the machine accepts what
//! the host sends and ends up holding the challenge, and what the host puts
//! together is what the machine held.

use crate::auth::{nonce_part_len, AuthState, AuthStateType, Machine};
use crate::bytes::{put, zeros};
use crate::crc32::{crc, crc32, is_sealed, le_bytes, lemma_sealed_checks, sealed, to_le_bytes};
use vstd::prelude::*;

verus! {

/// Chunk `part` of challenge `nonce` under the tag `nonce_id`: the header,
/// the 56 bytes of the challenge from 56 times `part` on (for the fifth
/// chunk the last 32 bytes and 24 zero bytes), and the checksum.
pub open spec fn spec_nonce_chunk(nonce: Seq<u8>, nonce_id: u8, part: u8) -> Seq<u8> {
    let len = nonce_part_len(part as int);
    sealed(
        seq![0xF0u8, nonce_id, part, 0u8] + nonce.subrange(56 * part, 56 * part + len) + zeros(
            56 - len,
        ),
    )
}

/// The response that nineteen chunk reports carry: byte `i` is payload byte
/// `i % 56` of report `i / 56`.
pub open spec fn reassembled(chunks: Seq<[u8; 64]>) -> Seq<u8> {
    Seq::new(1064, |i: int| chunks[i / 56]@[4 + i % 56])
}

/// Whether the reports are the nineteen chunks of a response in order.
pub open spec fn in_order(chunks: Seq<[u8; 64]>) -> bool {
    chunks.len() == 19 && forall|i: int| 0 <= i < 19 ==> (#[trigger] chunks[i])@[2] == i
}

/// Builds the report that carries chunk `part` of a challenge.
pub fn nonce_chunk(nonce: &[u8; 256], nonce_id: u8, part: u8) -> (r: [u8; 64])
    requires
        part < 5,
    ensures
        r@ == spec_nonce_chunk(nonce@, nonce_id, part),
{
    let mut r = [0u8; 64];
    r[0] = 0xf0;
    r[1] = nonce_id;
    r[2] = part;
    let start: usize = 56 * (part as usize);
    let nonce_len: usize = if part == 4 {
        32
    } else {
        56
    };
    put(&mut r, 4, &nonce[start..start + nonce_len]);
    let ghost body = seq![0xF0u8, nonce_id, part, 0u8] + nonce@.subrange(
        56 * part,
        56 * part + nonce_len,
    ) + zeros(56 - nonce_len);
    assert(r@.subrange(0, 60) =~= body);
    let checksum = to_le_bytes(crc(&r[0..60]));
    put(&mut r, 60, checksum.as_slice());
    assert(r@ =~= body + le_bytes(crc32(body)));
    r
}

/// Builds the five reports that carry a challenge, in the order in which
/// they are sent.
pub fn send_nonce(nonce: &[u8; 256], nonce_id: u8) -> (r: Vec<[u8; 64]>)
    ensures
        r@.len() == 5,
        forall|i: int| 0 <= i < 5 ==> (#[trigger] r@[i])@ == spec_nonce_chunk(nonce@, nonce_id, i as u8),
{
    let mut r: Vec<[u8; 64]> = Vec::new();
    let mut i: u8 = 0;
    while i < 5
        invariant
            i <= 5,
            r@.len() == i,
            forall|j: int|
                0 <= j < i ==> (#[trigger] r@[j])@ == spec_nonce_chunk(nonce@, nonce_id, j as u8),
        decreases 5 - i,
    {
        r.push(nonce_chunk(nonce, nonce_id, i));
        i = i + 1;
    }
    r
}

/// Puts a response together from its chunk reports. `None` unless there are
/// nineteen of them and each carries its own position as its index.
pub fn read_signature(chunks: &[[u8; 64]]) -> (r: Option<[u8; 1064]>)
    ensures
        r is Some <==> in_order(chunks@),
        r matches Some(signature) ==> signature@ == reassembled(chunks@),
{
    if chunks.len() != 19 {
        return None;
    }
    let mut signature = [0u8; 1064];
    let mut i: usize = 0;
    while i < 19
        invariant
            i <= 19,
            chunks@.len() == 19,
            forall|k: int| 0 <= k < i ==> (#[trigger] chunks@[k])@[2] == k,
            forall|j: int| 0 <= j < 56 * i ==> signature@[j] == chunks@[j / 56]@[4 + j % 56],
        decreases 19 - i,
    {
        let chunk = &chunks[i];
        if chunk[2] as usize != i {
            return None;
        }
        let ghost before = signature@;
        put(&mut signature, i * 56, &chunk[4..60]);
        assert forall|j: int| 0 <= j < 56 * (i + 1) implies signature@[j] == chunks@[j / 56]@[4 + j
            % 56] by {
            if j >= 56 * i {
                assert(j / 56 == i);
            } else {
                assert(signature@[j] == before[j]);
            }
        }
        i = i + 1;
    }
    assert(signature@ =~= reassembled(chunks@));
    Some(signature)
}

/// The layout of a challenge chunk: it is 64 bytes long, carries its id, tag
/// and index in front of its share of the challenge, and passes the check.
pub proof fn lemma_nonce_chunk_layout(nonce: Seq<u8>, nonce_id: u8, part: u8)
    requires
        nonce.len() == 256,
        part < 5,
    ensures
        spec_nonce_chunk(nonce, nonce_id, part).len() == 64,
        spec_nonce_chunk(nonce, nonce_id, part)[0] == 0xF0,
        spec_nonce_chunk(nonce, nonce_id, part)[1] == nonce_id,
        spec_nonce_chunk(nonce, nonce_id, part)[2] == part,
        spec_nonce_chunk(nonce, nonce_id, part)[3] == 0,
        spec_nonce_chunk(nonce, nonce_id, part).subrange(4, 4 + nonce_part_len(part as int))
            == nonce.subrange(56 * part, 56 * part + nonce_part_len(part as int)),
        is_sealed(spec_nonce_chunk(nonce, nonce_id, part)),
{
    let len = nonce_part_len(part as int);
    let body = seq![0xF0u8, nonce_id, part, 0u8] + nonce.subrange(56 * part, 56 * part + len)
        + zeros(56 - len);
    lemma_sealed_checks(body);
    let chunk = spec_nonce_chunk(nonce, nonce_id, part);
    assert(chunk.subrange(4, 4 + len) =~= nonce.subrange(56 * part, 56 * part + len));
}

/// The machine after the host sent the first `parts` chunks of a challenge.
pub open spec fn receiving(machine: Machine, nonce: Seq<u8>, nonce_id: u8, parts: nat) -> Machine
    decreases parts,
{
    if parts == 0 {
        machine
    } else {
        receiving(machine, nonce, nonce_id, (parts - 1) as nat).offered(
            spec_nonce_chunk(nonce, nonce_id, (parts - 1) as u8),
        )
    }
}

/// A machine at rest takes the chunks of a challenge one after the other.
/// After `parts` of them its buffer holds the challenge as far as it has
/// come and zeros behind it, and after the fifth the whole challenge is
/// ready to be signed under the tag that the host chose.
pub proof fn lemma_challenge_received(machine: Machine, nonce: Seq<u8>, nonce_id: u8, parts: nat)
    requires
        machine.state.state == AuthStateType::Waiting,
        machine.data.len() == 1064,
        nonce.len() == 256,
        1 <= parts <= 5,
    ensures
        receiving(machine, nonce, nonce_id, parts).state == if parts == 5 {
            AuthState {
                state: AuthStateType::ReadyToSign,
                nonce_id,
                next_part: 0,
                padding: 0,
            }
        } else {
            AuthState {
                state: AuthStateType::ReceivingNonce,
                nonce_id,
                next_part: parts as u8,
                padding: 0,
            }
        },
        receiving(machine, nonce, nonce_id, parts).data == if parts == 5 {
            nonce + zeros(808)
        } else {
            nonce.subrange(0, 56 * (parts as int)) + zeros(1064 - 56 * parts)
        },
        parts == 5 ==> receiving(machine, nonce, nonce_id, parts).nonce() == nonce,
    decreases parts,
{
    let part = (parts - 1) as u8;
    let chunk = spec_nonce_chunk(nonce, nonce_id, part);
    lemma_nonce_chunk_layout(nonce, nonce_id, part);
    if parts == 1 {
        assert(receiving(machine, nonce, nonce_id, 0) == machine);
        assert(machine.accepts(chunk));
        assert(machine.stored(chunk) =~= nonce.subrange(0, 56) + zeros(1064 - 56));
    } else {
        lemma_challenge_received(machine, nonce, nonce_id, (parts - 1) as nat);
        let before = receiving(machine, nonce, nonce_id, (parts - 1) as nat);
        assert(before.accepts(chunk));
        if parts == 5 {
            assert(before.stored(chunk) =~= nonce + zeros(808));
            assert((nonce + zeros(808)).subrange(0, 256) =~= nonce);
        } else {
            assert(before.stored(chunk) =~= nonce.subrange(0, 56 * (parts as int)) + zeros(
                1064 - 56 * parts,
            ));
        }
    }
}

/// The layout of a response chunk: it is 64 bytes long, carries its id, the
/// tag and its index in front of its 56 bytes of the buffer, and passes the
/// check.
pub proof fn lemma_signature_chunk_layout(machine: Machine)
    requires
        machine.state.next_part <= 18,
        machine.data.len() == 1064,
    ensures
        machine.chunk().len() == 64,
        machine.chunk()[0] == 0xF1,
        machine.chunk()[1] == machine.state.nonce_id,
        machine.chunk()[2] == machine.state.next_part,
        machine.chunk()[3] == 0,
        machine.chunk().subrange(4, 60) == machine.data.subrange(
            56 * machine.state.next_part,
            56 * machine.state.next_part + 56,
        ),
        is_sealed(machine.chunk()),
{
    let body = seq![0xF1u8, machine.state.nonce_id, machine.state.next_part, 0u8]
        + machine.data.subrange(
        56 * (machine.state.next_part as int),
        56 * (machine.state.next_part as int) + 56,
    );
    lemma_sealed_checks(body);
    assert(machine.chunk().subrange(4, 60) =~= machine.data.subrange(
        56 * machine.state.next_part,
        56 * machine.state.next_part + 56,
    ));
}

/// The machine after `parts` chunks of the response were handed out.
pub open spec fn sending(machine: Machine, parts: nat) -> Machine
    decreases parts,
{
    if parts == 0 {
        machine
    } else {
        sending(machine, (parts - 1) as nat).sent()
    }
}

/// A machine that starts to send a response hands out the chunks in order:
/// after `parts` chunks the next one has index `parts`, the buffer is still
/// what it was, and after the nineteenth the machine is at rest.
pub proof fn lemma_chunks_in_order(machine: Machine, parts: nat)
    requires
        machine.state.state == AuthStateType::SendingSignature,
        machine.state.next_part == 0,
        machine.state.padding == 0,
        parts <= 19,
    ensures
        sending(machine, parts).data == machine.data,
        sending(machine, parts).state == if parts == 19 {
            AuthState::idle()
        } else {
            AuthState {
                state: AuthStateType::SendingSignature,
                nonce_id: machine.state.nonce_id,
                next_part: parts as u8,
                padding: 0,
            }
        },
    decreases parts,
{
    if parts > 0 {
        lemma_chunks_in_order(machine, (parts - 1) as nat);
    }
}

/// Nineteen reports of which each is the chunk that the machine hands out
/// at its position are in order, and put together they are the buffer that
/// the machine held.
pub proof fn lemma_response_reassembled(machine: Machine, chunks: Seq<[u8; 64]>)
    requires
        machine.state.state == AuthStateType::SendingSignature,
        machine.state.next_part == 0,
        machine.state.padding == 0,
        machine.data.len() == 1064,
        chunks.len() == 19,
        forall|i: int|
            0 <= i < 19 ==> (#[trigger] chunks[i])@ == sending(machine, i as nat).chunk(),
    ensures
        in_order(chunks),
        reassembled(chunks) == machine.data,
{
    let data = machine.data;
    assert forall|i: int| 0 <= i < 19 implies (#[trigger] chunks[i])@[2] == i && chunks[i]@.subrange(
        4,
        60,
    ) == data.subrange(56 * i, 56 * i + 56) by {
        lemma_chunks_in_order(machine, i as nat);
        lemma_signature_chunk_layout(sending(machine, i as nat));
    }
    assert forall|j: int| 0 <= j < 1064 implies reassembled(chunks)[j] == data[j] by {
        let i = j / 56;
        let offset = j % 56;
        assert(0 <= i < 19);
        assert(chunks[i]@.subrange(4, 60)[offset] == data.subrange(56 * i, 56 * i + 56)[offset]);
    }
    assert(reassembled(chunks) =~= data);
}

/// A whole exchange. A machine at rest is sent the five chunks of a
/// challenge; the worker takes the challenge, which is the one that the host
/// sent, and hands in a response; the machine offers it under the host's
/// tag; and the nineteen chunks that the machine hands out, put together by
/// the host, are the wire form of that response. The machine is at rest
/// again afterwards.
pub proof fn lemma_exchange(
    machine: Machine,
    nonce: Seq<u8>,
    nonce_id: u8,
    response: Seq<u8>,
    chunks: Seq<[u8; 64]>,
)
    requires
        machine.wf(),
        machine.state.state == AuthStateType::Waiting,
        nonce.len() == 256,
        response.len() == 1064,
        chunks.len() == 19,
        forall|i: int|
            0 <= i < 19 ==> (#[trigger] chunks[i])@ == sending(
                receiving(machine, nonce, nonce_id, 5).claimed().finished(Some(response)),
                i as nat,
            ).chunk(),
    ensures
        receiving(machine, nonce, nonce_id, 5).claimed().nonce() == nonce,
        receiving(machine, nonce, nonce_id, 5).claimed().finished(Some(response)).state == (
        AuthState {
            state: AuthStateType::SendingSignature,
            nonce_id,
            next_part: 0,
            padding: 0,
        }),
        in_order(chunks),
        reassembled(chunks) == response,
        sending(
            receiving(machine, nonce, nonce_id, 5).claimed().finished(Some(response)),
            19,
        ).state == AuthState::idle(),
{
    lemma_challenge_received(machine, nonce, nonce_id, 5);
    let offering = receiving(machine, nonce, nonce_id, 5).claimed().finished(Some(response));
    lemma_response_reassembled(offering, chunks);
    lemma_chunks_in_order(offering, 19);
}

} // verus!
