use passinglink::auth::{
    begin_signing, finish_signing, get_nonce_id, get_signature_chunk, get_status, perform_work,
    reset_state, set_nonce, signature_ready, AuthState, AuthStateType, Authenticator, CHUNK_LEN,
    NONCE_PARTS, PAYLOAD_LEN, REPORT_NONCE, REPORT_SIGNATURE, REPORT_STATUS, SIGNATURE_PARTS,
    STATUS_BUSY, STATUS_LEN,
};
use passinglink::crc32::{crc, to_le_bytes};
use passinglink::ds4auth::DS4Signature;

fn chunk(nonce: &[u8; 256], nonce_id: u8, part: u8) -> Vec<u8> {
    let mut report: Vec<u8> = vec![0xF0, nonce_id, part, 0];
    let start: usize = 56 * part as usize;
    let len: usize = if part == 4 { 32 } else { 56 };
    report.extend_from_slice(&nonce[start..start + len]);
    report.resize(60, 0);
    let checksum = to_le_bytes(crc(&report));
    report.extend_from_slice(&checksum);
    report
}

fn pattern() -> [u8; 256] {
    let mut nonce = [0u8; 256];
    let mut i: usize = 0;
    while i < 256 {
        nonce[i] = ((i * 7 + 3) % 256) as u8;
        i += 1;
    }
    nonce
}

fn state(phase: AuthStateType, nonce_id: u8, next_part: u8) -> AuthState {
    AuthState { state: phase, nonce_id, next_part, padding: 0 }
}

fn ready_to_sign(nonce: &[u8; 256], nonce_id: u8) -> Authenticator {
    let mut auth = Authenticator::new();
    let mut part: u8 = 0;
    while part < 5 {
        assert_eq!(set_nonce(&mut auth, &chunk(nonce, nonce_id, part)), Ok(()));
        part += 1;
    }
    auth
}

fn sample_signature() -> DS4Signature {
    let mut bytes = [0u8; 1064];
    let mut i: usize = 0;
    while i < 1064 {
        bytes[i] = ((i * 13 + 5) % 251) as u8;
        i += 1;
    }
    DS4Signature::parse(bytes)
}

#[test]
fn protocol_constants() {
    assert_eq!(REPORT_NONCE, 0xF0);
    assert_eq!(REPORT_SIGNATURE, 0xF1);
    assert_eq!(REPORT_STATUS, 0xF2);
    assert_eq!(CHUNK_LEN, 64);
    assert_eq!(PAYLOAD_LEN, 56);
    assert_eq!(NONCE_PARTS, 5);
    assert_eq!(SIGNATURE_PARTS, 19);
    assert_eq!(STATUS_LEN, 16);
    assert_eq!(4 * 56 + 32, 256);
    assert_eq!(19 * 56, 1064);
    assert_ne!(STATUS_BUSY, 0);
}

#[test]
fn phase_codes() {
    assert_eq!(AuthStateType::Waiting.to_u8(), 0);
    assert_eq!(AuthStateType::ReceivingNonce.to_u8(), 1);
    assert_eq!(AuthStateType::ReadyToSign.to_u8(), 2);
    assert_eq!(AuthStateType::Signing.to_u8(), 3);
    assert_eq!(AuthStateType::SendingSignature.to_u8(), 4);
    assert_eq!(AuthStateType::Resetting.to_u8(), 5);
    assert_eq!(AuthStateType::from_u8(3), Some(AuthStateType::Signing));
    assert_eq!(AuthStateType::from_u8(6), None);
    assert_eq!(AuthStateType::from_u8(255), None);
}

#[test]
fn state_packs_into_four_octets() {
    assert_eq!(state(AuthStateType::Waiting, 0, 0).to_u32(), 0);
    assert_eq!(state(AuthStateType::ReceivingNonce, 0x37, 1).to_u32(), 0x0001_3701);
    assert_eq!(state(AuthStateType::SendingSignature, 0x37, 18).to_u32(), 0x0012_3704);
    assert_eq!(state(AuthStateType::Resetting, 0xAB, 0).to_u32(), 0x0000_AB05);
    let reserved = AuthState {
        state: AuthStateType::Signing,
        nonce_id: 0xFF,
        next_part: 0xFF,
        padding: 0xFF,
    };
    assert_eq!(reserved.to_u32(), 0xFFFF_FF03);
}

#[test]
fn state_unpacks_from_its_word() {
    assert_eq!(AuthState::from_u32(0), Some(state(AuthStateType::Waiting, 0, 0)));
    assert_eq!(
        AuthState::from_u32(0x0001_3701),
        Some(state(AuthStateType::ReceivingNonce, 0x37, 1))
    );
    assert_eq!(AuthState::from_u32(0x0000_0006), None);
    assert_eq!(AuthState::from_u32(0xFFFF_FFFF), None);
}

#[test]
fn packing_round_trips_for_every_phase_and_many_octets() {
    let phases = [
        AuthStateType::Waiting,
        AuthStateType::ReceivingNonce,
        AuthStateType::ReadyToSign,
        AuthStateType::Signing,
        AuthStateType::SendingSignature,
        AuthStateType::Resetting,
    ];
    for phase in phases {
        let mut octet: u16 = 0;
        while octet < 256 {
            let s = AuthState {
                state: phase,
                nonce_id: octet as u8,
                next_part: (255 - octet) as u8,
                padding: (octet as u8).wrapping_mul(3),
            };
            assert_eq!(AuthState::from_u32(s.to_u32()), Some(s));
            octet += 1;
        }
    }
}

#[test]
fn reset_transitions() {
    assert_eq!(
        state(AuthStateType::Signing, 9, 0).reset(),
        state(AuthStateType::Resetting, 9, 0)
    );
    assert_eq!(
        state(AuthStateType::Resetting, 9, 0).reset(),
        state(AuthStateType::Resetting, 9, 0)
    );
    assert_eq!(
        state(AuthStateType::ReceivingNonce, 9, 3).reset(),
        state(AuthStateType::Waiting, 0, 0)
    );
    assert_eq!(
        state(AuthStateType::SendingSignature, 9, 7).reset(),
        state(AuthStateType::Waiting, 0, 0)
    );
    assert_eq!(
        state(AuthStateType::ReadyToSign, 9, 0).reset(),
        state(AuthStateType::Waiting, 0, 0)
    );
    assert_eq!(state(AuthStateType::Waiting, 0, 0).reset(), state(AuthStateType::Waiting, 0, 0));
}

#[test]
fn expected_chunks() {
    let waiting = state(AuthStateType::Waiting, 0, 0);
    assert!(waiting.expects(0x37, 0));
    assert!(!waiting.expects(0x37, 1));
    let receiving = state(AuthStateType::ReceivingNonce, 0x37, 2);
    assert!(receiving.expects(0x37, 2));
    assert!(!receiving.expects(0x37, 0));
    assert!(!receiving.expects(0x37, 3));
    assert!(!receiving.expects(0x38, 2));
    assert!(!state(AuthStateType::ReadyToSign, 0x37, 0).expects(0x37, 0));
    assert!(!state(AuthStateType::Signing, 0x37, 0).expects(0x37, 0));
    assert!(!state(AuthStateType::SendingSignature, 0x37, 0).expects(0x37, 0));
    assert!(!state(AuthStateType::Resetting, 0x37, 0).expects(0x37, 0));
}

#[test]
fn received_transitions() {
    assert_eq!(AuthState::received(0x37, 0), state(AuthStateType::ReceivingNonce, 0x37, 1));
    assert_eq!(AuthState::received(0x37, 3), state(AuthStateType::ReceivingNonce, 0x37, 4));
    assert_eq!(AuthState::received(0x37, 4), state(AuthStateType::ReadyToSign, 0x37, 0));
}

#[test]
fn worker_transitions() {
    assert_eq!(
        state(AuthStateType::ReadyToSign, 5, 0).claimed(),
        Some(state(AuthStateType::Signing, 5, 0))
    );
    assert_eq!(state(AuthStateType::Waiting, 0, 0).claimed(), None);
    assert_eq!(state(AuthStateType::Signing, 5, 0).claimed(), None);
    assert_eq!(
        state(AuthStateType::Signing, 5, 0).completed(),
        state(AuthStateType::SendingSignature, 5, 0)
    );
    assert_eq!(
        state(AuthStateType::Resetting, 5, 0).completed(),
        state(AuthStateType::Waiting, 0, 0)
    );
    assert_eq!(
        state(AuthStateType::Signing, 5, 0).reset().completed(),
        state(AuthStateType::Waiting, 0, 0)
    );
    assert_eq!(
        state(AuthStateType::ReceivingNonce, 5, 2).completed(),
        state(AuthStateType::Waiting, 0, 0)
    );
    assert_eq!(state(AuthStateType::Waiting, 0, 0).completed(), state(AuthStateType::Waiting, 0, 0));
}

#[test]
fn sent_transitions() {
    assert_eq!(
        state(AuthStateType::SendingSignature, 5, 0).sent(),
        Some(state(AuthStateType::SendingSignature, 5, 1))
    );
    assert_eq!(
        state(AuthStateType::SendingSignature, 5, 17).sent(),
        Some(state(AuthStateType::SendingSignature, 5, 18))
    );
    assert_eq!(
        state(AuthStateType::SendingSignature, 5, 18).sent(),
        Some(state(AuthStateType::Waiting, 0, 0))
    );
    assert_eq!(state(AuthStateType::Waiting, 0, 0).sent(), None);
    assert_eq!(state(AuthStateType::Signing, 5, 0).sent(), None);
}

#[test]
fn next_part_goes_one_up_or_back_to_zero() {
    let nonce = pattern();
    let mut auth = Authenticator::new();
    let mut before = auth.current();
    let mut part: u8 = 0;
    while part < 5 {
        set_nonce(&mut auth, &chunk(&nonce, 0x21, part)).unwrap();
        let after = auth.current();
        assert!(after.next_part == 0 || after.next_part == before.next_part + 1);
        if after.next_part == 0 && before.next_part != 0 {
            assert_ne!(after.state, before.state);
        }
        before = after;
        part += 1;
    }
    assert!(begin_signing(&mut auth).is_some());
    assert_eq!(auth.current().next_part, 0);
    finish_signing(&mut auth, Some(sample_signature()));
    before = auth.current();
    let mut buf = [0u8; 64];
    let mut sent: u8 = 0;
    while sent < 19 {
        get_signature_chunk(&mut auth, &mut buf).unwrap();
        let after = auth.current();
        assert!(after.next_part == 0 || after.next_part == before.next_part + 1);
        if after.next_part == 0 && before.next_part != 0 {
            assert_ne!(after.state, before.state);
        }
        before = after;
        sent += 1;
    }
    assert_eq!(auth.current(), state(AuthStateType::Waiting, 0, 0));
}

#[test]
fn a_new_machine_is_at_rest() {
    let auth = Authenticator::new();
    assert_eq!(auth.current(), state(AuthStateType::Waiting, 0, 0));
    assert_eq!(auth.contents(), &[0u8; 1064]);
    assert!(auth.keypair().is_none());
    assert!(!signature_ready(&auth));
    assert_eq!(get_nonce_id(&auth), 0);
}

#[test]
fn first_chunk_is_accepted_at_rest() {
    let nonce = pattern();
    let mut auth = Authenticator::new();
    assert_eq!(set_nonce(&mut auth, &chunk(&nonce, 0x37, 0)), Ok(()));
    assert_eq!(auth.current(), state(AuthStateType::ReceivingNonce, 0x37, 1));
    assert_eq!(get_nonce_id(&auth), 0x37);
    assert_eq!(&auth.contents()[..56], &nonce[..56]);
    assert!(auth.contents()[56..].iter().all(|b| *b == 0));
}

#[test]
fn five_chunks_make_the_challenge_ready() {
    let nonce = pattern();
    let mut auth = Authenticator::new();
    let mut part: u8 = 0;
    while part < 4 {
        assert_eq!(set_nonce(&mut auth, &chunk(&nonce, 0x37, part)), Ok(()));
        assert_eq!(auth.current(), state(AuthStateType::ReceivingNonce, 0x37, part + 1));
        part += 1;
    }
    assert_eq!(set_nonce(&mut auth, &chunk(&nonce, 0x37, 4)), Ok(()));
    assert_eq!(auth.current(), state(AuthStateType::ReadyToSign, 0x37, 0));
    assert_eq!(&auth.contents()[..256], &nonce[..]);
    assert!(auth.contents()[256..].iter().all(|b| *b == 0));
}

#[test]
fn fifth_chunk_stores_its_32_bytes_at_offset_224() {
    let nonce = pattern();
    let mut auth = Authenticator::new();
    let mut part: u8 = 0;
    while part < 4 {
        set_nonce(&mut auth, &chunk(&nonce, 1, part)).unwrap();
        part += 1;
    }
    let mut last: Vec<u8> = vec![0xF0, 1, 4, 0];
    let mut i: u8 = 0;
    while i < 32 {
        last.push(0xA0 + i);
        i += 1;
    }
    last.extend_from_slice(&[0xEE; 24]);
    let checksum = to_le_bytes(crc(&last));
    last.extend_from_slice(&checksum);
    assert_eq!(set_nonce(&mut auth, &last), Ok(()));
    let expected: Vec<u8> = (0..32u8).map(|i| 0xA0 + i).collect();
    assert_eq!(&auth.contents()[224..256], &expected[..]);
    assert_eq!(&auth.contents()[..224], &nonce[..224]);
    assert!(auth.contents()[256..].iter().all(|b| *b == 0));
    assert_eq!(auth.current().state, AuthStateType::ReadyToSign);
}

#[test]
fn wrong_length_is_refused_and_resets() {
    let nonce = pattern();
    let mut auth = Authenticator::new();
    set_nonce(&mut auth, &chunk(&nonce, 0x37, 0)).unwrap();
    let mut short = chunk(&nonce, 0x37, 1);
    short.pop();
    assert_eq!(set_nonce(&mut auth, &short), Err(()));
    assert_eq!(auth.current(), state(AuthStateType::Waiting, 0, 0));
    let mut long = chunk(&nonce, 0x37, 0);
    long.push(0);
    assert_eq!(set_nonce(&mut auth, &long), Err(()));
    assert_eq!(set_nonce(&mut auth, &[]), Err(()));
    assert_eq!(auth.current(), state(AuthStateType::Waiting, 0, 0));
}

#[test]
fn first_chunk_with_nonzero_index_is_refused() {
    let nonce = pattern();
    let mut auth = Authenticator::new();
    assert_eq!(set_nonce(&mut auth, &chunk(&nonce, 0x37, 1)), Err(()));
    assert_eq!(auth.current(), state(AuthStateType::Waiting, 0, 0));
    assert_eq!(auth.contents(), &[0u8; 1064]);
}

#[test]
fn chunk_zero_while_receiving_is_a_protocol_error() {
    let nonce = pattern();
    let mut auth = Authenticator::new();
    set_nonce(&mut auth, &chunk(&nonce, 0x37, 0)).unwrap();
    set_nonce(&mut auth, &chunk(&nonce, 0x37, 1)).unwrap();
    let before = *auth.contents();
    assert_eq!(set_nonce(&mut auth, &chunk(&nonce, 0x37, 0)), Err(()));
    assert_eq!(auth.current(), state(AuthStateType::Waiting, 0, 0));
    assert_eq!(auth.contents(), &before);
}

#[test]
fn alternating_nonce_ids_are_a_protocol_error() {
    let nonce = pattern();
    let mut auth = Authenticator::new();
    assert_eq!(set_nonce(&mut auth, &chunk(&nonce, 0x10, 0)), Ok(()));
    assert_eq!(set_nonce(&mut auth, &chunk(&nonce, 0x11, 1)), Err(()));
    assert_eq!(auth.current(), state(AuthStateType::Waiting, 0, 0));
    assert_eq!(set_nonce(&mut auth, &chunk(&nonce, 0x10, 1)), Err(()));
}

#[test]
fn skipped_chunk_is_refused() {
    let nonce = pattern();
    let mut auth = Authenticator::new();
    set_nonce(&mut auth, &chunk(&nonce, 0x37, 0)).unwrap();
    assert_eq!(set_nonce(&mut auth, &chunk(&nonce, 0x37, 2)), Err(()));
    assert_eq!(auth.current(), state(AuthStateType::Waiting, 0, 0));
}

#[test]
fn crc_error_at_chunk_two_resets_and_a_fresh_sequence_proceeds() {
    let nonce = [0u8; 256];
    let mut auth = Authenticator::new();
    assert_eq!(set_nonce(&mut auth, &chunk(&nonce, 0x37, 0)), Ok(()));
    assert_eq!(set_nonce(&mut auth, &chunk(&nonce, 0x37, 1)), Ok(()));
    let mut damaged = chunk(&nonce, 0x37, 2);
    for byte in damaged[60..].iter_mut() {
        *byte = !*byte;
    }
    assert_eq!(set_nonce(&mut auth, &damaged), Err(()));
    assert_eq!(auth.current(), state(AuthStateType::Waiting, 0, 0));
    assert_eq!(auth.current().next_part, 0);
    assert_eq!(set_nonce(&mut auth, &chunk(&nonce, 0x37, 3)), Err(()));
    assert_eq!(auth.current(), state(AuthStateType::Waiting, 0, 0));
    let mut part: u8 = 0;
    while part < 5 {
        assert_eq!(set_nonce(&mut auth, &chunk(&nonce, 0x37, part)), Ok(()));
        part += 1;
    }
    assert_eq!(auth.current(), state(AuthStateType::ReadyToSign, 0x37, 0));
}

#[test]
fn zero_nonce_chunks_carry_the_known_checksums() {
    let nonce = [0u8; 256];
    assert_eq!(&chunk(&nonce, 0x37, 0)[60..], &[0x18, 0xE7, 0xED, 0x3F]);
    assert_eq!(&chunk(&nonce, 0x37, 2)[60..], &[0x3E, 0xF8, 0x63, 0xAA]);
    assert_eq!(&chunk(&nonce, 0x37, 4)[60..], &[0x15, 0xDF, 0x80, 0xCF]);
}

#[test]
fn a_new_challenge_clears_what_an_old_response_left() {
    let nonce = pattern();
    let mut auth = ready_to_sign(&nonce, 1);
    begin_signing(&mut auth).unwrap();
    finish_signing(&mut auth, Some(sample_signature()));
    assert_eq!(auth.contents(), &sample_signature().as_bytes());
    reset_state(&mut auth).unwrap_err();
    assert_eq!(auth.current(), state(AuthStateType::Waiting, 0, 0));
    assert_eq!(set_nonce(&mut auth, &chunk(&nonce, 2, 0)), Ok(()));
    assert_eq!(&auth.contents()[..56], &nonce[..56]);
    assert!(auth.contents()[56..].iter().all(|b| *b == 0));
}

#[test]
fn chunk_is_refused_while_ready_to_sign() {
    let nonce = pattern();
    let mut auth = ready_to_sign(&nonce, 0x37);
    assert_eq!(set_nonce(&mut auth, &chunk(&nonce, 0x37, 0)), Err(()));
    assert_eq!(auth.current(), state(AuthStateType::Waiting, 0, 0));
}

#[test]
fn reset_always_reports_failure() {
    let mut auth = Authenticator::new();
    assert_eq!(reset_state(&mut auth), Err(()));
    assert_eq!(auth.current(), state(AuthStateType::Waiting, 0, 0));
}

#[test]
fn reset_while_signing_waits_for_the_worker() {
    let nonce = pattern();
    let mut auth = ready_to_sign(&nonce, 0x37);
    assert_eq!(begin_signing(&mut auth), Some(nonce));
    assert_eq!(auth.current(), state(AuthStateType::Signing, 0x37, 0));
    assert_eq!(reset_state(&mut auth), Err(()));
    assert_eq!(auth.current(), state(AuthStateType::Resetting, 0x37, 0));
    assert_eq!(reset_state(&mut auth), Err(()));
    assert_eq!(auth.current(), state(AuthStateType::Resetting, 0x37, 0));
    assert_eq!(&auth.contents()[..256], &nonce[..]);
    finish_signing(&mut auth, Some(sample_signature()));
    assert_eq!(auth.current(), state(AuthStateType::Waiting, 0, 0));
    assert_eq!(&auth.contents()[..256], &nonce[..]);
}

#[test]
fn begin_signing_needs_a_ready_challenge() {
    let nonce = pattern();
    let mut auth = Authenticator::new();
    assert_eq!(begin_signing(&mut auth), None);
    assert_eq!(auth.current(), state(AuthStateType::Waiting, 0, 0));
    set_nonce(&mut auth, &chunk(&nonce, 3, 0)).unwrap();
    assert_eq!(begin_signing(&mut auth), None);
    assert_eq!(auth.current(), state(AuthStateType::ReceivingNonce, 3, 1));
}

#[test]
fn finished_signature_fills_the_buffer_and_is_offered() {
    let nonce = pattern();
    let mut auth = ready_to_sign(&nonce, 0x42);
    begin_signing(&mut auth).unwrap();
    let signature = sample_signature();
    finish_signing(&mut auth, Some(signature));
    assert_eq!(auth.current(), state(AuthStateType::SendingSignature, 0x42, 0));
    assert!(signature_ready(&auth));
    assert_eq!(auth.contents(), &signature.as_bytes());
}

#[test]
fn failed_signing_puts_the_machine_back_to_rest() {
    let nonce = pattern();
    let mut auth = ready_to_sign(&nonce, 0x42);
    begin_signing(&mut auth).unwrap();
    finish_signing(&mut auth, None);
    assert_eq!(auth.current(), state(AuthStateType::Waiting, 0, 0));
    assert!(!signature_ready(&auth));
}

#[test]
fn worker_without_a_key_gives_up() {
    let nonce = pattern();
    let mut auth = ready_to_sign(&nonce, 0x42);
    perform_work(&mut auth);
    assert_eq!(auth.current(), state(AuthStateType::Waiting, 0, 0));
    assert_eq!(&auth.contents()[..256], &nonce[..]);
}

#[test]
fn worker_leaves_other_phases_alone() {
    let nonce = pattern();
    let mut auth = Authenticator::new();
    perform_work(&mut auth);
    assert_eq!(auth.current(), state(AuthStateType::Waiting, 0, 0));
    set_nonce(&mut auth, &chunk(&nonce, 8, 0)).unwrap();
    perform_work(&mut auth);
    assert_eq!(auth.current(), state(AuthStateType::ReceivingNonce, 8, 1));
}

#[test]
fn signature_chunk_is_refused_unless_sending() {
    let nonce = pattern();
    let mut buf = [0x55u8; 64];
    let mut auth = Authenticator::new();
    assert_eq!(get_signature_chunk(&mut auth, &mut buf), Err(()));
    assert_eq!(buf, [0x55u8; 64]);
    assert_eq!(auth.current(), state(AuthStateType::Waiting, 0, 0));
    set_nonce(&mut auth, &chunk(&nonce, 8, 0)).unwrap();
    assert_eq!(get_signature_chunk(&mut auth, &mut buf), Err(()));
    assert_eq!(auth.current(), state(AuthStateType::ReceivingNonce, 8, 1));
    let mut auth = ready_to_sign(&nonce, 8);
    assert_eq!(get_signature_chunk(&mut auth, &mut buf), Err(()));
    assert_eq!(auth.current(), state(AuthStateType::ReadyToSign, 8, 0));
    begin_signing(&mut auth).unwrap();
    assert_eq!(get_signature_chunk(&mut auth, &mut buf), Err(()));
    assert_eq!(auth.current(), state(AuthStateType::Signing, 8, 0));
    reset_state(&mut auth).unwrap_err();
    assert_eq!(get_signature_chunk(&mut auth, &mut buf), Err(()));
    assert_eq!(auth.current(), state(AuthStateType::Resetting, 8, 0));
    assert_eq!(buf, [0x55u8; 64]);
}

#[test]
fn nineteen_chunks_come_in_order_and_carry_the_buffer() {
    let nonce = pattern();
    let mut auth = ready_to_sign(&nonce, 0x37);
    begin_signing(&mut auth).unwrap();
    let signature = sample_signature();
    finish_signing(&mut auth, Some(signature));
    let held = *auth.contents();
    let mut blob: Vec<u8> = Vec::new();
    let mut part: u8 = 0;
    while part < 19 {
        let mut buf = [0u8; 64];
        assert_eq!(get_signature_chunk(&mut auth, &mut buf), Ok(()));
        assert_eq!(buf[0], 0xF1);
        assert_eq!(buf[1], 0x37);
        assert_eq!(buf[2], part);
        assert_eq!(buf[3], 0);
        assert_eq!(&buf[60..], &to_le_bytes(crc(&buf[..60])));
        blob.extend_from_slice(&buf[4..60]);
        if part < 18 {
            assert_eq!(auth.current(), state(AuthStateType::SendingSignature, 0x37, part + 1));
        }
        part += 1;
    }
    assert_eq!(blob.len(), 1064);
    assert_eq!(&blob[..], &held[..]);
    assert_eq!(&blob[..], &signature.as_bytes()[..]);
    assert_eq!(auth.current(), state(AuthStateType::Waiting, 0, 0));
    let mut buf = [0u8; 64];
    assert_eq!(get_signature_chunk(&mut auth, &mut buf), Err(()));
}

#[test]
fn first_signature_chunk_of_a_zero_buffer() {
    let nonce = [0u8; 256];
    let mut auth = ready_to_sign(&nonce, 0x37);
    begin_signing(&mut auth).unwrap();
    finish_signing(&mut auth, Some(DS4Signature::parse([0u8; 1064])));
    let mut buf = [0xAAu8; 64];
    get_signature_chunk(&mut auth, &mut buf).unwrap();
    let mut expected = [0u8; 64];
    expected[0] = 0xF1;
    expected[1] = 0x37;
    expected[60] = 0x97;
    expected[61] = 0x69;
    expected[62] = 0x3E;
    expected[63] = 0xF5;
    assert_eq!(buf, expected);
}

#[test]
fn status_report_at_rest() {
    let auth = Authenticator::new();
    assert_eq!(
        get_status(&auth),
        [0xF2, 0x00, 0x10, 0, 0, 0, 0, 0, 0, 0, 0, 0, 0x0C, 0x37, 0xCD, 0xF4]
    );
}

#[test]
fn status_report_is_busy_until_the_signature_is_ready() {
    let nonce = [0u8; 256];
    let mut auth = ready_to_sign(&nonce, 0x37);
    let busy = [0xF2, 0x37, 0x10, 0, 0, 0, 0, 0, 0, 0, 0, 0, 0x93, 0x69, 0x9C, 0xF5];
    assert_eq!(get_status(&auth), busy);
    assert_ne!(get_status(&auth)[2], 0);
    begin_signing(&mut auth).unwrap();
    assert_eq!(get_status(&auth), busy);
    finish_signing(&mut auth, Some(sample_signature()));
    let ready = [0xF2, 0x37, 0x00, 0, 0, 0, 0, 0, 0, 0, 0, 0, 0x7B, 0xE8, 0x32, 0xD2];
    assert_eq!(get_status(&auth), ready);
    assert_eq!(get_status(&auth)[2], 0);
}

#[test]
fn status_report_carries_its_checksum() {
    let nonce = pattern();
    let auth = ready_to_sign(&nonce, 0x99);
    let status = get_status(&auth);
    assert_eq!(status.len(), 16);
    assert_eq!(&status[12..], &to_le_bytes(crc(&status[..12])));
    assert_eq!(crc(&status), 0x2144_DF1C);
}
