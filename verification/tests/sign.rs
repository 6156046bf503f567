use derivation_path::{ChildIndex, DerivationPath};
use dkls_session::errors::{GoError, Rejection, SignError};
use dkls_session::keyshare::KeyshareHandle;
use dkls_session::message::{ByteBuffer, Message};
use dkls_session::sign::{
    dkls_sign_combine, dkls_sign_create_first_message, dkls_sign_from_bytes,
    dkls_sign_handle_messages, dkls_sign_last_message, dkls_sign_new, dkls_sign_to_bytes,
    read_path, signature_of, CombineReply, Round, RoundMarker, SignMsg1, SignMsg2, SignMsg3, SignMsg4,
    SignReply, SignRequest, SignSessionHandle, Step,
};
use k256::ecdsa::signature::hazmat::{PrehashSigner, PrehashVerifier};
use k256::ecdsa::{Signature, SigningKey, VerifyingKey};
use k256::AffinePoint;
use rand::RngCore;

/// The pre-signature and the partial signature of the tests.
type Session = SignSessionHandle<String, Vec<u8>>;

fn wire(from_id: u8, to_id: u8, payload: Vec<u8>) -> Message {
    Message { from_id, to_id, payload: ByteBuffer::from_vec(payload) }
}

fn sample_share() -> KeyshareHandle {
    KeyshareHandle::new(AffinePoint::GENERATOR, 1, vec![0, 0, 0], 2, vec![0x77])
}

fn text_and_code(err: &GoError) -> (String, i32) {
    (err.message().to_string(), err.code())
}

/// A session that has been taken to the given place: 0 is `Init`, 1 to 3
/// wait for messages, 4 is `Pre`, 5 is `WaitMsg4`.
fn session_at(place: u8) -> Session {
    let mut session: Session = dkls_sign_new(&sample_share(), "m", None, |_| true).unwrap();
    if place >= 1 {
        dkls_sign_create_first_message(&mut session, || SignMsg1 { from_id: 1, body: vec![] })
            .unwrap();
    }
    if place >= 2 {
        session.settle(SignReply::Msg2(vec![])).unwrap();
    }
    if place >= 3 {
        session.settle(SignReply::Msg3(vec![])).unwrap();
    }
    if place >= 4 {
        session.settle(SignReply::Pre(String::from("pre"))).unwrap();
    }
    if place >= 5 {
        dkls_sign_last_message(&mut session, &[0u8; 32], |_, _| {
            (vec![9u8], SignMsg4 { from_id: 1, body: vec![] })
        })
        .unwrap();
    }
    session
}

fn failed_session() -> Session {
    let mut session = session_at(2);
    session
        .settle(SignReply::Rejected(SignError { text: String::from("no"), abort_and_ban: false }))
        .unwrap_err();
    session
}

fn place_of(session: &Session) -> u8 {
    match session.round() {
        Round::Init => 0,
        Round::WaitMsg1 => 1,
        Round::WaitMsg2 => 2,
        Round::WaitMsg3 => 3,
        Round::Pre(_) => 4,
        Round::WaitMsg4(_) => 5,
        Round::Failed => 6,
        Round::Finished => 7,
    }
}

#[test]
fn new_sign_session_starts_in_init_on_a_copy_of_the_share() {
    let share = sample_share();
    let mut seen = None;
    let session: Session = dkls_sign_new(&share, "m/0/1'", Some(&[8u8; 32]), |setup| {
        seen = Some((setup.keyshare.sealed().to_vec(), setup.chain_path, setup.rng.get_seed()));
        true
    })
    .unwrap();
    assert!(matches!(session.round(), Round::Init));
    assert_eq!(session.awaited(), None);
    let expected_path =
        DerivationPath::new(vec![ChildIndex::Normal(0), ChildIndex::Hardened(1)]);
    assert_eq!(seen, Some((vec![0x77u8], expected_path, [8u8; 32])));
    assert_eq!(share.sealed(), &[0x77u8][..]);
    assert_eq!(share.parties(), 3);
}

#[test]
fn sign_session_refuses_a_malformed_path_before_the_engine() {
    for path in ["", "x/0", "m/", "m/abc", "m/0''", "m/2147483648", "M/0", "/0"] {
        let mut called = false;
        let outcome: Result<Session, GoError> = dkls_sign_new(&sample_share(), path, None, |_| {
            called = true;
            true
        });
        let err = outcome.unwrap_err();
        assert_eq!(text_and_code(&err), (String::from("invalid derivation path"), 1));
        assert!(!called);
    }
}

#[test]
fn sign_session_takes_well_formed_paths() {
    for path in ["m", "m/0", "m/44'/0'/0'/0/0", "m/2147483647'"] {
        let outcome: Result<Session, GoError> =
            dkls_sign_new(&sample_share(), path, None, |_| true);
        assert!(outcome.is_ok());
    }
}

#[test]
fn read_path_gives_the_child_indexes() {
    let path = read_path("m/44'/60'/0'/0/7").unwrap();
    assert_eq!(
        path.path(),
        &[
            ChildIndex::Hardened(44),
            ChildIndex::Hardened(60),
            ChildIndex::Hardened(0),
            ChildIndex::Normal(0),
            ChildIndex::Normal(7),
        ][..]
    );
    assert_eq!(read_path("m").unwrap().path().len(), 0);
    assert_eq!(read_path("n/0"), Err(Rejection::InvalidDerivationPath));
    assert_eq!(read_path("m/0x10"), Err(Rejection::InvalidDerivationPath));
}

#[test]
fn sign_session_reports_a_refusal_of_the_engine() {
    let outcome: Result<Session, GoError> = dkls_sign_new(&sample_share(), "m", None, |_| false);
    let err = outcome.unwrap_err();
    assert_eq!(text_and_code(&err), (String::from("sign session init failed"), 1));
}

#[test]
fn sign_first_message_moves_to_wait_msg1_and_is_broadcast() {
    let mut session = session_at(0);
    let msg = dkls_sign_create_first_message(&mut session, || SignMsg1 {
        from_id: 1,
        body: vec![0x01],
    })
    .unwrap();
    assert_eq!(msg, wire(1, 255, vec![0x01]));
    assert!(matches!(session.round(), Round::WaitMsg1));
    assert_eq!(session.awaited(), Some(Step::Msg1));
}

#[test]
fn sign_first_message_out_of_turn_is_refused_and_changes_nothing() {
    for place in 1u8..=5 {
        let mut session = session_at(place);
        let mut called = false;
        let err = dkls_sign_create_first_message(&mut session, || {
            called = true;
            SignMsg1 { from_id: 1, body: vec![] }
        })
        .unwrap_err();
        assert_eq!(text_and_code(&err), (String::from("invalid state"), 1));
        assert!(!called);
        assert_eq!(place_of(&session), place);
    }
    let mut failed = failed_session();
    let err = dkls_sign_create_first_message(&mut failed, || SignMsg1 { from_id: 1, body: vec![] })
        .unwrap_err();
    assert_eq!(text_and_code(&err), (String::from("invalid state"), 1));
    assert!(matches!(failed.round(), Round::Failed));
}

#[test]
fn sign_rounds_lead_to_the_pre_signature() {
    let mut session = session_at(1);
    let inbound = vec![wire(0, 255, vec![1]), wire(2, 255, vec![1])];
    let mut seen = Vec::new();
    let out = dkls_sign_handle_messages(&mut session, &inbound, None, |request| {
        match request {
            SignRequest::HandleMsg1 { msgs, .. } => seen = msgs,
            other => panic!("unexpected request {:?}", other),
        }
        SignReply::Msg2(vec![
            SignMsg2 { from_id: 1, to_id: 0, body: vec![2, 0] },
            SignMsg2 { from_id: 1, to_id: 2, body: vec![2, 2] },
        ])
    })
    .unwrap();
    assert_eq!(seen, inbound);
    assert_eq!(out, vec![wire(1, 0, vec![2, 0]), wire(1, 2, vec![2, 2])]);
    assert!(matches!(session.round(), Round::WaitMsg2));

    let out = dkls_sign_handle_messages(&mut session, &[], None, |request| {
        assert!(matches!(request, SignRequest::HandleMsg2 { .. }));
        SignReply::Msg3(vec![SignMsg3 { from_id: 1, to_id: 0, body: vec![3] }])
    })
    .unwrap();
    assert_eq!(out, vec![wire(1, 0, vec![3])]);
    assert!(matches!(session.round(), Round::WaitMsg3));

    let out = dkls_sign_handle_messages(&mut session, &[], None, |request| {
        assert!(matches!(request, SignRequest::HandleMsg3 { .. }));
        SignReply::Pre(String::from("pre-signature"))
    })
    .unwrap();
    assert!(out.is_empty());
    match session.round() {
        Round::Pre(pre) => assert_eq!(pre, "pre-signature"),
        other => panic!("unexpected round {:?}", other),
    }
}

#[test]
fn sign_round_failure_fails_the_session() {
    for place in 1u8..=3 {
        let mut session = session_at(place);
        let err = dkls_sign_handle_messages(&mut session, &[], None, |_| {
            SignReply::Undecodable(String::from("CBOR decode error: bad"))
        })
        .unwrap_err();
        assert_eq!(text_and_code(&err), (String::from("CBOR decode error: bad"), 1));
        assert!(matches!(session.round(), Round::Failed));

        let mut session = session_at(place);
        let err = dkls_sign_handle_messages(&mut session, &[], None, |_| {
            SignReply::Rejected(SignError {
                text: String::from("Invalid commitment"),
                abort_and_ban: false,
            })
        })
        .unwrap_err();
        assert_eq!(text_and_code(&err), (String::from("Invalid commitment"), 1));
        assert!(matches!(session.round(), Round::Failed));
    }
}

#[test]
fn sign_round_that_bans_a_party_reports_code_two() {
    let mut session = session_at(2);
    let err = dkls_sign_handle_messages(&mut session, &[], None, |_| {
        SignReply::Rejected(SignError {
            text: String::from("Abort protocol and ban party 2"),
            abort_and_ban: true,
        })
    })
    .unwrap_err();
    assert_eq!(text_and_code(&err), (String::from("Abort protocol and ban party 2"), 2));
    assert!(matches!(session.round(), Round::Failed));
}

#[test]
fn sign_reply_of_another_round_fails_the_session() {
    let mut session = session_at(1);
    let err = dkls_sign_handle_messages(&mut session, &[], None, |_| {
        SignReply::Pre(String::from("too early"))
    })
    .unwrap_err();
    assert_eq!(text_and_code(&err), (String::from("unexpected engine reply"), 1));
    assert!(matches!(session.round(), Round::Failed));
}

#[test]
fn sign_advance_out_of_turn_is_refused_and_changes_nothing() {
    for place in [0u8, 4, 5] {
        let mut session = session_at(place);
        let mut called = false;
        let err = dkls_sign_handle_messages(&mut session, &[], None, |_| {
            called = true;
            SignReply::Msg2(vec![])
        })
        .unwrap_err();
        assert_eq!(text_and_code(&err), (String::from("invalid state"), 1));
        assert!(!called);
        assert_eq!(place_of(&session), place);
    }
    let mut failed = failed_session();
    let err = dkls_sign_handle_messages(&mut failed, &[], None, |_| SignReply::Msg2(vec![]))
        .unwrap_err();
    assert_eq!(text_and_code(&err), (String::from("invalid state"), 1));
    assert!(matches!(failed.round(), Round::Failed));
    let err = failed.settle(SignReply::Msg2(vec![])).unwrap_err();
    assert_eq!(text_and_code(&err), (String::from("invalid state"), 1));
    assert!(matches!(failed.round(), Round::Failed));
}

#[test]
fn digest_turns_the_pre_signature_into_a_partial_signature() {
    let mut session = session_at(4);
    let digest: Vec<u8> = (0u8..32).collect();
    let mut seen = None;
    let msg = dkls_sign_last_message(&mut session, &digest, |pre, hash| {
        seen = Some((pre, hash));
        (vec![1u8, 2, 3], SignMsg4 { from_id: 1, body: vec![0x44] })
    })
    .unwrap();
    let mut expected = [0u8; 32];
    expected.copy_from_slice(&digest);
    assert_eq!(seen, Some((String::from("pre"), expected)));
    assert_eq!(msg, wire(1, 255, vec![0x44]));
    match session.round() {
        Round::WaitMsg4(partial) => assert_eq!(partial, &vec![1u8, 2, 3]),
        other => panic!("unexpected round {:?}", other),
    }
}

#[test]
fn digest_of_wrong_length_is_refused_without_advancing() {
    for len in [0usize, 1, 31, 33, 64] {
        let mut session = session_at(4);
        let digest = vec![0u8; len];
        let mut called = false;
        let err = dkls_sign_last_message(&mut session, &digest, |_, _| {
            called = true;
            (vec![], SignMsg4 { from_id: 1, body: vec![] })
        })
        .unwrap_err();
        assert_eq!(text_and_code(&err), (String::from("invalid message hash"), 1));
        assert!(!called);
        match session.round() {
            Round::Pre(pre) => assert_eq!(pre, "pre"),
            other => panic!("unexpected round {:?}", other),
        }
    }
}

#[test]
fn digest_of_wrong_length_is_refused_in_every_round() {
    for place in [0u8, 1, 2, 3, 5] {
        let mut session = session_at(place);
        let err = dkls_sign_last_message(&mut session, &[0u8; 31], |_, _| {
            (vec![], SignMsg4 { from_id: 1, body: vec![] })
        })
        .unwrap_err();
        assert_eq!(text_and_code(&err), (String::from("invalid message hash"), 1));
        assert_eq!(place_of(&session), place);
    }
}

#[test]
fn digest_out_of_turn_is_refused_and_changes_nothing() {
    for place in [0u8, 1, 2, 3] {
        let mut session = session_at(place);
        let mut called = false;
        let err = dkls_sign_last_message(&mut session, &[0u8; 32], |_, _| {
            called = true;
            (vec![], SignMsg4 { from_id: 1, body: vec![] })
        })
        .unwrap_err();
        assert_eq!(text_and_code(&err), (String::from("invalid state"), 1));
        assert!(!called);
        assert_eq!(place_of(&session), place);
    }
    let mut waiting = session_at(5);
    let err = dkls_sign_last_message(&mut waiting, &[0u8; 32], |_, _| {
        (vec![], SignMsg4 { from_id: 1, body: vec![] })
    })
    .unwrap_err();
    assert_eq!(text_and_code(&err), (String::from("invalid state"), 1));
    match waiting.round() {
        Round::WaitMsg4(partial) => assert_eq!(partial, &vec![9u8]),
        other => panic!("unexpected round {:?}", other),
    }
    let mut failed = failed_session();
    let err = dkls_sign_last_message(&mut failed, &[0u8; 32], |_, _| {
        (vec![], SignMsg4 { from_id: 1, body: vec![] })
    })
    .unwrap_err();
    assert_eq!(text_and_code(&err), (String::from("invalid state"), 1));
    assert!(matches!(failed.round(), Round::Failed));
}

#[test]
fn combine_hands_out_both_halves_of_the_signature() {
    let session = session_at(5);
    let inbound = vec![wire(0, 255, vec![4, 0]), wire(2, 255, vec![4, 2])];
    let mut seen = None;
    let signature = dkls_sign_combine(session, &inbound, |partial, msgs| {
        seen = Some((partial, msgs));
        CombineReply::Signature { r: vec![0x11; 32], s: vec![0x22; 32] }
    })
    .unwrap();
    assert_eq!(seen, Some((vec![9u8], inbound)));
    assert_eq!(signature.r, [0x11u8; 32]);
    assert_eq!(signature.s, [0x22u8; 32]);
}

#[test]
fn combine_with_messages_that_do_not_fit_fails() {
    let err = dkls_sign_combine(session_at(5), &[], |_, _| {
        CombineReply::Rejected(SignError {
            text: String::from("Missing message"),
            abort_and_ban: false,
        })
    })
    .unwrap_err();
    assert_eq!(text_and_code(&err), (String::from("Missing message"), 1));
    let err = dkls_sign_combine(session_at(5), &[wire(0, 255, vec![0xFF])], |_, _| {
        CombineReply::Undecodable(String::from("CBOR decode error: bad"))
    })
    .unwrap_err();
    assert_eq!(text_and_code(&err), (String::from("CBOR decode error: bad"), 1));
    let err = dkls_sign_combine(session_at(5), &[], |_, _| {
        CombineReply::Rejected(SignError {
            text: String::from("Abort protocol and ban party 0"),
            abort_and_ban: true,
        })
    })
    .unwrap_err();
    assert_eq!(text_and_code(&err), (String::from("Abort protocol and ban party 0"), 2));
}

#[test]
fn combine_out_of_turn_is_refused() {
    for place in 0u8..=4 {
        let mut called = false;
        let err = dkls_sign_combine(session_at(place), &[], |_, _| {
            called = true;
            CombineReply::Signature { r: vec![0; 32], s: vec![0; 32] }
        })
        .unwrap_err();
        assert_eq!(text_and_code(&err), (String::from("invalid state"), 1));
        assert!(!called);
    }
    let err = dkls_sign_combine(failed_session(), &[], |_, _| CombineReply::Signature {
        r: vec![0; 32],
        s: vec![0; 32],
    })
    .unwrap_err();
    assert_eq!(text_and_code(&err), (String::from("invalid state"), 1));
}

#[test]
fn signature_halves_must_have_32_bytes() {
    for (r_len, s_len) in [(31usize, 32usize), (32, 31), (33, 32), (32, 0), (0, 0)] {
        let err = signature_of(CombineReply::Signature { r: vec![1; r_len], s: vec![2; s_len] })
            .unwrap_err();
        assert_eq!(text_and_code(&err), (String::from("invalid signature size"), 1));
    }
    let signature =
        signature_of(CombineReply::Signature { r: vec![1; 32], s: vec![2; 32] }).unwrap();
    assert_eq!((signature.r, signature.s), ([1u8; 32], [2u8; 32]));
    assert_eq!(Rejection::InvalidSignatureSize.message(), "invalid signature size");
}

#[test]
fn signature_of_a_whole_run_verifies_under_the_public_key() {
    let key = SigningKey::from_slice(&[0x42u8; 32]).unwrap();
    let public_key: AffinePoint = *key.verifying_key().as_affine();
    let share = KeyshareHandle::new(public_key, 0, vec![0, 0], 2, vec![]);
    let mut session: SignSessionHandle<SigningKey, Signature> =
        dkls_sign_new(&share, "m", None, |_| true).unwrap();
    dkls_sign_create_first_message(&mut session, || SignMsg1 { from_id: 0, body: vec![] })
        .unwrap();
    dkls_sign_handle_messages(&mut session, &[], None, |_| SignReply::Msg2(vec![])).unwrap();
    dkls_sign_handle_messages(&mut session, &[], None, |_| SignReply::Msg3(vec![])).unwrap();
    dkls_sign_handle_messages(&mut session, &[], None, |_| SignReply::Pre(key.clone())).unwrap();

    let digest: [u8; 32] = [0x5Au8; 32];
    let last = dkls_sign_last_message(&mut session, &digest, |pre, hash| {
        let partial: Signature = pre.sign_prehash(&hash).unwrap();
        let body = partial.to_bytes().to_vec();
        (partial, SignMsg4 { from_id: 0, body })
    })
    .unwrap();
    assert_eq!(last.to_id, 255);
    assert_eq!(last.payload.len(), 64);

    let signature = dkls_sign_combine(session, &[], |partial, _| {
        let (r, s) = partial.split_bytes();
        CombineReply::Signature { r: r.to_vec(), s: s.to_vec() }
    })
    .unwrap();

    let rebuilt = Signature::from_scalars(signature.r, signature.s).unwrap();
    let verifier = VerifyingKey::from_affine(share.public_key()).unwrap();
    assert!(verifier.verify_prehash(&digest, &rebuilt).is_ok());
    assert!(verifier.verify_prehash(&[0x5Bu8; 32], &rebuilt).is_err());
}

#[test]
fn sign_with_the_same_seed_gives_the_same_output() {
    let run_once = |seed: [u8; 32]| -> Vec<Message> {
        let mut session = session_at(1);
        let inbound = vec![wire(0, 255, vec![1])];
        dkls_sign_handle_messages(&mut session, &inbound, Some(&seed), |request| {
            let (mut rng, msgs) = match request {
                SignRequest::HandleMsg1 { rng, msgs } => (rng, msgs),
                other => panic!("unexpected request {:?}", other),
            };
            SignReply::Msg2(
                msgs.iter()
                    .map(|m| {
                        let mut body = vec![0u8; 24];
                        rng.fill_bytes(&mut body);
                        SignMsg2 { from_id: 1, to_id: m.from_id, body }
                    })
                    .collect(),
            )
        })
        .unwrap()
    };
    assert_eq!(run_once([1u8; 32]), run_once([1u8; 32]));
    assert_ne!(run_once([1u8; 32]), run_once([2u8; 32]));
}

#[test]
fn sign_snapshot_tells_the_round_where_it_can() {
    let expected = [
        (0u8, Some(RoundMarker::Init)),
        (1, Some(RoundMarker::WaitMsg1)),
        (2, Some(RoundMarker::WaitMsg2)),
        (3, Some(RoundMarker::WaitMsg3)),
        (4, None),
        (5, None),
    ];
    for (place, marker) in expected {
        let session = session_at(place);
        let snapshot = dkls_sign_to_bytes(Some(&session)).map(|s| s.round);
        assert_eq!(snapshot, marker);
    }
    let failed = failed_session();
    assert_eq!(dkls_sign_to_bytes(Some(&failed)).map(|s| s.round), Some(RoundMarker::Failed));
    assert!(dkls_sign_to_bytes::<String, Vec<u8>>(None).is_none());
}

#[test]
fn no_sign_session_comes_back_from_bytes() {
    assert!(dkls_sign_from_bytes::<String, Vec<u8>>(&[]).is_none());
    assert!(dkls_sign_from_bytes::<String, Vec<u8>>(&[0xA1, 0x65]).is_none());
}
