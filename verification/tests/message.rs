use dkls_session::keygen::{KeygenMsg1, KeygenMsg2, KeygenMsg3, KeygenMsg4};
use dkls_session::message::{ByteBuffer, Message, MessageRouting, Payload, BROADCAST};
use dkls_session::sign::{SignMsg1, SignMsg2, SignMsg3, SignMsg4};

fn cbor_of_bytes(value: &Vec<u8>) -> Vec<u8> {
    let mut out = Vec::new();
    ciborium::into_writer(value, &mut out).expect("CBOR encode error");
    out
}

fn cbor_to_bytes(body: &[u8]) -> Result<Vec<u8>, String> {
    ciborium::from_reader::<Vec<u8>, _>(body).map_err(|e| format!("CBOR decode error: {}", e))
}

fn wire(from_id: u8, to_id: u8, payload: Vec<u8>) -> Message {
    Message { from_id, to_id, payload: ByteBuffer::from_vec(payload) }
}

#[test]
fn keygen_routing_follows_the_round() {
    let m1 = KeygenMsg1 { from_id: 3, body: vec![] };
    let m2 = KeygenMsg2 { from_id: 3, to_id: 1, body: vec![] };
    let m3 = KeygenMsg3 { from_id: 4, to_id: 0, body: vec![] };
    let m4 = KeygenMsg4 { from_id: 5, body: vec![] };
    assert_eq!((m1.src_party_id(), m1.dst_party_id()), (3, None));
    assert_eq!((m2.src_party_id(), m2.dst_party_id()), (3, Some(1)));
    assert_eq!((m3.src_party_id(), m3.dst_party_id()), (4, Some(0)));
    assert_eq!((m4.src_party_id(), m4.dst_party_id()), (5, None));
}

#[test]
fn sign_routing_follows_the_round() {
    let m1 = SignMsg1 { from_id: 0, body: vec![] };
    let m2 = SignMsg2 { from_id: 1, to_id: 2, body: vec![] };
    let m3 = SignMsg3 { from_id: 2, to_id: 1, body: vec![] };
    let m4 = SignMsg4 { from_id: 1, body: vec![] };
    assert_eq!((m1.src_party_id(), m1.dst_party_id()), (0, None));
    assert_eq!((m2.src_party_id(), m2.dst_party_id()), (1, Some(2)));
    assert_eq!((m3.src_party_id(), m3.dst_party_id()), (2, Some(1)));
    assert_eq!((m4.src_party_id(), m4.dst_party_id()), (1, None));
}

#[test]
fn payload_gives_up_the_body() {
    let m = KeygenMsg2 { from_id: 0, to_id: 1, body: vec![9, 8, 7] };
    assert_eq!(m.into_encoding(), vec![9, 8, 7]);
}

#[test]
fn broadcast_message_is_addressed_to_255() {
    let msg = Message::new(KeygenMsg1 { from_id: 2, body: vec![1, 2, 3] });
    assert_eq!(msg.from_id, 2);
    assert_eq!(msg.to_id, 255);
    assert_eq!(msg.to_id, BROADCAST);
    assert_eq!(msg.payload.as_slice(), &[1u8, 2, 3][..]);
}

#[test]
fn direct_message_is_addressed_to_its_party() {
    let msg = Message::new(SignMsg3 { from_id: 1, to_id: 0, body: vec![0xAA] });
    assert_eq!(msg.from_id, 1);
    assert_eq!(msg.to_id, 0);
    assert_eq!(msg.payload.len(), 1);
    assert_eq!(msg.payload.clone().into_vec(), vec![0xAA]);
}

#[test]
fn encode_vector_keeps_the_order() {
    let out = Message::encode_vector(vec![
        KeygenMsg2 { from_id: 0, to_id: 1, body: vec![1] },
        KeygenMsg2 { from_id: 0, to_id: 2, body: vec![2, 2] },
        KeygenMsg2 { from_id: 0, to_id: 3, body: vec![] },
    ]);
    assert_eq!(
        out,
        vec![wire(0, 1, vec![1]), wire(0, 2, vec![2, 2]), wire(0, 3, vec![])]
    );
}

#[test]
fn encode_vector_of_nothing_is_nothing() {
    let out = Message::encode_vector(Vec::<SignMsg2>::new());
    assert!(out.is_empty());
}

#[test]
fn decode_gives_back_what_was_encoded() {
    let value: Vec<u8> = vec![0, 1, 2, 253, 254, 255];
    let msg = Message::new(KeygenMsg1 { from_id: 0, body: cbor_of_bytes(&value) });
    assert_eq!(msg.decode(&cbor_to_bytes), Ok(value));
}

#[test]
fn decode_reports_a_malformed_body() {
    let msg = wire(0, 255, vec![0xFF, 0x00]);
    let outcome = msg.decode(&cbor_to_bytes);
    let complaint = outcome.unwrap_err();
    assert!(complaint.starts_with("CBOR decode error: "));
}

#[test]
fn decode_hands_the_parser_the_whole_body() {
    let msg = wire(1, 2, vec![5, 6, 7]);
    let seen = msg.decode(&|body: &[u8]| -> Result<Vec<u8>, String> { Ok(body.to_vec()) });
    assert_eq!(seen, Ok(vec![5, 6, 7]));
}

#[test]
fn decode_vector_gives_every_value_in_order() {
    let a: Vec<u8> = vec![1];
    let b: Vec<u8> = vec![];
    let c: Vec<u8> = vec![3, 3, 3];
    let batch = vec![
        wire(0, 255, cbor_of_bytes(&a)),
        wire(1, 255, cbor_of_bytes(&b)),
        wire(2, 255, cbor_of_bytes(&c)),
    ];
    assert_eq!(Message::decode_vector(&batch, &cbor_to_bytes), Ok(vec![a, b, c]));
}

#[test]
fn decode_vector_of_nothing_is_nothing() {
    let outcome = Message::decode_vector(&[], &cbor_to_bytes);
    assert_eq!(outcome, Ok(vec![]));
}

#[test]
fn decode_vector_is_all_or_nothing() {
    let good: Vec<u8> = vec![1, 2];
    let batch = vec![
        wire(0, 255, cbor_of_bytes(&good)),
        wire(1, 255, vec![0xFF]),
        wire(2, 255, cbor_of_bytes(&good)),
    ];
    let outcome = Message::decode_vector(&batch, &cbor_to_bytes);
    assert!(outcome.is_err());
}

#[test]
fn decode_vector_reports_the_first_failure() {
    let batch = vec![wire(0, 255, vec![1]), wire(1, 255, vec![2]), wire(2, 255, vec![3])];
    let refuse_above_one = |body: &[u8]| -> Result<u8, String> {
        if body[0] > 1 {
            Err(format!("refused {}", body[0]))
        } else {
            Ok(body[0])
        }
    };
    assert_eq!(
        Message::decode_vector(&batch, &refuse_above_one),
        Err(String::from("refused 2"))
    );
}

#[test]
fn copies_are_equal_to_the_batch() {
    let batch = vec![wire(0, 1, vec![1, 2]), wire(1, 255, vec![])];
    assert_eq!(Message::copies(&batch), batch);
}

#[test]
fn byte_buffer_holds_the_bytes_of_the_vector() {
    let buf = ByteBuffer::from_vec(vec![4, 5, 6]);
    assert_eq!(buf.len(), 3);
    assert_eq!(buf.as_slice(), &[4u8, 5, 6][..]);
    assert_eq!(buf.into_vec(), vec![4, 5, 6]);
}

#[test]
fn empty_byte_buffer_has_no_bytes() {
    let buf = ByteBuffer::empty();
    assert_eq!(buf.len(), 0);
    assert_eq!(buf.into_vec(), Vec::<u8>::new());
}
