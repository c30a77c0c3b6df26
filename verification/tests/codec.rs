//! The wire codec: framing, deframing and parsing.

use tlspuffin::codec::check_wf_message;
use tlspuffin::codec::encode_opaque;
use tlspuffin::codec::message_to_opaque;
use tlspuffin::codec::parse_message;
use tlspuffin::codec::MessageDeframer;
use tlspuffin::msgs::ClientExtension;
use tlspuffin::msgs::ClientHelloData;
use tlspuffin::msgs::HandshakePayloadData;
use tlspuffin::msgs::Message;
use tlspuffin::msgs::MessagePayload;
use tlspuffin::msgs::VERSION_TLS12;

fn sample_client_hello() -> Message {
    Message {
        version: VERSION_TLS12,
        payload: MessagePayload::Handshake(HandshakePayloadData::ClientHello(ClientHelloData {
            client_version: VERSION_TLS12,
            random: vec![1; 32],
            session_id: vec![2; 4],
            cipher_suites: vec![0xc02f, 0x1301],
            compression_methods: vec![0],
            extensions: vec![
                ClientExtension { ext_type: 10, body: vec![0, 2, 0, 0x1d] },
                ClientExtension { ext_type: 13, body: vec![0, 2, 4, 1] },
            ],
        })),
    }
}

#[test]
fn client_hello_round_trips_through_the_wire() {
    let m = sample_client_hello();
    let om = message_to_opaque(&m).expect("in-bounds message encodes");
    assert_eq!(om.typ, 22);
    let parsed = parse_message(&om).expect("own encoding parses");
    assert_eq!(format!("{:?}", parsed), format!("{:?}", m));
}

#[test]
fn deframer_splits_concatenated_records() {
    let m1 = sample_client_hello();
    let m2 = Message { version: VERSION_TLS12, payload: MessagePayload::ChangeCipherSpec };
    let om1 = message_to_opaque(&m1).unwrap();
    let om2 = message_to_opaque(&m2).unwrap();
    let mut bytes = encode_opaque(&om1).unwrap();
    bytes.extend(encode_opaque(&om2).unwrap());

    let mut deframer = MessageDeframer::new();
    // feed in two arbitrary chunks to exercise buffering
    let (a, b) = bytes.split_at(7);
    deframer.read(&a.to_vec());
    assert!(deframer.pop_frame().is_none());
    deframer.read(&b.to_vec());

    let f1 = deframer.pop_frame().expect("first record");
    let f2 = deframer.pop_frame().expect("second record");
    assert!(deframer.pop_frame().is_none());
    assert_eq!(format!("{:?}", f1), format!("{:?}", om1));
    assert_eq!(format!("{:?}", f2), format!("{:?}", om2));
}

#[test]
fn deframer_encode_concatenates_frames() {
    let m = sample_client_hello();
    let om = message_to_opaque(&m).unwrap();
    let bytes = encode_opaque(&om).unwrap();
    let mut deframer = MessageDeframer::new();
    deframer.read(&bytes);
    let encoded = deframer.encode().unwrap();
    assert_eq!(encoded, bytes);
}

#[test]
fn malformed_random_is_rejected() {
    let mut m = sample_client_hello();
    if let MessagePayload::Handshake(HandshakePayloadData::ClientHello(ch)) = &mut m.payload {
        ch.random = vec![1; 31];
    }
    assert!(!check_wf_message(&m));
    assert!(matches!(
        message_to_opaque(&m),
        Err(tlspuffin::error::Error::Malformed)
    ));
}

#[test]
fn alert_and_application_data_round_trip() {
    let alert = Message { version: VERSION_TLS12, payload: MessagePayload::Alert(2, 40) };
    let om = message_to_opaque(&alert).unwrap();
    assert_eq!(om.typ, 21);
    assert_eq!(om.payload, vec![2, 40]);
    let parsed = parse_message(&om).unwrap();
    assert_eq!(format!("{:?}", parsed), format!("{:?}", alert));

    let data = Message {
        version: VERSION_TLS12,
        payload: MessagePayload::ApplicationData(vec![9, 8, 7]),
    };
    let om = message_to_opaque(&data).unwrap();
    assert_eq!(om.typ, 23);
    let parsed = parse_message(&om).unwrap();
    assert_eq!(format!("{:?}", parsed), format!("{:?}", data));
}
