//! Knowledge extraction and query resolution.

use tlspuffin::agent::AgentName;
use tlspuffin::agent::AgentType;
use tlspuffin::agent::TLSVersion;
use tlspuffin::claims::to_claim_data;
use tlspuffin::claims::ClaimData;
use tlspuffin::claims::ClaimType;
use tlspuffin::claims::RawClaim;
use tlspuffin::claims::TranscriptKind;
use tlspuffin::msgs::ClientExtension;
use tlspuffin::msgs::ClientHelloData;
use tlspuffin::msgs::HandshakePayloadData;
use tlspuffin::msgs::Message;
use tlspuffin::msgs::MessagePayload;
use tlspuffin::msgs::TlsMessageType;
use tlspuffin::msgs::VERSION_TLS12;
use tlspuffin::put::PutOptions;
use tlspuffin::trace::extract_knowledge;
use tlspuffin::trace::find_observation;
use tlspuffin::trace::KnowledgeEntry;
use tlspuffin::types::TYPE_CLIENT_EXTENSION;
use tlspuffin::types::TYPE_PROTOCOL_VERSION;
use tlspuffin::types::TYPE_RANDOM;
use tlspuffin::value::TypedValue;

fn sample_hello() -> Message {
    Message {
        version: VERSION_TLS12,
        payload: MessagePayload::Handshake(HandshakePayloadData::ClientHello(ClientHelloData {
            client_version: VERSION_TLS12,
            random: vec![1; 32],
            session_id: Vec::new(),
            cipher_suites: vec![0xc02f],
            compression_methods: vec![0],
            extensions: vec![
                ClientExtension { ext_type: 10, body: vec![0, 2, 0, 0x1d] },
                ClientExtension { ext_type: 13, body: vec![0, 2, 4, 1] },
            ],
        })),
    }
}

#[test]
fn client_hello_decomposes_into_typed_values() {
    let values = extract_knowledge(&sample_hello());
    // the message, six fields, and one value per extension
    assert_eq!(values.len(), 9);
    assert!(matches!(values[0], TypedValue::Message(_)));
    assert!(matches!(values[1], TypedValue::ProtocolVersion(v) if v == VERSION_TLS12));
    assert!(matches!(&values[2], TypedValue::Random(r) if r.len() == 32));
    assert!(matches!(&values[7], TypedValue::ClientExtension(e) if e.ext_type == 10));
    assert!(matches!(&values[8], TypedValue::ClientExtension(e) if e.ext_type == 13));
}

#[test]
fn query_counts_per_agent_kind_and_type() {
    let a = AgentName::first();
    let b = a.next();
    let hello_kind = Some(TlsMessageType::Handshake(1));
    let knowledge = vec![
        KnowledgeEntry { agent: a, matcher: hello_kind, value: TypedValue::ProtocolVersion(1) },
        KnowledgeEntry { agent: b, matcher: hello_kind, value: TypedValue::ProtocolVersion(2) },
        KnowledgeEntry { agent: a, matcher: hello_kind, value: TypedValue::ProtocolVersion(3) },
        KnowledgeEntry { agent: a, matcher: None, value: TypedValue::ProtocolVersion(4) },
    ];
    // the flat query sees every entry of the agent, in order
    let v0 = find_observation(&knowledge, a, None, TYPE_PROTOCOL_VERSION, 0);
    assert!(matches!(v0, Some(TypedValue::ProtocolVersion(1))));
    let v1 = find_observation(&knowledge, a, None, TYPE_PROTOCOL_VERSION, 1);
    assert!(matches!(v1, Some(TypedValue::ProtocolVersion(3))));
    let v2 = find_observation(&knowledge, a, None, TYPE_PROTOCOL_VERSION, 2);
    assert!(matches!(v2, Some(TypedValue::ProtocolVersion(4))));
    // a kind-restricted query skips entries of other kinds
    let k1 = find_observation(&knowledge, a, hello_kind, TYPE_PROTOCOL_VERSION, 1);
    assert!(matches!(k1, Some(TypedValue::ProtocolVersion(3))));
    let k2 = find_observation(&knowledge, a, hello_kind, TYPE_PROTOCOL_VERSION, 2);
    assert!(k2.is_none());
    // a type mismatch never resolves
    let t0 = find_observation(&knowledge, a, None, TYPE_RANDOM, 0);
    assert!(t0.is_none());
    // extension-typed values do not exist in this store
    let e0 = find_observation(&knowledge, a, None, TYPE_CLIENT_EXTENSION, 0);
    assert!(e0.is_none());
}

#[test]
fn finished_claim_takes_the_negotiated_master_secret() {
    let claim = RawClaim {
        typ: ClaimType::Finished,
        outbound: true,
        transcript: vec![1, 2],
        client_random: vec![3; 32],
        server_random: vec![4; 32],
        session_id: vec![5; 4],
        master_secret: vec![6; 48],
        master_secret_12: vec![7; 48],
        chosen_cipher: 0xc02f,
        available_ciphers: vec![0xc02f, 0x1301],
        signature_algorithm: 0x0401,
        peer_signature_algorithm: 0,
    };
    match to_claim_data(TLSVersion::V1_2, &claim) {
        Some(ClaimData::Message(f)) => {
            assert!(f.outbound);
            assert_eq!(f.master_secret, vec![7; 48]);
            assert_eq!(f.chosen_cipher, 0xc02f);
        },
        other => panic!("expected a finished claim, got {:?}", other),
    }
    match to_claim_data(TLSVersion::V1_3, &claim) {
        Some(ClaimData::Message(f)) => assert_eq!(f.master_secret, vec![6; 48]),
        other => panic!("expected a finished claim, got {:?}", other),
    }
}

#[test]
fn certificate_verify_claim_maps_inbound_only() {
    let mut claim = RawClaim {
        typ: ClaimType::CertificateVerify,
        outbound: false,
        transcript: vec![9, 9, 9],
        client_random: Vec::new(),
        server_random: Vec::new(),
        session_id: Vec::new(),
        master_secret: Vec::new(),
        master_secret_12: Vec::new(),
        chosen_cipher: 0,
        available_ciphers: Vec::new(),
        signature_algorithm: 0,
        peer_signature_algorithm: 0,
    };
    match to_claim_data(TLSVersion::V1_2, &claim) {
        Some(ClaimData::Transcript(TranscriptKind::ServerFinished, t)) => {
            assert_eq!(t, vec![9, 9, 9])
        },
        other => panic!("expected a transcript, got {:?}", other),
    }
    claim.outbound = true;
    assert!(to_claim_data(TLSVersion::V1_2, &claim).is_none());
    claim.typ = ClaimType::KeyExchange;
    assert!(to_claim_data(TLSVersion::V1_2, &claim).is_none());
    claim.typ = ClaimType::TranscriptClientHello;
    assert!(matches!(
        to_claim_data(TLSVersion::V1_2, &claim),
        Some(ClaimData::Transcript(TranscriptKind::ClientHello, _))
    ));
}

#[test]
fn put_options_answer_the_first_match() {
    let options = PutOptions::new(vec![("cert", "alice"), ("cipher", "all"), ("cert", "bob")]);
    assert_eq!(options.get_option("cert"), Some("alice"));
    assert_eq!(options.get_option("cipher"), Some("all"));
    assert_eq!(options.get_option("missing"), None);
}

#[test]
fn agent_names_count_up() {
    let first = AgentName::first();
    let second = first.next();
    assert_eq!(first, AgentName::first());
    assert_ne!(first, second);
    assert_eq!(AgentName::none().0, 0);
    assert_eq!(AgentName::new(&first).0, second.0);
    let _ = AgentType::Client;
    let _ = TLSVersion::V1_2;
}
