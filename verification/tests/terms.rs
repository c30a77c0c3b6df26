//! Term construction and evaluation against a knowledge store.

use tlspuffin::agent::AgentName;
use tlspuffin::fn_impl::op_arbitrary_to_key;
use tlspuffin::fn_impl::op_hmac256;
use tlspuffin::fn_impl::op_hmac256_new_key;
use tlspuffin::seeds::app0;
use tlspuffin::seeds::app1;
use tlspuffin::seeds::app2;
use tlspuffin::seeds::var;
use tlspuffin::trace::evaluate;
use tlspuffin::trace::KnowledgeEntry;
use tlspuffin::types::TYPE_BYTES;
use tlspuffin::value::TypedValue;

fn knowledge_with_bytes(agent: AgentName, data: Vec<u8>) -> Vec<KnowledgeEntry> {
    vec![KnowledgeEntry { agent, matcher: None, value: TypedValue::Bytes(data) }]
}

#[test]
fn example() {
    let data = "hello".as_bytes().to_vec();
    println!("dd {:?}", data);

    let variable = var(TYPE_BYTES, AgentName::first(), 0);
    let generated_term = app2(op_hmac256(), app0(op_hmac256_new_key()), variable);

    let knowledge = knowledge_with_bytes(AgentName::first(), data);
    let result = evaluate(&generated_term, &knowledge);
    println!("{:?}", result);
    match result {
        Ok(TypedValue::Bytes(tag)) => assert_eq!(tag.len(), 32),
        other => panic!("expected a digest, got {:?}", other),
    }
}

#[test]
fn evaluation_is_deterministic() {
    let data = "hello".as_bytes().to_vec();
    let term = app2(
        op_hmac256(),
        app1(
            op_arbitrary_to_key(),
            var(TYPE_BYTES, AgentName::first(), 0),
        ),
        var(TYPE_BYTES, AgentName::first(), 0),
    );
    let knowledge = knowledge_with_bytes(AgentName::first(), data.clone());
    let r1 = evaluate(&term, &knowledge);
    let r2 = evaluate(&term, &knowledge);
    assert_eq!(format!("{:?}", r1), format!("{:?}", r2));
    match r1 {
        Ok(TypedValue::Bytes(tag)) => assert_eq!(tag.len(), 32),
        other => panic!("expected a digest, got {:?}", other),
    }
}

#[test]
fn hmac_actually_digests() {
    // A digest must not hand its input back: same key, different data,
    // different tags.
    let key = app0(op_hmac256_new_key());
    let t1 = app2(op_hmac256(), key, var(TYPE_BYTES, AgentName::first(), 0));
    let k1 = knowledge_with_bytes(AgentName::first(), b"one".to_vec());
    let k2 = knowledge_with_bytes(AgentName::first(), b"two".to_vec());
    let r1 = match evaluate(&t1, &k1) {
        Ok(TypedValue::Bytes(tag)) => tag,
        other => panic!("expected a digest, got {:?}", other),
    };
    let r2 = match evaluate(&t1, &k2) {
        Ok(TypedValue::Bytes(tag)) => tag,
        other => panic!("expected a digest, got {:?}", other),
    };
    assert_ne!(r1, r2);
    assert_ne!(r1, b"one".to_vec());
}

#[test]
fn missing_observation_is_extraction_error() {
    let term = var(TYPE_BYTES, AgentName::first(), 3);
    let knowledge = knowledge_with_bytes(AgentName::first(), b"only one".to_vec());
    let result = evaluate(&term, &knowledge);
    assert!(matches!(result, Err(tlspuffin::trace::EvalError::Extraction)));
}
