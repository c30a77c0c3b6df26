//! Serialization: round trips and rejection of unknown names.

use tlspuffin::agent::AgentName;
use tlspuffin::dynamic_function::DynamicFunction;
use tlspuffin::fn_impl::canonical_type_shape;
use tlspuffin::fn_impl::tls_signature;
use tlspuffin::seeds::app0;
use tlspuffin::seeds::app1;
use tlspuffin::seeds::seed_client_attacker12;
use tlspuffin::seeds::seed_successful12;
use tlspuffin::serialize::deserialize_term;
use tlspuffin::serialize::round_trip_term;
use tlspuffin::serialize::round_trip_trace;
use tlspuffin::serialize::serialize_term;
use tlspuffin::serialize::serialize_trace;
use tlspuffin::signature::Signature;
use tlspuffin::trace::Action;
use tlspuffin::types::DynamicFunctionShape;
use tlspuffin::types::TYPE_BYTES;
use tlspuffin::types::TYPE_MESSAGE;

#[test]
fn term_round_trip_over_the_catalog() {
    let signature = tls_signature();
    let trace = seed_client_attacker12(AgentName::first());
    for step in &trace.steps {
        if let Action::Input(recipe) = &step.action {
            let back = round_trip_term(&signature, recipe)
                .expect("a catalog term deserializes to itself");
            assert_eq!(
                format!("{:?}", serialize_term(recipe)),
                format!("{:?}", serialize_term(&back)),
            );
        }
    }
}

#[test]
fn trace_serialization_is_stable() {
    let client = AgentName::first();
    let server = client.next();
    let t1 = seed_successful12(client, server);
    let t2 = seed_successful12(client, server);
    assert_eq!(
        format!("{:?}", serialize_trace(&t1)),
        format!("{:?}", serialize_trace(&t2)),
    );
}

#[test]
fn unknown_symbol_is_malformed() {
    let signature = tls_signature();
    let shape = DynamicFunctionShape {
        name: "fn_not_in_any_catalog".to_string(),
        argument_types: Vec::new(),
        return_type: canonical_type_shape(TYPE_MESSAGE),
    };
    let stranger = Signature::new_function(shape, DynamicFunction::ConcatMessages2);
    let term = app0(stranger);
    let tokens = serialize_term(&term);
    let result = deserialize_term(&signature, &tokens);
    assert!(matches!(result, Err(tlspuffin::error::Error::Malformed)));
}

#[test]
fn leftover_tokens_are_malformed() {
    let signature = tls_signature();
    let term = app0(tlspuffin::fn_impl::fn_new_random());
    let mut tokens = serialize_term(&term);
    let extra = serialize_term(&app0(tlspuffin::fn_impl::fn_new_session_id()));
    tokens.extend(extra);
    let result = deserialize_term(&signature, &tokens);
    assert!(matches!(result, Err(tlspuffin::error::Error::Malformed)));
}

#[test]
fn variable_round_trip_keeps_query() {
    let signature = tls_signature();
    let term = app1(
        tlspuffin::fn_impl::op_arbitrary_to_key(),
        tlspuffin::seeds::var(TYPE_BYTES, AgentName::first(), 7),
    );
    let back = round_trip_term(&signature, &term).expect("variable term round-trips");
    assert_eq!(
        format!("{:?}", serialize_term(&term)),
        format!("{:?}", serialize_term(&back)),
    );
    let debug = format!("{:?}", serialize_term(&back));
    assert!(debug.contains("counter: 7"));
}

#[test]
fn trace_round_trip_over_the_catalog() {
    let signature = tls_signature();
    let client = AgentName::first();
    let server = client.next();
    for trace in [
        seed_successful12(client, server),
        seed_client_attacker12(server),
    ] {
        let back = round_trip_trace(&signature, &trace)
            .expect("a catalog trace deserializes to itself");
        assert_eq!(
            format!("{:?}", serialize_trace(&trace)),
            format!("{:?}", serialize_trace(&back)),
        );
        assert_eq!(back.steps.len(), trace.steps.len());
        assert_eq!(back.descriptors.len(), trace.descriptors.len());
    }
}
