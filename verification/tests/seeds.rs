//! Seed traces executed against scripted in-memory adapters.

use tlspuffin::agent::Agent;
use tlspuffin::agent::AgentDescriptor;
use tlspuffin::agent::AgentName;
use tlspuffin::agent::AgentType;
use tlspuffin::codec::message_to_opaque;
use tlspuffin::error::Error;
use tlspuffin::fn_impl::fn_attack_cve_2021_3449;
use tlspuffin::fn_impl::fn_client_extensions_append;
use tlspuffin::fn_impl::fn_client_extensions_new;
use tlspuffin::fn_impl::fn_signature_algorithm_extension;
use tlspuffin::fn_impl::fn_server_name_extension;
use tlspuffin::msgs::ClientHelloData;
use tlspuffin::msgs::HandshakePayloadData;
use tlspuffin::msgs::Message;
use tlspuffin::msgs::MessagePayload;
use tlspuffin::msgs::MessageResult;
use tlspuffin::msgs::OpaqueMessage;
use tlspuffin::msgs::EXT_SIGNATURE_ALGORITHMS;
use tlspuffin::msgs::VERSION_TLS12;
use tlspuffin::put::Put;
use tlspuffin::put::PutConfig;
use tlspuffin::put::Stream;
use tlspuffin::seeds::app0;
use tlspuffin::seeds::app1;
use tlspuffin::seeds::app2;
use tlspuffin::seeds::seed_client_attacker12;
use tlspuffin::seeds::seed_cve_2021_3449;
use tlspuffin::seeds::seed_successful;
use tlspuffin::seeds::seed_successful12;
use tlspuffin::trace::check_trace_well_typed;
use tlspuffin::trace::evaluate;
use tlspuffin::trace::TraceContext;
use tlspuffin::value::TypedValue;

#[derive(Clone, Copy, PartialEq, Eq, Debug)]
enum Role {
    Client,
    Server,
}

/// A scripted in-memory stand-in for a TLS library: it replays a fixed
/// TLS 1.2 exchange shape and reports success once the handshake
/// completed.
struct ScriptedTls {
    role: Role,
    received: usize,
    sent_hello: bool,
    sent_finished: bool,
    success: bool,
    outbound: Vec<MessageResult>,
}

impl ScriptedTls {
    fn new(role: Role) -> Self {
        ScriptedTls {
            role,
            received: 0,
            sent_hello: false,
            sent_finished: false,
            success: false,
            outbound: Vec::new(),
        }
    }

    fn queue(&mut self, m: Message) {
        let om = message_to_opaque(&m).expect("scripted message encodes");
        self.outbound.push(MessageResult { message: Some(m), opaque_message: om });
    }
}

fn client_hello_message() -> Message {
    Message {
        version: VERSION_TLS12,
        payload: MessagePayload::Handshake(HandshakePayloadData::ClientHello(ClientHelloData {
            client_version: VERSION_TLS12,
            random: vec![1; 32],
            session_id: Vec::new(),
            cipher_suites: vec![0xc02f],
            compression_methods: vec![0],
            extensions: Vec::new(),
        })),
    }
}

fn server_hello_message() -> Message {
    Message {
        version: VERSION_TLS12,
        payload: MessagePayload::Handshake(HandshakePayloadData::ServerHello(
            tlspuffin::msgs::ServerHelloData {
                legacy_version: VERSION_TLS12,
                random: vec![7; 32],
                session_id: vec![9; 8],
                cipher_suite: 0xc02f,
                compression_method: 0,
                extensions: Vec::new(),
            },
        )),
    }
}

fn server_key_exchange_message() -> Message {
    // named-curve ECDH parameters: curve type 3, x25519, a 32-byte key
    let mut params = vec![3u8, 0, 0x1d, 32];
    params.extend(std::iter::repeat(5u8).take(32));
    Message {
        version: VERSION_TLS12,
        payload: MessagePayload::Handshake(HandshakePayloadData::ServerKeyExchange(params)),
    }
}

impl Stream for ScriptedTls {
    fn add_to_inbound(&mut self, _message: &OpaqueMessage) {
        self.received += 1;
    }

    fn take_message_from_outbound(&mut self) -> Result<Option<MessageResult>, Error> {
        if self.outbound.is_empty() {
            Ok(None)
        } else {
            Ok(Some(self.outbound.remove(0)))
        }
    }
}

impl Put for ScriptedTls {
    fn new(_agent: &AgentDescriptor, config: PutConfig) -> Result<Self, Error> {
        Ok(ScriptedTls::new(match config.typ {
            AgentType::Client => Role::Client,
            AgentType::Server => Role::Server,
        }))
    }

    fn progress(&mut self, _agent_name: &AgentName) -> Result<(), Error> {
        match self.role {
            Role::Client => {
                if !self.sent_hello {
                    self.queue(client_hello_message());
                    self.sent_hello = true;
                }
                if self.received >= 4 && !self.sent_finished {
                    // after ServerHello, Certificate, ServerKeyExchange and
                    // ServerHelloDone: key exchange and finished
                    self.queue(Message {
                        version: VERSION_TLS12,
                        payload: MessagePayload::Handshake(
                            HandshakePayloadData::ClientKeyExchange(vec![2; 32]),
                        ),
                    });
                    self.queue(Message {
                        version: VERSION_TLS12,
                        payload: MessagePayload::Handshake(HandshakePayloadData::Finished(
                            vec![6; 12],
                        )),
                    });
                    self.sent_finished = true;
                }
                if self.received >= 6 {
                    self.success = true;
                }
            },
            Role::Server => {
                if self.received >= 1 && !self.sent_hello {
                    self.queue(server_hello_message());
                    self.queue(Message {
                        version: VERSION_TLS12,
                        payload: MessagePayload::Handshake(HandshakePayloadData::Certificate(
                            vec![vec![0xde, 0xad]],
                        )),
                    });
                    self.queue(server_key_exchange_message());
                    self.queue(Message {
                        version: VERSION_TLS12,
                        payload: MessagePayload::Handshake(
                            HandshakePayloadData::ServerHelloDone,
                        ),
                    });
                    self.sent_hello = true;
                }
                if self.received >= 4 && !self.sent_finished {
                    self.queue(Message {
                        version: VERSION_TLS12,
                        payload: MessagePayload::ChangeCipherSpec,
                    });
                    self.queue(Message {
                        version: VERSION_TLS12,
                        payload: MessagePayload::Handshake(HandshakePayloadData::Finished(
                            vec![8; 12],
                        )),
                    });
                    self.sent_finished = true;
                    self.success = true;
                }
            },
        }
        Ok(())
    }

    fn reset(&mut self, _agent_name: AgentName) -> Result<(), Error> {
        self.received = 0;
        self.sent_hello = false;
        self.sent_finished = false;
        self.success = false;
        self.outbound.clear();
        Ok(())
    }

    fn rename_agent(&mut self, _agent_name: AgentName) -> Result<(), Error> {
        Ok(())
    }

    fn describe_state(&self) -> String {
        if self.success {
            "SSL negotiation finished successfully".to_string()
        } else {
            "in handshake".to_string()
        }
    }

    fn is_state_successful(&self) -> bool {
        self.success
    }

    fn shutdown(&mut self) -> String {
        "closed".to_string()
    }
}

#[test]
fn seed_successful12_completes_against_scripted_adapters() {
    let client = AgentName::first();
    let server = client.next();
    let trace = seed_successful12(client, server);
    assert!(check_trace_well_typed(&trace));
    assert_eq!(trace.steps.len(), 14);

    let mut ctx: TraceContext<ScriptedTls> = TraceContext::new();
    ctx.add_agent(Agent::with_name(client, ScriptedTls::new(Role::Client)));
    ctx.add_agent(Agent::with_name(server, ScriptedTls::new(Role::Server)));
    let result = trace.execute(&mut ctx);
    assert!(result.is_ok(), "execution failed: {:?}", result.err());
    assert!(ctx.agents[0].stream.is_state_successful());
    assert!(ctx.agents[1].stream.is_state_successful());
}

#[test]
fn seed_client_attacker12_completes_against_scripted_server() {
    let server = AgentName::first();
    let trace = seed_client_attacker12(server);
    assert!(check_trace_well_typed(&trace));
    assert_eq!(trace.steps.len(), 5);

    let mut ctx: TraceContext<ScriptedTls> = TraceContext::new();
    ctx.add_agent(Agent::with_name(server, ScriptedTls::new(Role::Server)));
    let result = trace.execute(&mut ctx);
    assert!(result.is_ok(), "execution failed: {:?}", result.err());
    assert!(ctx.agents[0].stream.is_state_successful());
}

#[test]
fn seed_cve_2021_3449_terminates_against_fixed_adapter() {
    let server = AgentName::first();
    let trace = seed_cve_2021_3449(server);
    assert!(check_trace_well_typed(&trace));
    assert_eq!(trace.steps.len(), 6);

    let mut ctx: TraceContext<ScriptedTls> = TraceContext::new();
    ctx.add_agent(Agent::with_name(server, ScriptedTls::new(Role::Server)));
    let result = trace.execute(&mut ctx);
    assert!(result.is_ok(), "execution failed: {:?}", result.err());
}

#[test]
fn attack_recipe_strips_signature_algorithms() {
    // The attack symbol must remove exactly the signature_algorithms
    // extension and keep the others in order.
    let extensions = app2(
        fn_client_extensions_append(),
        app2(
            fn_client_extensions_append(),
            app0(fn_client_extensions_new()),
            app0(fn_server_name_extension()),
        ),
        app0(fn_signature_algorithm_extension()),
    );
    let stripped = app1(fn_attack_cve_2021_3449(), extensions);
    let knowledge = Vec::new();
    match evaluate(&stripped, &knowledge) {
        Ok(TypedValue::ClientExtensions(exts)) => {
            assert_eq!(exts.len(), 1);
            assert!(exts.iter().all(|e| e.ext_type != EXT_SIGNATURE_ALGORITHMS));
            assert_eq!(exts[0].ext_type, tlspuffin::msgs::EXT_SERVER_NAME);
        },
        other => panic!("expected extensions, got {:?}", other),
    }
}

#[test]
fn seed_successful_is_well_typed() {
    let client = AgentName::first();
    let server = client.next();
    let trace = seed_successful(client, server);
    assert!(check_trace_well_typed(&trace));
    assert_eq!(trace.steps.len(), 14);
    assert_eq!(trace.descriptors.len(), 2);
}

#[test]
fn knowledge_store_is_identical_across_runs() {
    // A fixed trace executed against freshly constructed, identically
    // scripted agents leaves a bit-identical knowledge store.
    let server = AgentName::first();
    let trace = seed_client_attacker12(server);

    let mut stores = Vec::new();
    for _ in 0..2 {
        let mut ctx: TraceContext<ScriptedTls> = TraceContext::new();
        ctx.add_agent(Agent::with_name(server, ScriptedTls::new(Role::Server)));
        trace.execute(&mut ctx).expect("execution succeeds");
        stores.push(format!("{:?}", ctx.knowledge));
    }
    assert_eq!(stores[0], stores[1]);
    assert!(!stores[0].is_empty());
}
