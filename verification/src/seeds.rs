//! Seed traces: hand-written starting points for the fuzzer.
//!
//! Each seed builds a well-typed trace out of catalog symbols and typed
//! variables, and its contract pins the trace exactly: agents, actions
//! and recipes, step by step.  The typed constructors below reject
//! mismatches by precondition, so a seed's typing is a theorem, not a
//! runtime check.

use vstd::prelude::*;
use crate::agent::AgentDescriptor;
use crate::agent::AgentName;
use crate::agent::AgentType;
use crate::agent::TLSVersion;
use crate::fn_impl::canonical_type;
use crate::fn_impl::canonical_type_shape;
use crate::fn_impl::fn_append_cipher_suite;
use crate::fn_impl::fn_append_cipher_suite_def;
use crate::fn_impl::fn_append_transcript;
use crate::fn_impl::fn_append_transcript_def;
use crate::fn_impl::fn_application_data;
use crate::fn_impl::fn_application_data_def;
use crate::fn_impl::fn_attack_cve_2021_3449;
use crate::fn_impl::fn_attack_cve_2021_3449_def;
use crate::fn_impl::fn_certificate;
use crate::fn_impl::fn_certificate_def;
use crate::fn_impl::fn_change_cipher_spec;
use crate::fn_impl::fn_change_cipher_spec_def;
use crate::fn_impl::fn_cipher_suite12;
use crate::fn_impl::fn_cipher_suite12_def;
use crate::fn_impl::fn_client_extensions_append;
use crate::fn_impl::fn_client_extensions_append_def;
use crate::fn_impl::fn_client_extensions_new;
use crate::fn_impl::fn_client_extensions_new_def;
use crate::fn_impl::fn_client_hello;
use crate::fn_impl::fn_client_hello_def;
use crate::fn_impl::fn_client_key_exchange;
use crate::fn_impl::fn_client_key_exchange_def;
use crate::fn_impl::fn_compressions;
use crate::fn_impl::fn_compressions_def;
use crate::fn_impl::fn_decode_ecdh_params;
use crate::fn_impl::fn_decode_ecdh_params_def;
use crate::fn_impl::fn_ec_point_formats_extension;
use crate::fn_impl::fn_ec_point_formats_extension_def;
use crate::fn_impl::fn_encrypt12;
use crate::fn_impl::fn_encrypt12_def;
use crate::fn_impl::fn_finished;
use crate::fn_impl::fn_finished_def;
use crate::fn_impl::fn_new_cipher_suites;
use crate::fn_impl::fn_new_cipher_suites_def;
use crate::fn_impl::fn_new_pubkey12;
use crate::fn_impl::fn_new_pubkey12_def;
use crate::fn_impl::fn_new_random;
use crate::fn_impl::fn_new_random_def;
use crate::fn_impl::fn_new_session_id;
use crate::fn_impl::fn_new_session_id_def;
use crate::fn_impl::fn_new_transcript12;
use crate::fn_impl::fn_new_transcript12_def;
use crate::fn_impl::fn_protocol_version12;
use crate::fn_impl::fn_protocol_version12_def;
use crate::fn_impl::fn_secp384r1_support_group_extension;
use crate::fn_impl::fn_secp384r1_support_group_extension_def;
use crate::fn_impl::fn_seq_def;
use crate::fn_impl::fn_seq_number;
use crate::fn_impl::fn_server_hello;
use crate::fn_impl::fn_server_hello_def;
use crate::fn_impl::fn_server_hello_done;
use crate::fn_impl::fn_server_hello_done_def;
use crate::fn_impl::fn_server_key_exchange;
use crate::fn_impl::fn_server_key_exchange_def;
use crate::fn_impl::fn_sign_transcript;
use crate::fn_impl::fn_sign_transcript_def;
use crate::fn_impl::fn_signature_algorithm_extension;
use crate::fn_impl::fn_signature_algorithm_extension_def;
use crate::fn_impl::fn_signed_certificate_timestamp_extension;
use crate::fn_impl::fn_signed_certificate_timestamp_extension_def;
use crate::signature::FunctionDefinition;
use crate::term::lemma_all_well_typed_iff;
use crate::term::term_type_id;
use crate::term::terms_view;
use crate::term::types_match;
use crate::term::well_typed;
use crate::term::QueryId;
use crate::term::Term;
use crate::term::TermV;
use crate::term::Variable;
use crate::term::VariableV;
use crate::trace::steps_view;
use crate::trace::trace_well_typed;
use crate::trace::Action;
use crate::trace::ActionV;
use crate::trace::Step;
use crate::trace::StepV;
use crate::trace::Trace;
use crate::trace::TraceV;
use crate::types::TYPE_CERTIFICATE;
use crate::types::TYPE_CIPHER_SUITE;
use crate::types::TYPE_CIPHER_SUITES;
use crate::types::TYPE_CLIENT_EXTENSIONS;
use crate::types::TYPE_COMPRESSION;
use crate::types::TYPE_COMPRESSIONS;
use crate::types::TYPE_MESSAGE;
use crate::types::TYPE_PAYLOAD;
use crate::types::TYPE_PROTOCOL_VERSION;
use crate::types::TYPE_RANDOM;
use crate::types::TYPE_SERVER_EXTENSIONS;
use crate::types::TYPE_SESSION_ID;

verus! {

/// The variable leaf of the given registered type, bound to the flat
/// `counter`-th observation of that type from `agent`.
pub open spec fn var_spec(type_id: u64, agent: AgentName, counter: u16) -> TermV {
    TermV::Variable(
        VariableV {
            type_shape: canonical_type(type_id),
            query: QueryId { agent_name: agent, tls_message_type: None, counter },
        },
    )
}

/// A variable leaf of the given registered type, bound to the flat
/// `counter`-th observation of that type from `agent`.
pub fn var(type_id: u64, agent: AgentName, counter: u16) -> (r: Term)
    ensures
        r@ == var_spec(type_id, agent, counter),
        well_typed(r@),
        term_type_id(r@) == type_id,
{
    Term::variable(
        Variable::new(
            canonical_type_shape(type_id),
            QueryId { agent_name: agent, tls_message_type: None, counter },
        ),
    )
}

/// Apply a constant symbol.
pub fn app0(def: FunctionDefinition) -> (r: Term)
    requires
        def@.shape.argument_types.len() == 0,
    ensures
        r@ == TermV::Application(def@, Seq::<TermV>::empty()),
        well_typed(r@),
        term_type_id(r@) == def@.shape.return_type.id,
{
    let children: Vec<Term> = Vec::new();
    let r = Term::Application(def, children);
    proof {
        assert(terms_view(Seq::<Term>::empty()) =~= Seq::<TermV>::empty());
        assert(well_typed(r@));
    }
    r
}

/// Apply a one-argument symbol to a matching child.
pub fn app1(def: FunctionDefinition, a0: Term) -> (r: Term)
    requires
        def@.shape.argument_types.len() == 1,
        def@.shape.argument_types[0].id == term_type_id(a0@),
        well_typed(a0@),
    ensures
        r@ == TermV::Application(def@, seq![a0@]),
        well_typed(r@),
        term_type_id(r@) == def@.shape.return_type.id,
{
    let ghost a0v = a0@;
    let mut children: Vec<Term> = Vec::new();
    children.push(a0);
    let ghost argv = terms_view(children@);
    proof {
        assert(argv =~= seq![a0v]);
        assert(types_match(argv, def@.shape.argument_types)) by {
            assert(term_type_id(argv[0]) == def@.shape.argument_types[0].id);
        }
        lemma_all_well_typed_iff(argv);
    }
    let r = Term::Application(def, children);
    r
}

/// Apply a two-argument symbol to matching children.
pub fn app2(def: FunctionDefinition, a0: Term, a1: Term) -> (r: Term)
    requires
        def@.shape.argument_types.len() == 2,
        def@.shape.argument_types[0].id == term_type_id(a0@),
        def@.shape.argument_types[1].id == term_type_id(a1@),
        well_typed(a0@),
        well_typed(a1@),
    ensures
        r@ == TermV::Application(def@, seq![a0@, a1@]),
        well_typed(r@),
        term_type_id(r@) == def@.shape.return_type.id,
{
    let ghost a0v = a0@;
    let ghost a1v = a1@;
    let mut children: Vec<Term> = Vec::new();
    children.push(a0);
    children.push(a1);
    let ghost argv = terms_view(children@);
    proof {
        assert(argv =~= seq![a0v, a1v]);
        assert(types_match(argv, def@.shape.argument_types)) by {
            assert(term_type_id(argv[0]) == def@.shape.argument_types[0].id);
            assert(term_type_id(argv[1]) == def@.shape.argument_types[1].id);
        }
        lemma_all_well_typed_iff(argv);
    }
    let r = Term::Application(def, children);
    r
}

/// Apply a three-argument symbol to matching children.
pub fn app3(def: FunctionDefinition, a0: Term, a1: Term, a2: Term) -> (r: Term)
    requires
        def@.shape.argument_types.len() == 3,
        def@.shape.argument_types[0].id == term_type_id(a0@),
        def@.shape.argument_types[1].id == term_type_id(a1@),
        def@.shape.argument_types[2].id == term_type_id(a2@),
        well_typed(a0@),
        well_typed(a1@),
        well_typed(a2@),
    ensures
        r@ == TermV::Application(def@, seq![a0@, a1@, a2@]),
        well_typed(r@),
        term_type_id(r@) == def@.shape.return_type.id,
{
    let ghost a0v = a0@;
    let ghost a1v = a1@;
    let ghost a2v = a2@;
    let mut children: Vec<Term> = Vec::new();
    children.push(a0);
    children.push(a1);
    children.push(a2);
    let ghost argv = terms_view(children@);
    proof {
        assert(argv =~= seq![a0v, a1v, a2v]);
        assert(types_match(argv, def@.shape.argument_types)) by {
            assert(term_type_id(argv[0]) == def@.shape.argument_types[0].id);
            assert(term_type_id(argv[1]) == def@.shape.argument_types[1].id);
            assert(term_type_id(argv[2]) == def@.shape.argument_types[2].id);
        }
        lemma_all_well_typed_iff(argv);
    }
    let r = Term::Application(def, children);
    r
}

/// Apply a four-argument symbol to matching children.
pub fn app4(def: FunctionDefinition, a0: Term, a1: Term, a2: Term, a3: Term) -> (r: Term)
    requires
        def@.shape.argument_types.len() == 4,
        def@.shape.argument_types[0].id == term_type_id(a0@),
        def@.shape.argument_types[1].id == term_type_id(a1@),
        def@.shape.argument_types[2].id == term_type_id(a2@),
        def@.shape.argument_types[3].id == term_type_id(a3@),
        well_typed(a0@),
        well_typed(a1@),
        well_typed(a2@),
        well_typed(a3@),
    ensures
        r@ == TermV::Application(def@, seq![a0@, a1@, a2@, a3@]),
        well_typed(r@),
        term_type_id(r@) == def@.shape.return_type.id,
{
    let ghost a0v = a0@;
    let ghost a1v = a1@;
    let ghost a2v = a2@;
    let ghost a3v = a3@;
    let mut children: Vec<Term> = Vec::new();
    children.push(a0);
    children.push(a1);
    children.push(a2);
    children.push(a3);
    let ghost argv = terms_view(children@);
    proof {
        assert(argv =~= seq![a0v, a1v, a2v, a3v]);
        assert(types_match(argv, def@.shape.argument_types)) by {
            assert(term_type_id(argv[0]) == def@.shape.argument_types[0].id);
            assert(term_type_id(argv[1]) == def@.shape.argument_types[1].id);
            assert(term_type_id(argv[2]) == def@.shape.argument_types[2].id);
            assert(term_type_id(argv[3]) == def@.shape.argument_types[3].id);
        }
        lemma_all_well_typed_iff(argv);
    }
    let r = Term::Application(def, children);
    r
}

/// Apply a six-argument symbol to matching children.
pub fn app6(
    def: FunctionDefinition,
    a0: Term,
    a1: Term,
    a2: Term,
    a3: Term,
    a4: Term,
    a5: Term,
) -> (r: Term)
    requires
        def@.shape.argument_types.len() == 6,
        def@.shape.argument_types[0].id == term_type_id(a0@),
        def@.shape.argument_types[1].id == term_type_id(a1@),
        def@.shape.argument_types[2].id == term_type_id(a2@),
        def@.shape.argument_types[3].id == term_type_id(a3@),
        def@.shape.argument_types[4].id == term_type_id(a4@),
        def@.shape.argument_types[5].id == term_type_id(a5@),
        well_typed(a0@),
        well_typed(a1@),
        well_typed(a2@),
        well_typed(a3@),
        well_typed(a4@),
        well_typed(a5@),
    ensures
        r@ == TermV::Application(def@, seq![a0@, a1@, a2@, a3@, a4@, a5@]),
        well_typed(r@),
        term_type_id(r@) == def@.shape.return_type.id,
{
    let ghost a0v = a0@;
    let ghost a1v = a1@;
    let ghost a2v = a2@;
    let ghost a3v = a3@;
    let ghost a4v = a4@;
    let ghost a5v = a5@;
    let mut children: Vec<Term> = Vec::new();
    children.push(a0);
    children.push(a1);
    children.push(a2);
    children.push(a3);
    children.push(a4);
    children.push(a5);
    let ghost argv = terms_view(children@);
    proof {
        assert(argv =~= seq![a0v, a1v, a2v, a3v, a4v, a5v]);
        assert(types_match(argv, def@.shape.argument_types)) by {
            assert(term_type_id(argv[0]) == def@.shape.argument_types[0].id);
            assert(term_type_id(argv[1]) == def@.shape.argument_types[1].id);
            assert(term_type_id(argv[2]) == def@.shape.argument_types[2].id);
            assert(term_type_id(argv[3]) == def@.shape.argument_types[3].id);
            assert(term_type_id(argv[4]) == def@.shape.argument_types[4].id);
            assert(term_type_id(argv[5]) == def@.shape.argument_types[5].id);
        }
        lemma_all_well_typed_iff(argv);
    }
    let r = Term::Application(def, children);
    r
}

/// Collects steps one by one, keeping every input recipe well typed and
/// the step list pinned.
pub struct TraceBuilder {
    pub steps: Vec<Step>,
}

/// Every input step of the list carries a well-typed recipe.
pub open spec fn steps_ok(s: Seq<Step>) -> bool {
    forall|i: int|
        0 <= i < s.len() ==> match (#[trigger] s[i]@).action {
            ActionV::Input(rc) => well_typed(rc),
            ActionV::Output => true,
        }
}

impl TraceBuilder {
    /// An empty builder.
    pub fn new() -> (r: TraceBuilder)
        ensures
            steps_view(r.steps@) == Seq::<StepV>::empty(),
            steps_ok(r.steps@),
    {
        let r = TraceBuilder { steps: Vec::new() };
        proof {
            assert(steps_view(r.steps@) =~= Seq::<StepV>::empty());
        }
        r
    }

    /// Append an input step with a well-typed recipe.
    pub fn input(&mut self, agent: AgentName, recipe: Term)
        requires
            steps_ok(old(self).steps@),
            well_typed(recipe@),
        ensures
            steps_ok(final(self).steps@),
            steps_view(final(self).steps@) == steps_view(old(self).steps@).push(
                StepV { agent, action: ActionV::Input(recipe@) },
            ),
    {
        let ghost rv = recipe@;
        self.steps.push(Step { agent, action: Action::Input(recipe) });
        proof {
            assert(steps_view(self.steps@) =~= steps_view(old(self).steps@).push(
                StepV { agent, action: ActionV::Input(rv) },
            ));
            assert forall|i: int| 0 <= i < self.steps@.len() implies match (
            #[trigger] self.steps@[i]@).action {
                ActionV::Input(rc) => well_typed(rc),
                ActionV::Output => true,
            } by {
                if i < old(self).steps@.len() {
                    assert(self.steps@[i] == old(self).steps@[i]);
                }
            }
        }
    }

    /// Append an output step.
    pub fn output(&mut self, agent: AgentName)
        requires
            steps_ok(old(self).steps@),
        ensures
            steps_ok(final(self).steps@),
            steps_view(final(self).steps@) == steps_view(old(self).steps@).push(
                StepV { agent, action: ActionV::Output },
            ),
    {
        self.steps.push(Step { agent, action: Action::Output });
        proof {
            assert(steps_view(self.steps@) =~= steps_view(old(self).steps@).push(
                StepV { agent, action: ActionV::Output },
            ));
            assert forall|i: int| 0 <= i < self.steps@.len() implies match (
            #[trigger] self.steps@[i]@).action {
                ActionV::Input(rc) => well_typed(rc),
                ActionV::Output => true,
            } by {
                if i < old(self).steps@.len() {
                    assert(self.steps@[i] == old(self).steps@[i]);
                }
            }
        }
    }

    /// Close the builder into a trace over the given descriptors.
    pub fn build(self, descriptors: Vec<AgentDescriptor>) -> (r: Trace)
        requires
            steps_ok(self.steps@),
        ensures
            trace_well_typed(r@),
            r@ == (TraceV { steps: steps_view(self.steps@), descriptors: descriptors@ }),
    {
        let r = Trace { steps: self.steps, descriptors };
        proof {
            assert forall|i: int| 0 <= i < r@.steps.len() implies match (
            #[trigger] r@.steps[i]).action {
                ActionV::Input(rc) => well_typed(rc),
                ActionV::Output => true,
            } by {
                assert(r@.steps[i] == r.steps@[i]@);
            }
        }
        r
    }
}

/// The recipe replaying an observed ClientHello from typed knowledge.
pub open spec fn client_hello_replay_spec(client: AgentName) -> TermV {
    TermV::Application(
        fn_client_hello_def(),
        seq![
            var_spec(TYPE_PROTOCOL_VERSION, client, 0),
            var_spec(TYPE_RANDOM, client, 0),
            var_spec(TYPE_SESSION_ID, client, 0),
            var_spec(TYPE_CIPHER_SUITES, client, 0),
            var_spec(TYPE_COMPRESSIONS, client, 0),
            var_spec(TYPE_CLIENT_EXTENSIONS, client, 0),
        ],
    )
}

/// The recipe replaying an observed ServerHello from typed knowledge.
pub open spec fn server_hello_replay_spec(server: AgentName) -> TermV {
    TermV::Application(
        fn_server_hello_def(),
        seq![
            var_spec(TYPE_PROTOCOL_VERSION, server, 0),
            var_spec(TYPE_RANDOM, server, 0),
            var_spec(TYPE_SESSION_ID, server, 0),
            var_spec(TYPE_CIPHER_SUITE, server, 0),
            var_spec(TYPE_COMPRESSION, server, 0),
            var_spec(TYPE_SERVER_EXTENSIONS, server, 0),
        ],
    )
}

/// An application-data replay of one observed payload.
pub open spec fn app_data_replay_spec(agent: AgentName, counter: u16) -> TermV {
    TermV::Application(
        fn_application_data_def(),
        seq![var_spec(TYPE_PAYLOAD, agent, counter)],
    )
}

/// The extension chain of the synthesized client.
pub open spec fn synthetic_extensions_spec() -> TermV {
    TermV::Application(
        fn_client_extensions_append_def(),
        seq![
            TermV::Application(
                fn_client_extensions_append_def(),
                seq![
                    TermV::Application(
                        fn_client_extensions_append_def(),
                        seq![
                            TermV::Application(
                                fn_client_extensions_append_def(),
                                seq![
                                    TermV::Application(
                                        fn_client_extensions_new_def(),
                                        Seq::<TermV>::empty(),
                                    ),
                                    TermV::Application(
                                        fn_secp384r1_support_group_extension_def(),
                                        Seq::<TermV>::empty(),
                                    ),
                                ],
                            ),
                            TermV::Application(
                                fn_signature_algorithm_extension_def(),
                                Seq::<TermV>::empty(),
                            ),
                        ],
                    ),
                    TermV::Application(
                        fn_ec_point_formats_extension_def(),
                        Seq::<TermV>::empty(),
                    ),
                ],
            ),
            TermV::Application(
                fn_signed_certificate_timestamp_extension_def(),
                Seq::<TermV>::empty(),
            ),
        ],
    )
}

/// The constant ClientHello of the synthesized client.
pub open spec fn synthetic_client_hello_spec() -> TermV {
    TermV::Application(
        fn_client_hello_def(),
        seq![
            TermV::Application(fn_protocol_version12_def(), Seq::<TermV>::empty()),
            TermV::Application(fn_new_random_def(), Seq::<TermV>::empty()),
            TermV::Application(fn_new_session_id_def(), Seq::<TermV>::empty()),
            TermV::Application(
                fn_append_cipher_suite_def(),
                seq![
                    TermV::Application(fn_new_cipher_suites_def(), Seq::<TermV>::empty()),
                    TermV::Application(fn_cipher_suite12_def(), Seq::<TermV>::empty()),
                ],
            ),
            TermV::Application(fn_compressions_def(), Seq::<TermV>::empty()),
            synthetic_extensions_spec(),
        ],
    )
}

/// The decoded server key-exchange parameters of the synthesized
/// client.
pub open spec fn decoded_params_spec(server: AgentName) -> TermV {
    TermV::Application(
        fn_decode_ecdh_params_def(),
        seq![var_spec(TYPE_PAYLOAD, server, 0)],
    )
}

/// The sealed client-finished of the synthesized client.
pub open spec fn client_finished_spec(server: AgentName, sequence: u64) -> TermV {
    TermV::Application(
        fn_encrypt12_def(),
        seq![
            TermV::Application(
                fn_finished_def(),
                seq![
                    TermV::Application(
                        fn_sign_transcript_def(),
                        seq![
                            var_spec(TYPE_RANDOM, server, 0),
                            decoded_params_spec(server),
                            TermV::Application(
                                fn_append_transcript_def(),
                                seq![
                                    TermV::Application(
                                        fn_append_transcript_def(),
                                        seq![
                                            TermV::Application(
                                                fn_new_transcript12_def(),
                                                Seq::<TermV>::empty(),
                                            ),
                                            synthetic_client_hello_spec(),
                                        ],
                                    ),
                                    var_spec(TYPE_MESSAGE, server, 0),
                                ],
                            ),
                        ],
                    ),
                ],
            ),
            var_spec(TYPE_RANDOM, server, 0),
            decoded_params_spec(server),
            TermV::Application(fn_seq_def(sequence), Seq::<TermV>::empty()),
        ],
    )
}

/// The sealed renegotiation ClientHello of the attack: the synthesized
/// extension list with every signature-algorithms extension stripped.
pub open spec fn sealed_attack_hello_spec(server: AgentName) -> TermV {
    TermV::Application(
        fn_encrypt12_def(),
        seq![
            TermV::Application(
                fn_client_hello_def(),
                seq![
                    TermV::Application(fn_protocol_version12_def(), Seq::<TermV>::empty()),
                    TermV::Application(fn_new_random_def(), Seq::<TermV>::empty()),
                    TermV::Application(fn_new_session_id_def(), Seq::<TermV>::empty()),
                    TermV::Application(
                        fn_append_cipher_suite_def(),
                        seq![
                            TermV::Application(
                                fn_new_cipher_suites_def(),
                                Seq::<TermV>::empty(),
                            ),
                            TermV::Application(fn_cipher_suite12_def(), Seq::<TermV>::empty()),
                        ],
                    ),
                    TermV::Application(fn_compressions_def(), Seq::<TermV>::empty()),
                    TermV::Application(
                        fn_attack_cve_2021_3449_def(),
                        seq![synthetic_extensions_spec()],
                    ),
                ],
            ),
            var_spec(TYPE_RANDOM, server, 0),
            decoded_params_spec(server),
            TermV::Application(fn_seq_def(1), Seq::<TermV>::empty()),
        ],
    )
}

/// The TLS 1.2 happy path, step by step.
pub open spec fn seed_successful12_spec(client: AgentName, server: AgentName) -> TraceV {
    TraceV {
        steps: seq![
            StepV { agent: client, action: ActionV::Output },
            StepV { agent: server, action: ActionV::Input(client_hello_replay_spec(client)) },
            StepV { agent: server, action: ActionV::Output },
            StepV { agent: client, action: ActionV::Input(server_hello_replay_spec(server)) },
            StepV {
                agent: client,
                action: ActionV::Input(
                    TermV::Application(
                        fn_certificate_def(),
                        seq![var_spec(TYPE_CERTIFICATE, server, 0)],
                    ),
                ),
            },
            StepV {
                agent: client,
                action: ActionV::Input(
                    TermV::Application(
                        fn_server_key_exchange_def(),
                        seq![var_spec(TYPE_PAYLOAD, server, 0)],
                    ),
                ),
            },
            StepV {
                agent: client,
                action: ActionV::Input(
                    TermV::Application(fn_server_hello_done_def(), Seq::<TermV>::empty()),
                ),
            },
            StepV { agent: client, action: ActionV::Output },
            StepV {
                agent: server,
                action: ActionV::Input(
                    TermV::Application(
                        fn_client_key_exchange_def(),
                        seq![var_spec(TYPE_PAYLOAD, client, 0)],
                    ),
                ),
            },
            StepV {
                agent: server,
                action: ActionV::Input(
                    TermV::Application(fn_change_cipher_spec_def(), Seq::<TermV>::empty()),
                ),
            },
            StepV { agent: server, action: ActionV::Input(app_data_replay_spec(client, 1)) },
            StepV { agent: server, action: ActionV::Output },
            StepV {
                agent: client,
                action: ActionV::Input(
                    TermV::Application(fn_change_cipher_spec_def(), Seq::<TermV>::empty()),
                ),
            },
            StepV { agent: client, action: ActionV::Input(app_data_replay_spec(server, 1)) },
        ],
        descriptors: seq![
            AgentDescriptor {
                name: client,
                tls_version: TLSVersion::V1_2,
                typ: AgentType::Client,
                client_authentication: false,
                server_authentication: false,
            },
            AgentDescriptor {
                name: server,
                tls_version: TLSVersion::V1_2,
                typ: AgentType::Server,
                client_authentication: false,
                server_authentication: false,
            },
        ],
    }
}

/// The TLS 1.3 style happy path, step by step.
pub open spec fn seed_successful_spec(client: AgentName, server: AgentName) -> TraceV {
    TraceV {
        steps: seq![
            StepV { agent: client, action: ActionV::Output },
            StepV { agent: server, action: ActionV::Input(client_hello_replay_spec(client)) },
            StepV { agent: server, action: ActionV::Output },
            StepV { agent: client, action: ActionV::Input(server_hello_replay_spec(server)) },
            StepV {
                agent: client,
                action: ActionV::Input(
                    TermV::Application(fn_change_cipher_spec_def(), Seq::<TermV>::empty()),
                ),
            },
            StepV { agent: client, action: ActionV::Input(app_data_replay_spec(server, 0)) },
            StepV { agent: client, action: ActionV::Input(app_data_replay_spec(server, 1)) },
            StepV { agent: client, action: ActionV::Input(app_data_replay_spec(server, 2)) },
            StepV { agent: client, action: ActionV::Input(app_data_replay_spec(server, 3)) },
            StepV { agent: client, action: ActionV::Output },
            StepV { agent: server, action: ActionV::Input(app_data_replay_spec(client, 0)) },
            StepV { agent: server, action: ActionV::Output },
            StepV { agent: client, action: ActionV::Input(app_data_replay_spec(server, 4)) },
            StepV { agent: client, action: ActionV::Input(app_data_replay_spec(server, 5)) },
        ],
        descriptors: seq![
            AgentDescriptor {
                name: client,
                tls_version: TLSVersion::V1_3,
                typ: AgentType::Client,
                client_authentication: false,
                server_authentication: false,
            },
            AgentDescriptor {
                name: server,
                tls_version: TLSVersion::V1_3,
                typ: AgentType::Server,
                client_authentication: false,
                server_authentication: false,
            },
        ],
    }
}

/// The synthesized-client seed, step by step.
pub open spec fn seed_client_attacker12_spec(server: AgentName) -> TraceV {
    TraceV {
        steps: seq![
            StepV { agent: server, action: ActionV::Input(synthetic_client_hello_spec()) },
            StepV { agent: server, action: ActionV::Output },
            StepV {
                agent: server,
                action: ActionV::Input(
                    TermV::Application(
                        fn_client_key_exchange_def(),
                        seq![
                            TermV::Application(fn_new_pubkey12_def(), Seq::<TermV>::empty()),
                        ],
                    ),
                ),
            },
            StepV {
                agent: server,
                action: ActionV::Input(
                    TermV::Application(fn_change_cipher_spec_def(), Seq::<TermV>::empty()),
                ),
            },
            StepV { agent: server, action: ActionV::Input(client_finished_spec(server, 0)) },
        ],
        descriptors: seq![
            AgentDescriptor {
                name: server,
                tls_version: TLSVersion::V1_2,
                typ: AgentType::Server,
                client_authentication: false,
                server_authentication: false,
            },
        ],
    }
}

/// The renegotiation-attack seed, step by step: the synthesized
/// handshake followed by the sealed stripped ClientHello.
pub open spec fn seed_cve_2021_3449_spec(server: AgentName) -> TraceV {
    TraceV {
        steps: seed_client_attacker12_spec(server).steps.push(
            StepV { agent: server, action: ActionV::Input(sealed_attack_hello_spec(server)) },
        ),
        descriptors: seed_client_attacker12_spec(server).descriptors,
    }
}

/// The constant ClientHello recipe of the synthesized client: fixed
/// version, random, session id, the TLS 1.2 suite, and the extension
/// chain ending in the signature-algorithms extension.
fn client_hello_recipe() -> (r: Term)
    ensures
        r@ == synthetic_client_hello_spec(),
        well_typed(r@),
        term_type_id(r@) == TYPE_MESSAGE,
{
    let extensions = app2(
        fn_client_extensions_append(),
        app2(
            fn_client_extensions_append(),
            app2(
                fn_client_extensions_append(),
                app2(
                    fn_client_extensions_append(),
                    app0(fn_client_extensions_new()),
                    app0(fn_secp384r1_support_group_extension()),
                ),
                app0(fn_signature_algorithm_extension()),
            ),
            app0(fn_ec_point_formats_extension()),
        ),
        app0(fn_signed_certificate_timestamp_extension()),
    );
    app6(
        fn_client_hello(),
        app0(fn_protocol_version12()),
        app0(fn_new_random()),
        app0(fn_new_session_id()),
        app2(fn_append_cipher_suite(), app0(fn_new_cipher_suites()), app0(fn_cipher_suite12())),
        app0(fn_compressions()),
        extensions,
    )
}

/// The encrypted client-finished recipe of the synthesized client: sign
/// the transcript under the server's key-exchange parameters and seal
/// it for the record layer.
fn client_finished_recipe(server: AgentName, sequence: u64) -> (r: Term)
    requires
        sequence <= 5,
    ensures
        r@ == client_finished_spec(server, sequence),
        well_typed(r@),
        term_type_id(r@) == TYPE_MESSAGE,
{
    let params = app1(fn_decode_ecdh_params(), var(TYPE_PAYLOAD, server, 0));
    let transcript = app2(
        fn_append_transcript(),
        app2(fn_append_transcript(), app0(fn_new_transcript12()), client_hello_recipe()),
        var(TYPE_MESSAGE, server, 0),
    );
    let verify_data = app3(
        fn_sign_transcript(),
        var(TYPE_RANDOM, server, 0),
        params,
        transcript,
    );
    let params2 = app1(fn_decode_ecdh_params(), var(TYPE_PAYLOAD, server, 0));
    app4(
        fn_encrypt12(),
        app1(fn_finished(), verify_data),
        var(TYPE_RANDOM, server, 0),
        params2,
        app0(fn_seq_number(sequence)),
    )
}

/// The TLS 1.2 happy path between a real client and a real server: the
/// trace replays each side's messages to the other from observed,
/// typed knowledge.
pub fn seed_successful12(client: AgentName, server: AgentName) -> (r: Trace)
    ensures
        r@ == seed_successful12_spec(client, server),
        trace_well_typed(r@),
        r@.steps.len() == 14,
        r@.descriptors.len() == 2,
{
    let mut builder = TraceBuilder::new();
    builder.output(client);
    builder.input(
        server,
        app6(
            fn_client_hello(),
            var(TYPE_PROTOCOL_VERSION, client, 0),
            var(TYPE_RANDOM, client, 0),
            var(TYPE_SESSION_ID, client, 0),
            var(TYPE_CIPHER_SUITES, client, 0),
            var(TYPE_COMPRESSIONS, client, 0),
            var(TYPE_CLIENT_EXTENSIONS, client, 0),
        ),
    );
    builder.output(server);
    builder.input(
        client,
        app6(
            fn_server_hello(),
            var(TYPE_PROTOCOL_VERSION, server, 0),
            var(TYPE_RANDOM, server, 0),
            var(TYPE_SESSION_ID, server, 0),
            var(TYPE_CIPHER_SUITE, server, 0),
            var(TYPE_COMPRESSION, server, 0),
            var(TYPE_SERVER_EXTENSIONS, server, 0),
        ),
    );
    builder.input(client, app1(fn_certificate(), var(TYPE_CERTIFICATE, server, 0)));
    builder.input(client, app1(fn_server_key_exchange(), var(TYPE_PAYLOAD, server, 0)));
    builder.input(client, app0(fn_server_hello_done()));
    builder.output(client);
    builder.input(server, app1(fn_client_key_exchange(), var(TYPE_PAYLOAD, client, 0)));
    builder.input(server, app0(fn_change_cipher_spec()));
    builder.input(server, app1(fn_application_data(), var(TYPE_PAYLOAD, client, 1)));
    builder.output(server);
    builder.input(client, app0(fn_change_cipher_spec()));
    builder.input(client, app1(fn_application_data(), var(TYPE_PAYLOAD, server, 1)));
    let mut descriptors: Vec<AgentDescriptor> = Vec::new();
    descriptors.push(AgentDescriptor::new_client(client, TLSVersion::V1_2));
    descriptors.push(AgentDescriptor::new_server(server, TLSVersion::V1_2));
    let r = builder.build(descriptors);
    proof {
        assert(r@.steps =~= seed_successful12_spec(client, server).steps);
        assert(r@.descriptors =~= seed_successful12_spec(client, server).descriptors);
    }
    r
}

/// The TLS 1.3 style happy path between a real client and a real
/// server: the client's hello is replayed to the server from typed
/// knowledge, and the server's encrypted flight is replayed to the
/// client record by record as application data.
pub fn seed_successful(client: AgentName, server: AgentName) -> (r: Trace)
    ensures
        r@ == seed_successful_spec(client, server),
        trace_well_typed(r@),
        r@.steps.len() == 14,
        r@.descriptors.len() == 2,
{
    let mut builder = TraceBuilder::new();
    builder.output(client);
    builder.input(
        server,
        app6(
            fn_client_hello(),
            var(TYPE_PROTOCOL_VERSION, client, 0),
            var(TYPE_RANDOM, client, 0),
            var(TYPE_SESSION_ID, client, 0),
            var(TYPE_CIPHER_SUITES, client, 0),
            var(TYPE_COMPRESSIONS, client, 0),
            var(TYPE_CLIENT_EXTENSIONS, client, 0),
        ),
    );
    builder.output(server);
    builder.input(
        client,
        app6(
            fn_server_hello(),
            var(TYPE_PROTOCOL_VERSION, server, 0),
            var(TYPE_RANDOM, server, 0),
            var(TYPE_SESSION_ID, server, 0),
            var(TYPE_CIPHER_SUITE, server, 0),
            var(TYPE_COMPRESSION, server, 0),
            var(TYPE_SERVER_EXTENSIONS, server, 0),
        ),
    );
    builder.input(client, app0(fn_change_cipher_spec()));
    builder.input(client, app1(fn_application_data(), var(TYPE_PAYLOAD, server, 0)));
    builder.input(client, app1(fn_application_data(), var(TYPE_PAYLOAD, server, 1)));
    builder.input(client, app1(fn_application_data(), var(TYPE_PAYLOAD, server, 2)));
    builder.input(client, app1(fn_application_data(), var(TYPE_PAYLOAD, server, 3)));
    builder.output(client);
    builder.input(server, app1(fn_application_data(), var(TYPE_PAYLOAD, client, 0)));
    builder.output(server);
    builder.input(client, app1(fn_application_data(), var(TYPE_PAYLOAD, server, 4)));
    builder.input(client, app1(fn_application_data(), var(TYPE_PAYLOAD, server, 5)));
    let mut descriptors: Vec<AgentDescriptor> = Vec::new();
    descriptors.push(AgentDescriptor::new_client(client, TLSVersion::V1_3));
    descriptors.push(AgentDescriptor::new_server(server, TLSVersion::V1_3));
    let r = builder.build(descriptors);
    proof {
        assert(r@.steps =~= seed_successful_spec(client, server).steps);
        assert(r@.descriptors =~= seed_successful_spec(client, server).descriptors);
    }
    r
}

/// A single server agent; the input recipes synthesize a full client
/// from scratch out of constants, the observed key exchange, and the
/// signed transcript.
pub fn seed_client_attacker12(server: AgentName) -> (r: Trace)
    ensures
        r@ == seed_client_attacker12_spec(server),
        trace_well_typed(r@),
        r@.steps.len() == 5,
        r@.descriptors.len() == 1,
{
    let mut builder = TraceBuilder::new();
    builder.input(server, client_hello_recipe());
    builder.output(server);
    builder.input(server, app1(fn_client_key_exchange(), app0(fn_new_pubkey12())));
    builder.input(server, app0(fn_change_cipher_spec()));
    builder.input(server, client_finished_recipe(server, 0));
    let mut descriptors: Vec<AgentDescriptor> = Vec::new();
    descriptors.push(AgentDescriptor::new_server(server, TLSVersion::V1_2));
    let r = builder.build(descriptors);
    proof {
        assert(r@.steps =~= seed_client_attacker12_spec(server).steps);
        assert(r@.descriptors =~= seed_client_attacker12_spec(server).descriptors);
    }
    r
}

/// The renegotiation attack: complete the synthesized handshake, then
/// replay a second, sealed ClientHello whose extension list is the
/// first one's with every signature-algorithms extension stripped.
pub fn seed_cve_2021_3449(server: AgentName) -> (r: Trace)
    ensures
        r@ == seed_cve_2021_3449_spec(server),
        trace_well_typed(r@),
        r@.steps.len() == 6,
        r@.descriptors.len() == 1,
{
    let extensions = app2(
        fn_client_extensions_append(),
        app2(
            fn_client_extensions_append(),
            app2(
                fn_client_extensions_append(),
                app2(
                    fn_client_extensions_append(),
                    app0(fn_client_extensions_new()),
                    app0(fn_secp384r1_support_group_extension()),
                ),
                app0(fn_signature_algorithm_extension()),
            ),
            app0(fn_ec_point_formats_extension()),
        ),
        app0(fn_signed_certificate_timestamp_extension()),
    );
    let attack_hello = app6(
        fn_client_hello(),
        app0(fn_protocol_version12()),
        app0(fn_new_random()),
        app0(fn_new_session_id()),
        app2(fn_append_cipher_suite(), app0(fn_new_cipher_suites()), app0(fn_cipher_suite12())),
        app0(fn_compressions()),
        app1(fn_attack_cve_2021_3449(), extensions),
    );
    let params = app1(fn_decode_ecdh_params(), var(TYPE_PAYLOAD, server, 0));
    let sealed_attack = app4(
        fn_encrypt12(),
        attack_hello,
        var(TYPE_RANDOM, server, 0),
        params,
        app0(fn_seq_number(1)),
    );
    let mut builder = TraceBuilder::new();
    builder.input(server, client_hello_recipe());
    builder.output(server);
    builder.input(server, app1(fn_client_key_exchange(), app0(fn_new_pubkey12())));
    builder.input(server, app0(fn_change_cipher_spec()));
    builder.input(server, client_finished_recipe(server, 0));
    builder.input(server, sealed_attack);
    let mut descriptors: Vec<AgentDescriptor> = Vec::new();
    descriptors.push(AgentDescriptor::new_server(server, TLSVersion::V1_2));
    let r = builder.build(descriptors);
    proof {
        assert(r@.steps =~= seed_cve_2021_3449_spec(server).steps);
        assert(r@.descriptors =~= seed_cve_2021_3449_spec(server).descriptors);
    }
    r
}

} // verus!
