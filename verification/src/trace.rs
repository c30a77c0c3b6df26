//! Traces, the knowledge store, term evaluation and the execution
//! engine.
//!
//! A trace is an ordered list of steps over a set of agent descriptors.
//! Executing a step either evaluates a recipe and feeds the produced
//! messages to an agent, or drains an agent's outbound messages and
//! decomposes them into typed observations.  Evaluation and knowledge
//! extraction are pinned to specification functions, so a trace executed
//! twice over the same agent behaviour yields the same knowledge.

use vstd::prelude::*;
use crate::agent::Agent;
use crate::agent::AgentDescriptor;
use crate::agent::AgentName;
use crate::claims::Claim;
use crate::claims::claims_view;
use crate::codec::message_to_opaque;
use crate::dynamic_function::apply;
use crate::dynamic_function::apply_spec;
use crate::dynamic_function::values_view;
use crate::error::Error;
use crate::error::FnError;
use crate::msgs::Message;
use crate::msgs::MessageV;
use crate::msgs::MessagePayload;
use crate::msgs::MessagePayloadV;
use crate::msgs::HandshakePayloadData;
use crate::msgs::HandshakePayloadDataV;
use crate::msgs::kind_of;
use crate::msgs::opaque_kind_of;
use crate::msgs::MessageResult;
use crate::msgs::MessageResultV;
use crate::msgs::TlsMessageType;
use crate::put::Put;
use crate::term::Term;
use crate::term::TermV;
use crate::term::VariableV;
use crate::term::terms_view;
use crate::util::clone_copy_vec;
use crate::value::TypedValue;
use crate::value::TypedValueV;
use crate::value::type_id_of;

verus! {

/// One observation: the observing agent, the kind of the containing
/// message, and the typed value.
#[derive(Debug)]
pub struct KnowledgeEntry {
    pub agent: AgentName,
    pub matcher: Option<TlsMessageType>,
    pub value: TypedValue,
}

/// Model of a [`KnowledgeEntry`].
pub struct KnowledgeEntryV {
    pub agent: AgentName,
    pub matcher: Option<TlsMessageType>,
    pub value: TypedValueV,
}

impl View for KnowledgeEntry {
    type V = KnowledgeEntryV;

    open spec fn view(&self) -> KnowledgeEntryV {
        KnowledgeEntryV { agent: self.agent, matcher: self.matcher, value: self.value@ }
    }
}

/// The views of a knowledge store, in order.
pub open spec fn knowledge_view(s: Seq<KnowledgeEntry>) -> Seq<KnowledgeEntryV> {
    Seq::new(s.len(), |i: int| s[i]@)
}

/// Whether an entry answers a query for the given agent, kind and type.
pub open spec fn entry_matches(
    e: KnowledgeEntryV,
    agent: AgentName,
    matcher: Option<TlsMessageType>,
    type_id: u64,
) -> bool {
    &&& e.agent == agent
    &&& (matcher is Some ==> e.matcher == matcher)
    &&& type_id_of(e.value) == type_id
}

/// The `counter`-th matching observation, scanning in order.
pub open spec fn query_knowledge(
    k: Seq<KnowledgeEntryV>,
    agent: AgentName,
    matcher: Option<TlsMessageType>,
    type_id: u64,
    counter: int,
) -> Option<TypedValueV>
    decreases k.len(),
{
    if k.len() == 0 {
        None
    } else if entry_matches(k[0], agent, matcher, type_id) {
        if counter == 0 {
            Some(k[0].value)
        } else {
            query_knowledge(k.subrange(1, k.len() as int), agent, matcher, type_id, counter - 1)
        }
    } else {
        query_knowledge(k.subrange(1, k.len() as int), agent, matcher, type_id, counter)
    }
}

/// The observation a variable resolves to.
pub open spec fn resolve_variable(k: Seq<KnowledgeEntryV>, v: VariableV) -> Option<TypedValueV> {
    query_knowledge(
        k,
        v.query.agent_name,
        v.query.tls_message_type,
        v.type_shape.id,
        v.query.counter as int,
    )
}

proof fn lemma_query_knowledge_step(
    k: Seq<KnowledgeEntryV>,
    agent: AgentName,
    matcher: Option<TlsMessageType>,
    type_id: u64,
    i: int,
    counter: int,
)
    requires
        0 <= i < k.len(),
    ensures
        query_knowledge(k.subrange(i, k.len() as int), agent, matcher, type_id, counter)
            == if entry_matches(k[i], agent, matcher, type_id) {
            if counter == 0 {
                Some(k[i].value)
            } else {
                query_knowledge(
                    k.subrange(i + 1, k.len() as int),
                    agent,
                    matcher,
                    type_id,
                    counter - 1,
                )
            }
        } else {
            query_knowledge(k.subrange(i + 1, k.len() as int), agent, matcher, type_id, counter)
        },
{
    let s = k.subrange(i, k.len() as int);
    assert(s[0] == k[i]);
    assert(s.subrange(1, s.len() as int) =~= k.subrange(i + 1, k.len() as int));
}

/// Look the `counter`-th matching observation up, cloning it out.
pub fn find_observation(
    knowledge: &Vec<KnowledgeEntry>,
    agent: AgentName,
    matcher: Option<TlsMessageType>,
    type_id: u64,
    counter: u16,
) -> (r: Option<TypedValue>)
    ensures
        match r {
            Some(v) => query_knowledge(
                knowledge_view(knowledge@),
                agent,
                matcher,
                type_id,
                counter as int,
            ) == Some(v@),
            None => query_knowledge(
                knowledge_view(knowledge@),
                agent,
                matcher,
                type_id,
                counter as int,
            ) is None,
        },
{
    let ghost k = knowledge_view(knowledge@);
    proof {
        assert(k.subrange(0, k.len() as int) =~= k);
    }
    let mut i: usize = 0;
    let mut remaining: u16 = counter;
    while i < knowledge.len()
        invariant
            i <= knowledge@.len(),
            k == knowledge_view(knowledge@),
            query_knowledge(k, agent, matcher, type_id, counter as int) == query_knowledge(
                k.subrange(i as int, k.len() as int),
                agent,
                matcher,
                type_id,
                remaining as int,
            ),
        decreases knowledge@.len() - i,
    {
        proof {
            assert(k[i as int] == knowledge@[i as int]@);
            lemma_query_knowledge_step(k, agent, matcher, type_id, i as int, remaining as int);
        }
        let e = &knowledge[i];
        let matcher_ok: bool = match (&matcher, &e.matcher) {
            (Option::Some(q), Option::Some(em)) => *q == *em,
            (Option::Some(_), Option::None) => false,
            (Option::None, _) => true,
        };
        if e.agent == agent && matcher_ok && e.value.type_id() == type_id {
            if remaining == 0 {
                return Some(e.value.deep_clone());
            }
            remaining = remaining - 1;
        } else {
        }
        i += 1;
    }
    proof {
        assert(k.subrange(i as int, k.len() as int).len() == 0);
    }
    None
}

/// Errors of term evaluation.
#[derive(Clone, Copy, PartialEq, Eq, Structural, Debug)]
pub enum EvalError {
    /// A variable had no matching observation.
    Extraction,
    /// A function symbol rejected its arguments.
    Fn(FnError),
}

/// The value a term evaluates to against a knowledge store, or the
/// error: the reference interpreter.  Children evaluate left to right;
/// the first failure propagates.
pub open spec fn eval_spec(t: TermV, k: Seq<KnowledgeEntryV>) -> Result<TypedValueV, EvalError>
    decreases t,
{
    match t {
        TermV::Variable(v) => match resolve_variable(k, v) {
            Some(val) => Ok(val),
            None => Err(EvalError::Extraction),
        },
        TermV::Application(f, args) => match eval_args_spec(args, k) {
            Err(e) => Err(e),
            Ok(vals) => match apply_spec(f.dynamic_fn, vals) {
                Ok(v) => Ok(v),
                Err(e) => Err(EvalError::Fn(e)),
            },
        },
    }
}

/// The values a list of terms evaluates to, left to right.
pub open spec fn eval_args_spec(ts: Seq<TermV>, k: Seq<KnowledgeEntryV>) -> Result<
    Seq<TypedValueV>,
    EvalError,
>
    decreases ts,
{
    if ts.len() == 0 {
        Ok(Seq::empty())
    } else {
        match eval_spec(ts[0], k) {
            Err(e) => Err(e),
            Ok(v) => match eval_args_spec(ts.subrange(1, ts.len() as int), k) {
                Err(e) => Err(e),
                Ok(rest) => Ok(seq![v] + rest),
            },
        }
    }
}

proof fn lemma_eval_args_snoc(ts: Seq<TermV>, k: Seq<KnowledgeEntryV>, i: int)
    requires
        0 <= i < ts.len(),
        eval_args_spec(ts.subrange(0, i), k) is Ok,
    ensures
        eval_args_spec(ts.subrange(0, i + 1), k) == match eval_spec(ts[i], k) {
            Err(e) => Err::<Seq<TypedValueV>, EvalError>(e),
            Ok(v) => Ok::<Seq<TypedValueV>, EvalError>(
                eval_args_spec(ts.subrange(0, i), k)->Ok_0.push(v),
            ),
        },
    decreases i,
{
    let a = ts.subrange(0, i + 1);
    let b = ts.subrange(0, i);
    if i == 0 {
        assert(a.subrange(1, a.len() as int) =~= Seq::<TermV>::empty());
        assert(b =~= Seq::<TermV>::empty());
        match eval_spec(ts[0], k) {
            Err(e) => {},
            Ok(v) => {
                assert(seq![v] + Seq::<TypedValueV>::empty() =~= Seq::<
                    TypedValueV,
                >::empty().push(v));
            },
        }
    } else {
        assert(a[0] == ts[0]);
        assert(b[0] == ts[0]);
        assert(a.subrange(1, a.len() as int) =~= ts.subrange(1, ts.len() as int).subrange(
            0,
            i,
        ));
        assert(b.subrange(1, b.len() as int) =~= ts.subrange(1, ts.len() as int).subrange(
            0,
            i - 1,
        ));
        let ts1 = ts.subrange(1, ts.len() as int);
        match eval_spec(ts[0], k) {
            Err(e) => {
                assert(eval_args_spec(b, k) is Err);
            },
            Ok(v0) => {
                lemma_eval_args_snoc(ts1, k, i - 1);
                assert(ts1[i - 1] == ts[i]);
                match eval_spec(ts[i], k) {
                    Err(e) => {},
                    Ok(vi) => {
                        assert(eval_args_spec(ts1.subrange(0, i), k) is Ok);
                        assert(seq![v0] + eval_args_spec(ts1.subrange(0, i), k)->Ok_0 =~= (
                        seq![v0] + eval_args_spec(ts1.subrange(0, i - 1), k)->Ok_0).push(vi));
                    },
                }
            },
        }
    }
}

/// Evaluate a term against the knowledge store.  The result is exactly
/// what [`eval_spec`] owes: evaluation is a pure function of term and
/// store.
#[verifier::loop_isolation(false)]
pub fn evaluate(t: &Term, knowledge: &Vec<KnowledgeEntry>) -> (r: Result<TypedValue, EvalError>)
    ensures
        match r {
            Ok(v) => eval_spec(t@, knowledge_view(knowledge@)) == Ok::<TypedValueV, EvalError>(
                v@,
            ),
            Err(e) => eval_spec(t@, knowledge_view(knowledge@)) == Err::<TypedValueV, EvalError>(
                e,
            ),
        },
    decreases t,
{
    let ghost kv = knowledge_view(knowledge@);
    match t {
        Term::Variable(v) => {
            match find_observation(
                knowledge,
                v.query.agent_name,
                v.query.tls_message_type,
                v.type_shape.id,
                v.query.counter,
            ) {
                Some(val) => Ok(val),
                None => Err(EvalError::Extraction),
            }
        },
        Term::Application(f, args) => {
            let ghost argv = terms_view(args@);
            let mut vals: Vec<TypedValue> = Vec::new();
            proof {
                assert(argv.subrange(0, 0) =~= Seq::<TermV>::empty());
                assert(values_view(vals@) =~= Seq::<TypedValueV>::empty());
            }
            let mut i: usize = 0;
            while i < args.len()
                invariant
                    i <= args.len(),
                    eval_args_spec(argv.subrange(0, i as int), kv) == Ok::<
                        Seq<TypedValueV>,
                        EvalError,
                    >(values_view(vals@)),
                decreases args.len() - i,
            {
                proof {
                    assert(argv[i as int] == args@[i as int]@);
                    lemma_eval_args_snoc(argv, kv, i as int);
                }
                match evaluate(&args[i], knowledge) {
                    Ok(v) => {
                        vals.push(v);
                        proof {
                            assert(values_view(vals@) =~= eval_args_spec(
                                argv.subrange(0, i as int),
                                kv,
                            )->Ok_0.push(values_view(vals@)[vals@.len() - 1]));
                        }
                    },
                    Err(e) => {
                        proof {
                            assert(eval_args_spec(argv.subrange(0, i + 1 as int), kv)
                                == Err::<Seq<TypedValueV>, EvalError>(e));
                            lemma_eval_args_prefix_err(argv, kv, i + 1 as int);
                        }
                        return Err(e);
                    },
                }
                i += 1;
            }
            proof {
                assert(argv.subrange(0, argv.len() as int) =~= argv);
            }
            match apply(&f.dynamic_fn, &vals) {
                Ok(v) => Ok(v),
                Err(e) => Err(EvalError::Fn(e)),
            }
        },
    }
}

/// Once a prefix fails, the whole list fails the same way.
proof fn lemma_eval_args_prefix_err(ts: Seq<TermV>, k: Seq<KnowledgeEntryV>, i: int)
    requires
        0 <= i <= ts.len(),
        eval_args_spec(ts.subrange(0, i), k) is Err,
    ensures
        eval_args_spec(ts, k) == eval_args_spec(ts.subrange(0, i), k),
    decreases i,
{
    if i == 0 {
        assert(ts.subrange(0, 0) =~= Seq::<TermV>::empty());
    } else {
        let b = ts.subrange(0, i);
        assert(b[0] == ts[0]);
        match eval_spec(ts[0], k) {
            Err(e) => {
                if ts.len() > 0 {
                }
            },
            Ok(v) => {
                let ts1 = ts.subrange(1, ts.len() as int);
                assert(b.subrange(1, b.len() as int) =~= ts1.subrange(0, i - 1));
                lemma_eval_args_prefix_err(ts1, k, i - 1);
            },
        }
    }
}

/// Model of a [`Step`]'s action.
pub enum ActionV {
    Input(TermV),
    Output,
}

/// One action: feed the evaluation of a recipe to the agent, or drain
/// and record the agent's outbound messages.
#[derive(Debug)]
pub enum Action {
    Input(Term),
    Output,
}

impl View for Action {
    type V = ActionV;

    open spec fn view(&self) -> ActionV {
        match self {
            Action::Input(t) => ActionV::Input(t@),
            Action::Output => ActionV::Output,
        }
    }
}

impl Action {
    /// An exact copy of this action.
    pub fn deep_clone(&self) -> (r: Action)
        ensures
            r@ == self@,
    {
        match self {
            Action::Input(t) => Action::Input(t.deep_clone()),
            Action::Output => Action::Output,
        }
    }
}

/// Model of a [`Step`].
pub struct StepV {
    pub agent: AgentName,
    pub action: ActionV,
}

/// One step of a trace: an agent and the action applied to it.
#[derive(Debug)]
pub struct Step {
    pub agent: AgentName,
    pub action: Action,
}

impl View for Step {
    type V = StepV;

    open spec fn view(&self) -> StepV {
        StepV { agent: self.agent, action: self.action@ }
    }
}

impl Step {
    /// An exact copy of this step.
    pub fn deep_clone(&self) -> (r: Step)
        ensures
            r@ == self@,
    {
        Step { agent: self.agent, action: self.action.deep_clone() }
    }
}

/// The views of a list of steps, in order.
pub open spec fn steps_view(s: Seq<Step>) -> Seq<StepV> {
    Seq::new(s.len(), |i: int| s[i]@)
}

/// Model of a [`Trace`].
pub struct TraceV {
    pub steps: Seq<StepV>,
    pub descriptors: Seq<AgentDescriptor>,
}

/// An ordered list of steps over a set of agent descriptors: the unit
/// of fuzzing.
#[derive(Debug)]
pub struct Trace {
    pub steps: Vec<Step>,
    pub descriptors: Vec<AgentDescriptor>,
}

impl View for Trace {
    type V = TraceV;

    open spec fn view(&self) -> TraceV {
        TraceV { steps: steps_view(self.steps@), descriptors: self.descriptors@ }
    }
}

/// The typing invariant of a trace: every input recipe is well typed.
pub open spec fn trace_well_typed(t: TraceV) -> bool {
    forall|i: int|
        0 <= i < t.steps.len() ==> match (#[trigger] t.steps[i]).action {
            ActionV::Input(r) => crate::term::well_typed(r),
            ActionV::Output => true,
        }
}

impl Trace {
    /// An exact copy of this trace.
    pub fn deep_clone(&self) -> (r: Trace)
        ensures
            r@ == self@,
    {
        let mut steps: Vec<Step> = Vec::new();
        let mut i: usize = 0;
        while i < self.steps.len()
            invariant
                i <= self.steps@.len(),
                steps@.len() == i,
                forall|j: int| 0 <= j < i ==> steps@[j]@ == self.steps@[j]@,
            decreases self.steps@.len() - i,
        {
            steps.push(self.steps[i].deep_clone());
            i += 1;
        }
        let r = Trace { steps, descriptors: clone_copy_vec(&self.descriptors) };
        proof {
            assert(steps_view(r.steps@) =~= steps_view(self.steps@));
        }
        r
    }
}

/// The typed observations a structured message decomposes into: the
/// message itself, then its fields, then each extension, in a fixed
/// structural order.
pub open spec fn extract_spec(m: MessageV) -> Seq<TypedValueV> {
    match m.payload {
        MessagePayloadV::Handshake(h) => match h {
            HandshakePayloadDataV::ClientHello(ch) => seq![
                TypedValueV::Message(m),
                TypedValueV::ProtocolVersion(ch.client_version),
                TypedValueV::Random(ch.random),
                TypedValueV::SessionId(ch.session_id),
                TypedValueV::CipherSuites(ch.cipher_suites),
                TypedValueV::Compressions(ch.compression_methods),
                TypedValueV::ClientExtensions(ch.extensions),
            ] + Seq::new(
                ch.extensions.len(),
                |i: int| TypedValueV::ClientExtension(ch.extensions[i]),
            ),
            HandshakePayloadDataV::ServerHello(sh) => seq![
                TypedValueV::Message(m),
                TypedValueV::ProtocolVersion(sh.legacy_version),
                TypedValueV::Random(sh.random),
                TypedValueV::SessionId(sh.session_id),
                TypedValueV::CipherSuite(sh.cipher_suite),
                TypedValueV::Compression(sh.compression_method),
                TypedValueV::ServerExtensions(sh.extensions),
            ] + Seq::new(
                sh.extensions.len(),
                |i: int| TypedValueV::ServerExtension(sh.extensions[i]),
            ),
            HandshakePayloadDataV::Certificate(c) => seq![
                TypedValueV::Message(m),
                TypedValueV::Certificate(c),
            ],
            HandshakePayloadDataV::ServerKeyExchange(b) => seq![
                TypedValueV::Message(m),
                TypedValueV::Payload(b),
            ],
            HandshakePayloadDataV::ServerHelloDone => seq![TypedValueV::Message(m)],
            HandshakePayloadDataV::ClientKeyExchange(b) => seq![
                TypedValueV::Message(m),
                TypedValueV::Payload(b),
            ],
            HandshakePayloadDataV::Finished(b) => seq![
                TypedValueV::Message(m),
                TypedValueV::Payload(b),
            ],
            HandshakePayloadDataV::EncryptedExtensions(e) => seq![
                TypedValueV::Message(m),
                TypedValueV::ServerExtensions(e),
            ] + Seq::new(e.len(), |i: int| TypedValueV::ServerExtension(e[i])),
            HandshakePayloadDataV::Opaque(_, b) => seq![
                TypedValueV::Message(m),
                TypedValueV::Payload(b),
            ],
        },
        MessagePayloadV::ChangeCipherSpec => seq![TypedValueV::Message(m)],
        MessagePayloadV::Alert(level, desc) => seq![
            TypedValueV::Message(m),
            TypedValueV::Payload(seq![level, desc]),
        ],
        MessagePayloadV::ApplicationData(b) => seq![
            TypedValueV::Message(m),
            TypedValueV::Payload(b),
        ],
    }
}

/// Decompose a message into its typed observations, in the fixed
/// structural order of [`extract_spec`].
pub fn extract_knowledge(m: &Message) -> (r: Vec<TypedValue>)
    ensures
        values_view(r@) == extract_spec(m@),
{
    let mut out: Vec<TypedValue> = Vec::new();
    out.push(TypedValue::Message(m.deep_clone()));
    match &m.payload {
        MessagePayload::Handshake(h) => {
            match h {
                HandshakePayloadData::ClientHello(ch) => {
                    out.push(TypedValue::ProtocolVersion(ch.client_version));
                    out.push(TypedValue::Random(clone_copy_vec(&ch.random)));
                    out.push(TypedValue::SessionId(clone_copy_vec(&ch.session_id)));
                    out.push(TypedValue::CipherSuites(clone_copy_vec(&ch.cipher_suites)));
                    out.push(
                        TypedValue::Compressions(clone_copy_vec(&ch.compression_methods)),
                    );
                    out.push(
                        TypedValue::ClientExtensions(
                            crate::msgs::clone_client_extensions(&ch.extensions),
                        ),
                    );
                    let ghost base = values_view(out@);
                    let mut i: usize = 0;
                    while i < ch.extensions.len()
                        invariant
                            i <= ch.extensions@.len(),
                            values_view(out@) =~= base + Seq::new(
                                i as nat,
                                |j: int| TypedValueV::ClientExtension(
                                    crate::msgs::client_extensions_view(ch.extensions@)[j],
                                ),
                            ),
                        decreases ch.extensions@.len() - i,
                    {
                        let ghost prev = values_view(out@);
                        out.push(TypedValue::ClientExtension(ch.extensions[i].deep_clone()));
                        proof {
                            assert(values_view(out@) =~= prev.push(
                                TypedValueV::ClientExtension(crate::msgs::client_extensions_view(ch.extensions@)[i as int]),
                            ));
                            assert(values_view(out@) =~= base + Seq::new(
                                (i + 1) as nat,
                                |j: int| TypedValueV::ClientExtension(
                                    crate::msgs::client_extensions_view(ch.extensions@)[j],
                                ),
                            ));
                        }
                        i += 1;
                    }
                    proof {
                        assert(values_view(out@) =~= extract_spec(m@));
                    }
                },
                HandshakePayloadData::ServerHello(sh) => {
                    out.push(TypedValue::ProtocolVersion(sh.legacy_version));
                    out.push(TypedValue::Random(clone_copy_vec(&sh.random)));
                    out.push(TypedValue::SessionId(clone_copy_vec(&sh.session_id)));
                    out.push(TypedValue::CipherSuite(sh.cipher_suite));
                    out.push(TypedValue::Compression(sh.compression_method));
                    out.push(
                        TypedValue::ServerExtensions(
                            crate::msgs::clone_server_extensions(&sh.extensions),
                        ),
                    );
                    let ghost base = values_view(out@);
                    let mut i: usize = 0;
                    while i < sh.extensions.len()
                        invariant
                            i <= sh.extensions@.len(),
                            values_view(out@) =~= base + Seq::new(
                                i as nat,
                                |j: int| TypedValueV::ServerExtension(
                                    crate::msgs::server_extensions_view(sh.extensions@)[j],
                                ),
                            ),
                        decreases sh.extensions@.len() - i,
                    {
                        let ghost prev = values_view(out@);
                        out.push(TypedValue::ServerExtension(sh.extensions[i].deep_clone()));
                        proof {
                            assert(values_view(out@) =~= prev.push(
                                TypedValueV::ServerExtension(crate::msgs::server_extensions_view(sh.extensions@)[i as int]),
                            ));
                            assert(values_view(out@) =~= base + Seq::new(
                                (i + 1) as nat,
                                |j: int| TypedValueV::ServerExtension(
                                    crate::msgs::server_extensions_view(sh.extensions@)[j],
                                ),
                            ));
                        }
                        i += 1;
                    }
                    proof {
                        assert(values_view(out@) =~= extract_spec(m@));
                    }
                },
                HandshakePayloadData::Certificate(c) => {
                    let cloned = crate::util::clone_bytes_vec(c);
                    out.push(TypedValue::Certificate(cloned));
                    proof {
                        assert(values_view(out@)[1]->Certificate_0 =~= m@
                            .payload->Handshake_0->Certificate_0);
                        assert(values_view(out@) =~= extract_spec(m@));
                    }
                },
                HandshakePayloadData::ServerKeyExchange(b) => {
                    out.push(TypedValue::Payload(clone_copy_vec(b)));
                    proof {
                        assert(values_view(out@) =~= extract_spec(m@));
                    }
                },
                HandshakePayloadData::ServerHelloDone => {
                    proof {
                        assert(values_view(out@) =~= extract_spec(m@));
                    }
                },
                HandshakePayloadData::ClientKeyExchange(b) => {
                    out.push(TypedValue::Payload(clone_copy_vec(b)));
                    proof {
                        assert(values_view(out@) =~= extract_spec(m@));
                    }
                },
                HandshakePayloadData::Finished(b) => {
                    out.push(TypedValue::Payload(clone_copy_vec(b)));
                    proof {
                        assert(values_view(out@) =~= extract_spec(m@));
                    }
                },
                HandshakePayloadData::EncryptedExtensions(e) => {
                    out.push(
                        TypedValue::ServerExtensions(crate::msgs::clone_server_extensions(e)),
                    );
                    let ghost base = values_view(out@);
                    let mut i: usize = 0;
                    while i < e.len()
                        invariant
                            i <= e@.len(),
                            values_view(out@) =~= base + Seq::new(
                                i as nat,
                                |j: int| TypedValueV::ServerExtension(
                                    crate::msgs::server_extensions_view(e@)[j],
                                ),
                            ),
                        decreases e@.len() - i,
                    {
                        let ghost prev = values_view(out@);
                        out.push(TypedValue::ServerExtension(e[i].deep_clone()));
                        proof {
                            assert(values_view(out@) =~= prev.push(
                                TypedValueV::ServerExtension(
                                    crate::msgs::server_extensions_view(e@)[i as int],
                                ),
                            ));
                            assert(values_view(out@) =~= base + Seq::new(
                                (i + 1) as nat,
                                |j: int| TypedValueV::ServerExtension(
                                    crate::msgs::server_extensions_view(e@)[j],
                                ),
                            ));
                        }
                        i += 1;
                    }
                    proof {
                        assert(values_view(out@) =~= extract_spec(m@));
                    }
                },
                HandshakePayloadData::Opaque(_, b) => {
                    out.push(TypedValue::Payload(clone_copy_vec(b)));
                    proof {
                        assert(values_view(out@) =~= extract_spec(m@));
                    }
                },
            }
        },
        MessagePayload::ChangeCipherSpec => {
            proof {
                assert(values_view(out@) =~= extract_spec(m@));
            }
        },
        MessagePayload::Alert(level, desc) => {
            let mut b: Vec<u8> = Vec::new();
            b.push(*level);
            b.push(*desc);
            proof {
                assert(b@ =~= seq![m@.payload->Alert_0, m@.payload->Alert_1]);
            }
            out.push(TypedValue::Payload(b));
            proof {
                assert(values_view(out@) =~= extract_spec(m@));
            }
        },
        MessagePayload::ApplicationData(b) => {
            out.push(TypedValue::Payload(clone_copy_vec(b)));
            proof {
                assert(values_view(out@) =~= extract_spec(m@));
            }
        },
    }
    out
}

/// The observations one drained message result contributes: the typed
/// decomposition of a parsed message under its kind, or the raw payload
/// of an unparsable record.
pub open spec fn entries_of_result(agent: AgentName, mr: MessageResultV) -> Seq<KnowledgeEntryV> {
    match mr.message {
        Some(m) => Seq::new(
            extract_spec(m).len(),
            |i: int|
                KnowledgeEntryV { agent, matcher: Some(kind_of(m)), value: extract_spec(m)[i] },
        ),
        None => seq![
            KnowledgeEntryV {
                agent,
                matcher: opaque_kind_of(mr.opaque_message),
                value: TypedValueV::Payload(mr.opaque_message.payload),
            },
        ],
    }
}

/// The observations a list of drained message results contributes, in
/// order.
pub open spec fn entries_of_results(agent: AgentName, ms: Seq<MessageResultV>) -> Seq<
    KnowledgeEntryV,
>
    decreases ms.len(),
{
    if ms.len() == 0 {
        Seq::empty()
    } else {
        entries_of_result(agent, ms[0]) + entries_of_results(agent, ms.subrange(1, ms.len() as int))
    }
}

proof fn lemma_entries_of_results_push(agent: AgentName, ms: Seq<MessageResultV>, mr: MessageResultV)
    ensures
        entries_of_results(agent, ms.push(mr)) == entries_of_results(agent, ms)
            + entries_of_result(agent, mr),
    decreases ms.len(),
{
    let a = ms.push(mr);
    if ms.len() == 0 {
        assert(a[0] == mr);
        assert(a.subrange(1, a.len() as int) =~= Seq::<MessageResultV>::empty());
        assert(entries_of_results(agent, a.subrange(1, a.len() as int))
            == Seq::<KnowledgeEntryV>::empty());
        assert(entries_of_results(agent, a) =~= entries_of_result(agent, mr));
        assert(ms =~= Seq::<MessageResultV>::empty());
        assert(entries_of_results(agent, ms) + entries_of_result(agent, mr) =~= entries_of_result(
            agent,
            mr,
        ));
    } else {
        lemma_entries_of_results_push(agent, ms.subrange(1, ms.len() as int), mr);
        assert(a[0] == ms[0]);
        assert(a.subrange(1, a.len() as int) =~= ms.subrange(1, ms.len() as int).push(mr));
        assert(entries_of_results(agent, a) =~= entries_of_results(agent, ms)
            + entries_of_result(agent, mr));
    }
}

/// Whether the context holds an agent under the given name.
pub open spec fn has_agent_spec<P>(agents: Seq<Agent<P>>, name: AgentName) -> bool {
    exists|i: int| 0 <= i < agents.len() && (#[trigger] agents[i]).name == name
}

/// How many times an output step drains the outbound buffer at most.
pub const MAX_OUTBOUND_MESSAGES: usize = 1024;

/// The per-run execution context: the live agents, the knowledge store
/// and the accumulated claims.
pub struct TraceContext<P> {
    pub agents: Vec<Agent<P>>,
    pub knowledge: Vec<KnowledgeEntry>,
    pub claims: Vec<Claim>,
}

impl<P: Put> TraceContext<P> {
    /// A fresh context with no agents, no knowledge and no claims.
    pub fn new() -> (r: TraceContext<P>)
        ensures
            r.agents@.len() == 0,
            r.knowledge@.len() == 0,
            r.claims@.len() == 0,
    {
        TraceContext { agents: Vec::new(), knowledge: Vec::new(), claims: Vec::new() }
    }

    /// Create an agent for a descriptor through the program-under-test
    /// interface and hand it to the context.
    pub fn spawn_agent(&mut self, descriptor: &AgentDescriptor, config: crate::put::PutConfig) -> (r:
        Result<(), Error>)
        ensures
            final(self).knowledge@ == old(self).knowledge@,
            final(self).claims@ == old(self).claims@,
            r is Ok ==> final(self).agents@.len() == old(self).agents@.len() + 1,
            r is Err ==> final(self).agents@ == old(self).agents@,
    {
        match P::new(descriptor, config) {
            Ok(stream) => {
                self.agents.push(Agent::with_name(descriptor.name, stream));
                Ok(())
            },
            Err(e) => Err(e),
        }
    }

    /// Hand an agent to the context.
    pub fn add_agent(&mut self, agent: Agent<P>)
        ensures
            final(self).agents@.len() == old(self).agents@.len() + 1,
            final(self).knowledge@ == old(self).knowledge@,
            final(self).claims@ == old(self).claims@,
    {
        self.agents.push(agent);
    }

    /// Record one claim.
    pub fn record_claim(&mut self, claim: Claim)
        ensures
            claims_view(final(self).claims@) == claims_view(old(self).claims@).push(claim@),
            final(self).knowledge@ == old(self).knowledge@,
    {
        self.claims.push(claim);
        proof {
            assert(claims_view(self.claims@) =~= claims_view(old(self).claims@).push(
                claims_view(self.claims@)[self.claims@.len() - 1],
            ));
        }
    }

    /// The position of the agent with the given name.
    pub fn agent_index(&self, name: AgentName) -> (r: Option<usize>)
        ensures
            match r {
                Some(i) => i < self.agents@.len() && self.agents@[i as int].name == name,
                None => forall|i: int|
                    0 <= i < self.agents@.len() ==> (#[trigger] self.agents@[i]).name != name,
            },
    {
        let mut i: usize = 0;
        while i < self.agents.len()
            invariant
                i <= self.agents@.len(),
                forall|j: int| 0 <= j < i ==> (#[trigger] self.agents@[j]).name != name,
            decreases self.agents@.len() - i,
        {
            if self.agents[i].name == name {
                return Some(i);
            }
            i += 1;
        }
        None
    }

    /// Execute one input step: evaluate the recipe, deliver the
    /// produced messages to the agent, let it progress.  The knowledge
    /// store and the claims are untouched.
    pub fn execute_input(&mut self, agent: AgentName, recipe: &Term) -> (r: Result<(), Error>)
        ensures
            final(self).knowledge@ == old(self).knowledge@,
            final(self).claims@ == old(self).claims@,
            !has_agent_spec(old(self).agents@, agent) ==> (r matches Err(e) && e is Agent),
            has_agent_spec(old(self).agents@, agent) && eval_spec(
                recipe@,
                knowledge_view(old(self).knowledge@),
            ) == Err::<TypedValueV, EvalError>(EvalError::Extraction) ==> (r matches Err(e) && e
                is Extraction),
            has_agent_spec(old(self).agents@, agent) && (exists|f: crate::error::FnError|
                eval_spec(recipe@, knowledge_view(old(self).knowledge@)) == Err::<
                    TypedValueV,
                    EvalError,
                >(EvalError::Fn(f))) ==> (r matches Err(e) && e is Fn),
            has_agent_spec(old(self).agents@, agent) && (match eval_spec(
                recipe@,
                knowledge_view(old(self).knowledge@),
            ) {
                Ok(v) => !(v is Message || v is MultiMessage || v is Opaque),
                Err(_) => false,
            }) ==> (r matches Err(e) && e is Term),
            has_agent_spec(old(self).agents@, agent) && (match eval_spec(
                recipe@,
                knowledge_view(old(self).knowledge@),
            ) {
                Ok(v) => v is Message && !crate::codec::wf_message(v->Message_0),
                Err(_) => false,
            }) ==> (r matches Err(e) && e is Malformed),
    {
        let idx = match self.agent_index(agent) {
            Some(i) => i,
            None => {
                proof {
                    assert(!has_agent_spec(self.agents@, agent));
                }
                return Err(Error::Agent("no agent under that name".to_owned()));
            },
        };
        proof {
            assert(has_agent_spec(self.agents@, agent));
        }
        let value = match evaluate(recipe, &self.knowledge) {
            Ok(v) => v,
            Err(EvalError::Extraction) => {
                return Err(Error::Extraction);
            },
            Err(EvalError::Fn(e)) => {
                return Err(Error::Fn(e));
            },
        };
        let mut a = self.agents.remove(idx);
        let result: Result<(), Error> = match value {
            TypedValue::Message(m) => {
                match message_to_opaque(&m) {
                    Ok(om) => {
                        a.stream.add_to_inbound(&om);
                        a.stream.progress(&agent)
                    },
                    Err(e) => Err(e),
                }
            },
            TypedValue::MultiMessage(msgs) => {
                let mut i: usize = 0;
                let mut failed: Option<Error> = None;
                while i < msgs.len()
                    invariant
                        i <= msgs@.len(),
                    decreases msgs@.len() - i,
                {
                    match message_to_opaque(&msgs[i]) {
                        Ok(om) => {
                            a.stream.add_to_inbound(&om);
                        },
                        Err(e) => {
                            failed = Some(e);
                            i = msgs.len();
                            break ;
                        },
                    }
                    i += 1;
                }
                match failed {
                    Some(e) => Err(e),
                    None => a.stream.progress(&agent),
                }
            },
            TypedValue::Opaque(om) => {
                a.stream.add_to_inbound(&om);
                a.stream.progress(&agent)
            },
            _ => Err(Error::Term("recipe did not evaluate to a message".to_owned())),
        };
        self.agents.insert(idx, a);
        result
    }

    /// Execute one output step: let the agent progress, drain its
    /// outbound messages, and append their typed observations to the
    /// knowledge store.  The store only ever grows, and every appended
    /// entry belongs to this agent.
    pub fn execute_output(&mut self, agent: AgentName) -> (r: Result<(), Error>)
        ensures
            exists|ms: Seq<MessageResultV>|
                knowledge_view(final(self).knowledge@) == knowledge_view(old(self).knowledge@)
                    + #[trigger] entries_of_results(agent, ms),
            knowledge_view(old(self).knowledge@).is_prefix_of(
                knowledge_view(final(self).knowledge@),
            ),
            final(self).claims@ == old(self).claims@,
            forall|i: int|
                old(self).knowledge@.len() <= i < final(self).knowledge@.len()
                    ==> knowledge_view(final(self).knowledge@)[i].agent == agent,
    {
        let idx = match self.agent_index(agent) {
            Some(i) => i,
            None => {
                proof {
                    assert(knowledge_view(self.knowledge@).is_prefix_of(
                        knowledge_view(self.knowledge@),
                    ));
                    assert(knowledge_view(self.knowledge@) =~= knowledge_view(self.knowledge@)
                        + entries_of_results(agent, Seq::<MessageResultV>::empty()));
                }
                return Err(Error::Agent("no agent under that name".to_owned()));
            },
        };
        let mut a = self.agents.remove(idx);
        let progress_result = a.stream.progress(&agent);
        match progress_result {
            Ok(_) => {},
            Err(e) => {
                self.agents.insert(idx, a);
                proof {
                    assert(knowledge_view(self.knowledge@).is_prefix_of(
                        knowledge_view(self.knowledge@),
                    ));
                    assert(knowledge_view(self.knowledge@) =~= knowledge_view(self.knowledge@)
                        + entries_of_results(agent, Seq::<MessageResultV>::empty()));
                }
                return Err(e);
            },
        }
        let mut drained: usize = 0;
        let mut outcome: Result<(), Error> = Ok(());
        let ghost mut drained_ms: Seq<MessageResultV> = Seq::empty();
        proof {
            assert(knowledge_view(self.knowledge@) =~= knowledge_view(self.knowledge@)
                + entries_of_results(agent, Seq::<MessageResultV>::empty()));
        }
        while drained < MAX_OUTBOUND_MESSAGES
            invariant
                idx <= self.agents@.len(),
                self.claims@ == old(self).claims@,
                knowledge_view(self.knowledge@) == knowledge_view(old(self).knowledge@)
                    + entries_of_results(agent, drained_ms),
                knowledge_view(old(self).knowledge@).is_prefix_of(
                    knowledge_view(self.knowledge@),
                ),
                forall|i: int|
                    old(self).knowledge@.len() <= i < self.knowledge@.len() ==> knowledge_view(
                        self.knowledge@,
                    )[i].agent == agent,
            decreases MAX_OUTBOUND_MESSAGES - drained,
        {
            let taken = a.stream.take_message_from_outbound();
            match taken {
                Ok(Some(mr)) => {
                    let ghost mid = knowledge_view(self.knowledge@);
                    let ghost mrv = mr@;
                    self.record_message_result(agent, mr);
                    proof {
                        let now = knowledge_view(self.knowledge@);
                        lemma_entries_of_results_push(agent, drained_ms, mrv);
                        drained_ms = drained_ms.push(mrv);
                        assert(now =~= knowledge_view(old(self).knowledge@)
                            + entries_of_results(agent, drained_ms));
                        assert(mid =~= now.subrange(0, mid.len() as int));
                        assert(knowledge_view(old(self).knowledge@) =~= now.subrange(
                            0,
                            old(self).knowledge@.len() as int,
                        ));
                        assert forall|i2: int|
                            old(self).knowledge@.len() <= i2 < self.knowledge@.len()
                                implies now[i2].agent == agent by {
                            if i2 < mid.len() {
                                assert(now[i2] == mid[i2]);
                            }
                        }
                    }
                },
                Ok(None) => {
                    drained = MAX_OUTBOUND_MESSAGES;
                    break ;
                },
                Err(e) => {
                    outcome = Err(e);
                    drained = MAX_OUTBOUND_MESSAGES;
                    break ;
                },
            }
            drained += 1;
        }
        self.agents.insert(idx, a);
        outcome
    }

    /// Append the observations of one outbound message.  A parsed
    /// message is decomposed; an unparsable record is kept as a raw
    /// payload observation.
    fn record_message_result(&mut self, agent: AgentName, mr: MessageResult)
        ensures
            knowledge_view(final(self).knowledge@) == knowledge_view(old(self).knowledge@)
                + entries_of_result(agent, mr@),
            knowledge_view(old(self).knowledge@).is_prefix_of(
                knowledge_view(final(self).knowledge@),
            ),
            final(self).claims@ == old(self).claims@,
            final(self).agents == old(self).agents,
            forall|i: int|
                old(self).knowledge@.len() <= i < final(self).knowledge@.len()
                    ==> knowledge_view(final(self).knowledge@)[i].agent == agent,
    {
        match mr.message {
            Some(m) => {
                let ghost mv = m@;
                let kind = m.kind();
                let values = extract_knowledge(&m);
                let mut i: usize = 0;
                while i < values.len()
                    invariant
                        knowledge_view(self.knowledge@) == knowledge_view(old(self).knowledge@)
                            + Seq::new(
                            i as nat,
                            |j: int|
                                KnowledgeEntryV {
                                    agent,
                                    matcher: Some(kind_of(mv)),
                                    value: extract_spec(mv)[j],
                                },
                        ),
                        knowledge_view(old(self).knowledge@).is_prefix_of(
                            knowledge_view(self.knowledge@),
                        ),
                        self.claims@ == old(self).claims@,
                        self.agents == old(self).agents,
                        forall|j: int|
                            old(self).knowledge@.len() <= j < self.knowledge@.len()
                                ==> knowledge_view(self.knowledge@)[j].agent == agent,
                        i <= values@.len(),
                        values_view(values@) == extract_spec(mv),
                        kind == kind_of(mv),
                        mr@.message == Some(mv),
                    decreases values@.len() - i,
                {
                    let ghost pre = knowledge_view(self.knowledge@);
                    self.knowledge.push(
                        KnowledgeEntry {
                            agent,
                            matcher: Some(kind),
                            value: values[i].deep_clone(),
                        },
                    );
                    proof {
                        assert(knowledge_view(self.knowledge@) =~= pre.push(
                            knowledge_view(self.knowledge@)[self.knowledge@.len() - 1],
                        ));
                        assert(values@[i as int]@ == extract_spec(mv)[i as int]);
                        assert(knowledge_view(self.knowledge@) =~= knowledge_view(
                            old(self).knowledge@,
                        ) + Seq::new(
                            (i + 1) as nat,
                            |j: int|
                                KnowledgeEntryV {
                                    agent,
                                    matcher: Some(kind_of(mv)),
                                    value: extract_spec(mv)[j],
                                },
                        ));
                        assert(pre.is_prefix_of(knowledge_view(self.knowledge@)));
                        assert(knowledge_view(self.knowledge@)[self.knowledge@.len() - 1].agent
                            == agent);
                        assert(forall|j: int|
                            old(self).knowledge@.len() <= j < self.knowledge@.len()
                                ==> knowledge_view(self.knowledge@)[j].agent == agent);
                    }
                    i += 1;
                }
                proof {
                    assert(knowledge_view(self.knowledge@) =~= knowledge_view(
                        old(self).knowledge@,
                    ) + entries_of_result(agent, mr@));
                }
            },
            None => {
                let ghost pre = knowledge_view(self.knowledge@);
                let kind = mr.opaque_message.kind();
                self.knowledge.push(
                    KnowledgeEntry {
                        agent,
                        matcher: kind,
                        value: TypedValue::Payload(clone_copy_vec(&mr.opaque_message.payload)),
                    },
                );
                proof {
                    assert(knowledge_view(self.knowledge@) =~= pre.push(
                        knowledge_view(self.knowledge@)[self.knowledge@.len() - 1],
                    ));
                    assert(pre.is_prefix_of(knowledge_view(self.knowledge@)));
                    assert(knowledge_view(self.knowledge@) =~= knowledge_view(
                        old(self).knowledge@,
                    ) + entries_of_result(agent, mr@));
                }
            },
        }
    }
}

impl Trace {
    /// Execute every step in order.  The knowledge store only grows;
    /// the first error ends the run.
    pub fn execute<P: Put>(&self, ctx: &mut TraceContext<P>) -> (r: Result<(), Error>)
        ensures
            knowledge_view(old(ctx).knowledge@).is_prefix_of(
                knowledge_view(final(ctx).knowledge@),
            ),
            final(ctx).claims@ == old(ctx).claims@,
    {
        let mut i: usize = 0;
        while i < self.steps.len()
            invariant
                knowledge_view(old(ctx).knowledge@).is_prefix_of(
                    knowledge_view(ctx.knowledge@),
                ),
                ctx.claims@ == old(ctx).claims@,
                i <= self.steps@.len(),
            decreases self.steps@.len() - i,
        {
            let ghost mid = knowledge_view(ctx.knowledge@);
            let step = &self.steps[i];
            let result: Result<(), Error> = match &step.action {
                Action::Input(recipe) => ctx.execute_input(step.agent, recipe),
                Action::Output => ctx.execute_output(step.agent),
            };
            proof {
                assert(knowledge_view(old(ctx).knowledge@).is_prefix_of(
                    knowledge_view(ctx.knowledge@),
                ));
            }
            match result {
                Ok(_) => {},
                Err(e) => {
                    return Err(e);
                },
            }
            i += 1;
        }
        Ok(())
    }
}

/// Decide the typing invariant of a trace.
pub fn check_trace_well_typed(t: &Trace) -> (r: bool)
    ensures
        r == trace_well_typed(t@),
{
    let mut i: usize = 0;
    while i < t.steps.len()
        invariant
            i <= t.steps@.len(),
            forall|j: int|
                0 <= j < i ==> match (#[trigger] steps_view(t.steps@)[j]).action {
                    ActionV::Input(rc) => crate::term::well_typed(rc),
                    ActionV::Output => true,
                },
        decreases t.steps@.len() - i,
    {
        proof {
            assert(steps_view(t.steps@)[i as int] == t.steps@[i as int]@);
        }
        match &t.steps[i].action {
            Action::Input(recipe) => {
                if !crate::term::check_well_typed(recipe) {
                    return false;
                }
            },
            Action::Output => {},
        }
        i += 1;
    }
    true
}

/// Determinism of evaluation: evaluation is a function of the term and
/// the knowledge store alone, so two evaluations of one recipe against
/// one store agree.  Together with the pinned contracts of
/// [`evaluate`], [`extract_knowledge`] and the codec, a trace executed
/// twice over agents that reply with the same bytes yields identical
/// wire bytes at every input step.
pub proof fn lemma_evaluation_deterministic(
    t: TermV,
    k: Seq<KnowledgeEntryV>,
    r1: Result<TypedValueV, EvalError>,
    r2: Result<TypedValueV, EvalError>,
)
    requires
        r1 == eval_spec(t, k),
        r2 == eval_spec(t, k),
    ensures
        r1 == r2,
{
}

/// Determinism of knowledge extraction: the observations of a message
/// are fixed by the message's structural walk, so the knowledge store
/// after an output step is a function of the messages the agent
/// produced.
pub proof fn lemma_extraction_deterministic(
    m: MessageV,
    v1: Seq<TypedValueV>,
    v2: Seq<TypedValueV>,
)
    requires
        v1 == extract_spec(m),
        v2 == extract_spec(m),
    ensures
        v1 == v2,
{
}

} // verus!
