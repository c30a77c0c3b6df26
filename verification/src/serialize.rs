//! Serialization of terms and traces.
//!
//! The encoding is a self-describing token stream: function symbols are
//! recorded by name, variables by type name, agent name, optional kind
//! and counter, children recursively in preorder.  Deserialization
//! resolves the names against the active signature and rejects unknown
//! ones.  The round trip is a theorem: a term whose symbols come from
//! the signature deserializes to itself.

use vstd::prelude::*;
use crate::agent::AgentDescriptor;
use crate::agent::AgentName;
use crate::error::Error;
use crate::signature::find_by_name;
use crate::signature::find_type_by_name;
use crate::signature::Signature;
use crate::signature::SignatureV;
use crate::term::terms_view;
use crate::term::QueryId;
use crate::term::Term;
use crate::term::TermV;
use crate::term::Variable;
use crate::term::VariableV;
use crate::trace::steps_view;
use crate::trace::Action;
use crate::trace::ActionV;
use crate::trace::Step;
use crate::trace::StepV;
use crate::trace::Trace;
use crate::trace::TraceV;
use crate::util::clone_copy_vec;

verus! {

/// Model of a [`SerToken`].
pub enum TokV {
    App(Seq<char>, int),
    Var(Seq<char>, QueryId),
    Header(Seq<AgentDescriptor>, int),
    StepInput(AgentName),
    StepOutput(AgentName),
}

/// One token of the serialized form.
#[derive(Debug)]
pub enum SerToken {
    /// An application: symbol name and child count.
    App(String, usize),
    /// A variable: type name and query.
    Var(String, QueryId),
    /// A trace header: descriptors and step count.
    Header(Vec<AgentDescriptor>, usize),
    /// An input step for the given agent; its recipe follows.
    StepInput(AgentName),
    /// An output step for the given agent.
    StepOutput(AgentName),
}

impl View for SerToken {
    type V = TokV;

    open spec fn view(&self) -> TokV {
        match self {
            SerToken::App(name, n) => TokV::App(name@, *n as int),
            SerToken::Var(name, q) => TokV::Var(name@, *q),
            SerToken::Header(d, n) => TokV::Header(d@, *n as int),
            SerToken::StepInput(a) => TokV::StepInput(*a),
            SerToken::StepOutput(a) => TokV::StepOutput(*a),
        }
    }
}

/// The views of a token list, in order.
pub open spec fn tokens_view(s: Seq<SerToken>) -> Seq<TokV> {
    Seq::new(s.len(), |i: int| s[i]@)
}

/// The tokens of one term, in preorder.
pub open spec fn ser_term_spec(t: TermV) -> Seq<TokV>
    decreases t,
{
    match t {
        TermV::Variable(v) => seq![TokV::Var(v.type_shape.name, v.query)],
        TermV::Application(f, args) => seq![TokV::App(f.shape.name, args.len() as int)]
            + ser_terms_spec(args),
    }
}

/// The tokens of a list of terms, term after term.
pub open spec fn ser_terms_spec(ts: Seq<TermV>) -> Seq<TokV>
    decreases ts,
{
    if ts.len() == 0 {
        Seq::empty()
    } else {
        ser_term_spec(ts[0]) + ser_terms_spec(ts.subrange(1, ts.len() as int))
    }
}

/// A term's serialization is never empty.
pub proof fn lemma_ser_term_len_pos(t: TermV)
    ensures
        ser_term_spec(t).len() >= 1,
{
}

proof fn lemma_ser_terms_snoc(ts: Seq<TermV>, i: int)
    requires
        0 <= i < ts.len(),
    ensures
        ser_terms_spec(ts.subrange(0, i + 1)) == ser_terms_spec(ts.subrange(0, i))
            + ser_term_spec(ts[i]),
    decreases i,
{
    let a = ts.subrange(0, i + 1);
    let b = ts.subrange(0, i);
    if i == 0 {
        assert(a.subrange(1, a.len() as int) =~= Seq::<TermV>::empty());
        assert(b =~= Seq::<TermV>::empty());
        assert(ser_terms_spec(a) =~= ser_terms_spec(b) + ser_term_spec(ts[0]));
    } else {
        lemma_ser_terms_snoc(ts.subrange(1, ts.len() as int), i - 1);
        assert(a.subrange(1, a.len() as int) =~= ts.subrange(1, ts.len() as int).subrange(0, i));
        assert(b.subrange(1, b.len() as int) =~= ts.subrange(1, ts.len() as int).subrange(
            0,
            i - 1,
        ));
        assert(ser_terms_spec(a) =~= ser_terms_spec(b) + ser_term_spec(ts[i]));
    }
}

/// Append the tokens of one term.
#[verifier::loop_isolation(false)]
pub fn serialize_term_into(t: &Term, out: &mut Vec<SerToken>)
    ensures
        tokens_view(final(out)@) == tokens_view(old(out)@) + ser_term_spec(t@),
    decreases t,
{
    match t {
        Term::Variable(v) => {
            out.push(SerToken::Var(v.type_shape.name.clone(), v.query));
            proof {
                assert(tokens_view(out@) =~= tokens_view(old(out)@) + ser_term_spec(t@));
            }
        },
        Term::Application(f, args) => {
            out.push(SerToken::App(f.shape.name.clone(), args.len()));
            let ghost base = tokens_view(out@);
            let ghost argv = terms_view(args@);
            proof {
                assert(base =~= tokens_view(old(out)@) + seq![
                    TokV::App(f@.shape.name, argv.len() as int),
                ]);
            }
            let mut i: usize = 0;
            while i < args.len()
                invariant
                    i <= args.len(),
                    tokens_view(out@) == base + ser_terms_spec(argv.subrange(0, i as int)),
                decreases args.len() - i,
            {
                proof {
                    assert(argv[i as int] == args@[i as int]@);
                    lemma_ser_terms_snoc(argv, i as int);
                }
                serialize_term_into(&args[i], out);
                i += 1;
            }
            proof {
                assert(argv.subrange(0, argv.len() as int) =~= argv);
                assert(tokens_view(out@) =~= tokens_view(old(out)@) + ser_term_spec(t@));
            }
        },
    }
}

/// The tokens of one term.
pub fn serialize_term(t: &Term) -> (r: Vec<SerToken>)
    ensures
        tokens_view(r@) == ser_term_spec(t@),
{
    let mut out: Vec<SerToken> = Vec::new();
    serialize_term_into(t, &mut out);
    proof {
        assert(tokens_view(Seq::<SerToken>::empty()) =~= Seq::<TokV>::empty());
    }
    out
}

/// A deserialized term and the unconsumed rest of the stream.
pub open spec fn de_term_spec(sig: SignatureV, s: Seq<TokV>, fuel: nat) -> Option<
    (TermV, Seq<TokV>),
>
    decreases fuel,
{
    if fuel == 0 {
        None
    } else if s.len() == 0 {
        None
    } else {
        match s[0] {
            TokV::Var(name, q) => match find_type_by_name(sig.types_by_name, name) {
                None => None,
                Some(ts) => Some(
                    (
                        TermV::Variable(VariableV { type_shape: ts, query: q }),
                        s.subrange(1, s.len() as int),
                    ),
                ),
            },
            TokV::App(name, n) => if n < 0 {
                None
            } else {
                match find_by_name(sig.functions, name) {
                    None => None,
                    Some(d) => match de_terms_spec(
                        sig,
                        s.subrange(1, s.len() as int),
                        n as nat,
                        (fuel - 1) as nat,
                    ) {
                        None => None,
                        Some((children, rest)) => Some(
                            (TermV::Application(d, children), rest),
                        ),
                    },
                }
            },
            _ => None,
        }
    }
}

/// `n` deserialized terms and the unconsumed rest.
pub open spec fn de_terms_spec(sig: SignatureV, s: Seq<TokV>, n: nat, fuel: nat) -> Option<
    (Seq<TermV>, Seq<TokV>),
>
    decreases fuel,
{
    if n == 0 {
        Some((Seq::empty(), s))
    } else if fuel == 0 {
        None
    } else {
        match de_term_spec(sig, s, (fuel - 1) as nat) {
            None => None,
            Some((c, rest)) => match de_terms_spec(sig, rest, (n - 1) as nat, (fuel - 1) as nat) {
                None => None,
                Some((cs, rest2)) => Some((seq![c] + cs, rest2)),
            },
        }
    }
}

/// Whether every symbol and every variable type of a term resolves, by
/// name, to exactly itself in the signature.
pub open spec fn term_in_sig(t: TermV, sig: SignatureV) -> bool
    decreases t,
{
    match t {
        TermV::Variable(v) => find_type_by_name(sig.types_by_name, v.type_shape.name) == Some(
            v.type_shape,
        ),
        TermV::Application(f, args) => {
            &&& find_by_name(sig.functions, f.shape.name) == Some(f)
            &&& forall|i: int|
                0 <= i < args.len() ==> term_in_sig(#[trigger] args[i], sig)
        },
    }
}

/// Round trip for one term: serializing and deserializing in front of
/// any rest yields the term back and leaves the rest untouched.
pub proof fn lemma_term_round_trip(t: TermV, sig: SignatureV, rest: Seq<TokV>, fuel: nat)
    requires
        term_in_sig(t, sig),
        fuel >= 2 * ser_term_spec(t).len(),
    ensures
        de_term_spec(sig, ser_term_spec(t) + rest, fuel) == Some((t, rest)),
    decreases fuel,
{
    let s = ser_term_spec(t) + rest;
    match t {
        TermV::Variable(v) => {
            assert(s[0] == TokV::Var(v.type_shape.name, v.query));
            assert(s.subrange(1, s.len() as int) =~= rest);
        },
        TermV::Application(f, args) => {
            assert(s[0] == TokV::App(f.shape.name, args.len() as int));
            assert(s.subrange(1, s.len() as int) =~= ser_terms_spec(args) + rest);
            lemma_terms_round_trip(args, sig, rest, (fuel - 1) as nat);
        },
    }
}

/// Round trip for a list of terms.
pub proof fn lemma_terms_round_trip(args: Seq<TermV>, sig: SignatureV, rest: Seq<TokV>, fuel: nat)
    requires
        forall|i: int| 0 <= i < args.len() ==> term_in_sig(#[trigger] args[i], sig),
        fuel >= 2 * ser_terms_spec(args).len() + 1,
    ensures
        de_terms_spec(sig, ser_terms_spec(args) + rest, args.len(), fuel) == Some((args, rest)),
    decreases fuel,
{
    if args.len() == 0 {
        assert(ser_terms_spec(args) + rest =~= rest);
        assert(Seq::<TermV>::empty() =~= args);
    } else {
        let head = args[0];
        let tail = args.subrange(1, args.len() as int);
        assert(ser_terms_spec(args) == ser_term_spec(head) + ser_terms_spec(tail));
        assert(ser_terms_spec(args) + rest =~= ser_term_spec(head) + (ser_terms_spec(tail)
            + rest));
        lemma_ser_term_len_pos(head);
        lemma_term_round_trip(head, sig, ser_terms_spec(tail) + rest, (fuel - 1) as nat);
        lemma_terms_round_trip(tail, sig, rest, (fuel - 1) as nat);
        assert(seq![head] + tail =~= args);
    }
}

/// Deserialize one term starting at `pos`; on success the parsed term,
/// and the position after it.
#[verifier::loop_isolation(false)]
fn de_term_exec(sig: &Signature, tokens: &Vec<SerToken>, pos: usize, fuel: usize) -> (r: Option<
    (Term, usize),
>)
    requires
        pos <= tokens@.len(),
    ensures
        match r {
            Some((t, p)) => {
                &&& pos < p <= tokens@.len()
                &&& de_term_spec(
                    sig@,
                    tokens_view(tokens@).subrange(pos as int, tokens@.len() as int),
                    fuel as nat,
                ) == Some(
                    (
                        t@,
                        tokens_view(tokens@).subrange(p as int, tokens@.len() as int),
                    ),
                )
            },
            None => de_term_spec(
                sig@,
                tokens_view(tokens@).subrange(pos as int, tokens@.len() as int),
                fuel as nat,
            ) is None,
        },
    decreases fuel,
{
    let ghost s = tokens_view(tokens@).subrange(pos as int, tokens@.len() as int);
    if fuel == 0 {
        return None;
    }
    if pos == tokens.len() {
        return None;
    }
    proof {
        assert(s[0] == tokens_view(tokens@)[pos as int]);
        assert(tokens_view(tokens@)[pos as int] == tokens@[pos as int]@);
    }
    match &tokens[pos] {
        SerToken::Var(name, q) => {
            match sig.lookup_type_by_name(name.as_str()) {
                None => None,
                Some(ts) => {
                    proof {
                        assert(s.subrange(1, s.len() as int) =~= tokens_view(
                            tokens@,
                        ).subrange(pos + 1 as int, tokens@.len() as int));
                    }
                    Some((Term::Variable(Variable::new(ts, *q)), pos + 1))
                },
            }
        },
        SerToken::App(name, n) => {
            match sig.lookup_by_name(name.as_str()) {
                None => None,
                Some(d) => {
                    proof {
                        assert(s.subrange(1, s.len() as int) =~= tokens_view(
                            tokens@,
                        ).subrange(pos + 1 as int, tokens@.len() as int));
                    }
                    match de_terms_exec(sig, tokens, pos + 1, *n, fuel - 1) {
                        None => None,
                        Some((children, p)) => {
                            let r = Term::Application(d, children);
                            Some((r, p))
                        },
                    }
                },
            }
        },
        _ => None,
    }
}

/// Deserialize `n` terms starting at `pos`.
#[verifier::loop_isolation(false)]
fn de_terms_exec(sig: &Signature, tokens: &Vec<SerToken>, pos: usize, n: usize, fuel: usize) -> (r:
    Option<(Vec<Term>, usize)>)
    requires
        pos <= tokens@.len(),
    ensures
        match r {
            Some((ts, p)) => {
                &&& pos <= p <= tokens@.len()
                &&& de_terms_spec(
                    sig@,
                    tokens_view(tokens@).subrange(pos as int, tokens@.len() as int),
                    n as nat,
                    fuel as nat,
                ) == Some(
                    (
                        terms_view(ts@),
                        tokens_view(tokens@).subrange(p as int, tokens@.len() as int),
                    ),
                )
            },
            None => de_terms_spec(
                sig@,
                tokens_view(tokens@).subrange(pos as int, tokens@.len() as int),
                n as nat,
                fuel as nat,
            ) is None,
        },
    decreases fuel,
{
    if n == 0 {
        let ts: Vec<Term> = Vec::new();
        proof {
            assert(terms_view(ts@) =~= Seq::<TermV>::empty());
        }
        return Some((ts, pos));
    }
    if fuel == 0 {
        return None;
    }
    match de_term_exec(sig, tokens, pos, fuel - 1) {
        None => None,
        Some((c, p1)) => {
            let ghost cv = c@;
            match de_terms_exec(sig, tokens, p1, n - 1, fuel - 1) {
                None => None,
                Some((mut cs, p2)) => {
                    let ghost csv = terms_view(cs@);
                    let mut ts: Vec<Term> = Vec::new();
                    ts.push(c);
                    ts.append(&mut cs);
                    proof {
                        assert(terms_view(ts@) =~= seq![cv] + csv);
                    }
                    Some((ts, p2))
                },
            }
        },
    }
}

/// The tokens of a whole trace: a header with the descriptors and the
/// step count, then each step.
pub open spec fn ser_trace_spec(t: TraceV) -> Seq<TokV> {
    seq![TokV::Header(t.descriptors, t.steps.len() as int)] + ser_steps_spec(t.steps)
}

/// The tokens of a list of steps.
pub open spec fn ser_steps_spec(steps: Seq<StepV>) -> Seq<TokV>
    decreases steps,
{
    if steps.len() == 0 {
        Seq::empty()
    } else {
        ser_step_spec(steps[0]) + ser_steps_spec(steps.subrange(1, steps.len() as int))
    }
}

/// The tokens of one step.
pub open spec fn ser_step_spec(s: StepV) -> Seq<TokV> {
    match s.action {
        ActionV::Input(r) => seq![TokV::StepInput(s.agent)] + ser_term_spec(r),
        ActionV::Output => seq![TokV::StepOutput(s.agent)],
    }
}

proof fn lemma_ser_steps_snoc(steps: Seq<StepV>, i: int)
    requires
        0 <= i < steps.len(),
    ensures
        ser_steps_spec(steps.subrange(0, i + 1)) == ser_steps_spec(steps.subrange(0, i))
            + ser_step_spec(steps[i]),
    decreases i,
{
    let a = steps.subrange(0, i + 1);
    let b = steps.subrange(0, i);
    if i == 0 {
        assert(a.subrange(1, a.len() as int) =~= Seq::<StepV>::empty());
        assert(b =~= Seq::<StepV>::empty());
        assert(ser_steps_spec(a) =~= ser_steps_spec(b) + ser_step_spec(steps[0]));
    } else {
        lemma_ser_steps_snoc(steps.subrange(1, steps.len() as int), i - 1);
        assert(a.subrange(1, a.len() as int) =~= steps.subrange(1, steps.len() as int).subrange(
            0,
            i,
        ));
        assert(b.subrange(1, b.len() as int) =~= steps.subrange(1, steps.len() as int).subrange(
            0,
            i - 1,
        ));
        assert(ser_steps_spec(a) =~= ser_steps_spec(b) + ser_step_spec(steps[i]));
    }
}

/// The tokens of a whole trace.
#[verifier::loop_isolation(false)]
pub fn serialize_trace(t: &Trace) -> (r: Vec<SerToken>)
    ensures
        tokens_view(r@) == ser_trace_spec(t@),
{
    let mut out: Vec<SerToken> = Vec::new();
    out.push(SerToken::Header(clone_copy_vec(&t.descriptors), t.steps.len()));
    let ghost base = tokens_view(out@);
    let ghost stepsv = steps_view(t.steps@);
    proof {
        assert(base =~= seq![TokV::Header(t@.descriptors, t@.steps.len() as int)]);
    }
    let mut i: usize = 0;
    while i < t.steps.len()
        invariant
            i <= t.steps@.len(),
            tokens_view(out@) == base + ser_steps_spec(stepsv.subrange(0, i as int)),
        decreases t.steps@.len() - i,
    {
        proof {
            assert(stepsv[i as int] == t.steps@[i as int]@);
            lemma_ser_steps_snoc(stepsv, i as int);
        }
        let ghost before_step = tokens_view(out@);
        match &t.steps[i].action {
            Action::Input(recipe) => {
                out.push(SerToken::StepInput(t.steps[i].agent));
                proof {
                    assert(tokens_view(out@) =~= before_step.push(
                        TokV::StepInput(t.steps@[i as int].agent),
                    ));
                }
                serialize_term_into(recipe, &mut out);
                proof {
                    assert(tokens_view(out@) =~= before_step + seq![
                        TokV::StepInput(stepsv[i as int].agent),
                    ] + ser_term_spec(stepsv[i as int].action->Input_0));
                    assert(tokens_view(out@) =~= base + ser_steps_spec(
                        stepsv.subrange(0, i + 1 as int),
                    ));
                }
            },
            Action::Output => {
                out.push(SerToken::StepOutput(t.steps[i].agent));
                proof {
                    assert(tokens_view(out@) =~= before_step.push(
                        TokV::StepOutput(stepsv[i as int].agent),
                    ));
                    assert(tokens_view(out@) =~= base + ser_steps_spec(
                        stepsv.subrange(0, i + 1 as int),
                    ));
                }
            },
        }
        i += 1;
    }
    proof {
        assert(stepsv.subrange(0, stepsv.len() as int) =~= stepsv);
        assert(tokens_view(out@) =~= ser_trace_spec(t@));
    }
    out
}

/// Whether every recipe of a trace resolves against the signature.
pub open spec fn trace_in_sig(t: TraceV, sig: SignatureV) -> bool {
    forall|i: int|
        0 <= i < t.steps.len() ==> match (#[trigger] t.steps[i]).action {
            ActionV::Input(r) => term_in_sig(r, sig),
            ActionV::Output => true,
        }
}

/// Deserialize a term stream that holds exactly one term.  Fails with
/// `Malformed` when a name is unknown or tokens are left over.
pub fn deserialize_term(sig: &Signature, tokens: &Vec<SerToken>) -> (r: Result<Term, Error>)
    ensures
        match r {
            Ok(t) => exists|fuel: nat|
                de_term_spec(sig@, tokens_view(tokens@), fuel) == Some(
                    (t@, Seq::<TokV>::empty()),
                ),
            Err(e) => e is Malformed,
        },
{
    if tokens.len() > usize::MAX / 2 - 1 {
        return Err(Error::Malformed);
    }
    let fuel = 2 * tokens.len() + 1;
    match de_term_exec(sig, tokens, 0, fuel) {
        None => Err(Error::Malformed),
        Some((t, p)) => {
            if p == tokens.len() {
                proof {
                    assert(tokens_view(tokens@).subrange(0, tokens@.len() as int) =~= tokens_view(
                        tokens@,
                    ));
                    assert(tokens_view(tokens@).subrange(p as int, tokens@.len() as int) =~= Seq::<
                        TokV,
                    >::empty());
                }
                Ok(t)
            } else {
                Err(Error::Malformed)
            }
        },
    }
}

/// Serialize-then-deserialize yields the original term when its
/// symbols come from the signature and the stream fits the machine:
/// the executable round trip.
pub fn round_trip_term(sig: &Signature, t: &Term) -> (r: Result<Term, Error>)
    ensures
        term_in_sig(t@, sig@) && ser_term_spec(t@).len() <= usize::MAX / 2 - 1 ==> match r {
            Ok(t2) => t2@ == t@,
            Err(_) => false,
        },
{
    let tokens = serialize_term(t);
    if tokens.len() > usize::MAX / 2 - 1 {
        return Err(Error::Malformed);
    }
    let fuel = 2 * tokens.len() + 1;
    proof {
        if term_in_sig(t@, sig@) {
            lemma_term_round_trip(t@, sig@, Seq::empty(), fuel as nat);
            assert(ser_term_spec(t@) + Seq::<TokV>::empty() =~= ser_term_spec(t@));
        }
    }
    match de_term_exec(sig, &tokens, 0, fuel) {
        None => {
            proof {
                if term_in_sig(t@, sig@) {
                    assert(tokens_view(tokens@).subrange(0, tokens@.len() as int) =~= tokens_view(
                        tokens@,
                    ));
                }
            }
            Err(Error::Malformed)
        },
        Some((t2, p)) => {
            proof {
                if term_in_sig(t@, sig@) {
                    assert(tokens_view(tokens@).subrange(0, tokens@.len() as int) =~= tokens_view(
                        tokens@,
                    ));
                }
            }
            if p == tokens.len() {
                Ok(t2)
            } else {
                proof {
                    if term_in_sig(t@, sig@) {
                        assert(tokens_view(tokens@).subrange(p as int, tokens@.len() as int).len()
                            > 0);
                    }
                }
                Err(Error::Malformed)
            }
        },
    }
}

/// Deserialized steps and the unconsumed rest.
pub open spec fn de_steps_spec(sig: SignatureV, s: Seq<TokV>, n: nat, fuel: nat) -> Option<
    (Seq<StepV>, Seq<TokV>),
>
    decreases fuel,
{
    if n == 0 {
        Some((Seq::empty(), s))
    } else if fuel == 0 {
        None
    } else if s.len() == 0 {
        None
    } else {
        match s[0] {
            TokV::StepInput(agent) => match de_term_spec(
                sig,
                s.subrange(1, s.len() as int),
                (fuel - 1) as nat,
            ) {
                None => None,
                Some((r, rest)) => match de_steps_spec(sig, rest, (n - 1) as nat, (fuel - 1) as nat) {
                    None => None,
                    Some((ss, rest2)) => Some(
                        (seq![StepV { agent, action: ActionV::Input(r) }] + ss, rest2),
                    ),
                },
            },
            TokV::StepOutput(agent) => match de_steps_spec(
                sig,
                s.subrange(1, s.len() as int),
                (n - 1) as nat,
                (fuel - 1) as nat,
            ) {
                None => None,
                Some((ss, rest2)) => Some(
                    (seq![StepV { agent, action: ActionV::Output }] + ss, rest2),
                ),
            },
            _ => None,
        }
    }
}

/// A deserialized trace and the unconsumed rest.
pub open spec fn de_trace_spec(sig: SignatureV, s: Seq<TokV>, fuel: nat) -> Option<
    (TraceV, Seq<TokV>),
> {
    if s.len() == 0 {
        None
    } else {
        match s[0] {
            TokV::Header(descriptors, n) => if n < 0 {
                None
            } else {
                match de_steps_spec(sig, s.subrange(1, s.len() as int), n as nat, fuel) {
                    None => None,
                    Some((steps, rest)) => Some((TraceV { steps, descriptors }, rest)),
                }
            },
            _ => None,
        }
    }
}

/// Round trip for a list of steps.
pub proof fn lemma_steps_round_trip(steps: Seq<StepV>, sig: SignatureV, rest: Seq<TokV>, fuel: nat)
    requires
        forall|i: int|
            0 <= i < steps.len() ==> match (#[trigger] steps[i]).action {
                ActionV::Input(r) => term_in_sig(r, sig),
                ActionV::Output => true,
            },
        fuel >= 2 * ser_steps_spec(steps).len() + 1,
    ensures
        de_steps_spec(sig, ser_steps_spec(steps) + rest, steps.len(), fuel) == Some(
            (steps, rest),
        ),
    decreases steps.len(),
{
    if steps.len() == 0 {
        assert(ser_steps_spec(steps) + rest =~= rest);
        assert(Seq::<StepV>::empty() =~= steps);
    } else {
        let head = steps[0];
        let tail = steps.subrange(1, steps.len() as int);
        assert(ser_steps_spec(steps) == ser_step_spec(head) + ser_steps_spec(tail));
        let s = ser_steps_spec(steps) + rest;
        match head.action {
            ActionV::Input(r) => {
                assert(s[0] == TokV::StepInput(head.agent));
                assert(s.subrange(1, s.len() as int) =~= ser_term_spec(r) + (ser_steps_spec(tail)
                    + rest));
                lemma_term_round_trip(r, sig, ser_steps_spec(tail) + rest, (fuel - 1) as nat);
                lemma_ser_term_len_pos(r);
                lemma_steps_round_trip(tail, sig, rest, (fuel - 1) as nat);
                assert(seq![head] + tail =~= steps);
            },
            ActionV::Output => {
                assert(s[0] == TokV::StepOutput(head.agent));
                assert(s.subrange(1, s.len() as int) =~= ser_steps_spec(tail) + rest);
                lemma_steps_round_trip(tail, sig, rest, (fuel - 1) as nat);
                assert(seq![head] + tail =~= steps);
            },
        }
    }
}

/// Round trip for a whole trace: serializing and deserializing yields
/// the trace back.
pub proof fn lemma_trace_round_trip(t: TraceV, sig: SignatureV, fuel: nat)
    requires
        trace_in_sig(t, sig),
        fuel >= 2 * ser_trace_spec(t).len() + 1,
    ensures
        de_trace_spec(sig, ser_trace_spec(t), fuel) == Some((t, Seq::<TokV>::empty())),
{
    let s = ser_trace_spec(t);
    assert(s[0] == TokV::Header(t.descriptors, t.steps.len() as int));
    assert(s.subrange(1, s.len() as int) =~= ser_steps_spec(t.steps) + Seq::<TokV>::empty());
    lemma_steps_round_trip(t.steps, sig, Seq::empty(), fuel);
}

/// Deserialize `n` steps starting at `pos`.
#[verifier::loop_isolation(false)]
fn de_steps_exec(sig: &Signature, tokens: &Vec<SerToken>, pos: usize, n: usize, fuel: usize) -> (r:
    Option<(Vec<Step>, usize)>)
    requires
        pos <= tokens@.len(),
    ensures
        match r {
            Some((ss, p)) => {
                &&& pos <= p <= tokens@.len()
                &&& de_steps_spec(
                    sig@,
                    tokens_view(tokens@).subrange(pos as int, tokens@.len() as int),
                    n as nat,
                    fuel as nat,
                ) == Some(
                    (
                        steps_view(ss@),
                        tokens_view(tokens@).subrange(p as int, tokens@.len() as int),
                    ),
                )
            },
            None => de_steps_spec(
                sig@,
                tokens_view(tokens@).subrange(pos as int, tokens@.len() as int),
                n as nat,
                fuel as nat,
            ) is None,
        },
    decreases fuel,
{
    let ghost s = tokens_view(tokens@).subrange(pos as int, tokens@.len() as int);
    if n == 0 {
        let ss: Vec<Step> = Vec::new();
        proof {
            assert(steps_view(ss@) =~= Seq::<StepV>::empty());
        }
        return Some((ss, pos));
    }
    if fuel == 0 {
        return None;
    }
    if pos == tokens.len() {
        return None;
    }
    proof {
        assert(s[0] == tokens@[pos as int]@);
        assert(s.subrange(1, s.len() as int) =~= tokens_view(tokens@).subrange(
            pos + 1 as int,
            tokens@.len() as int,
        ));
    }
    match &tokens[pos] {
        SerToken::StepInput(agent) => {
            match de_term_exec(sig, tokens, pos + 1, fuel - 1) {
                None => None,
                Some((recipe, p1)) => {
                    let ghost stepv = StepV { agent: *agent, action: ActionV::Input(recipe@) };
                    let step = Step { agent: *agent, action: Action::Input(recipe) };
                    match de_steps_exec(sig, tokens, p1, n - 1, fuel - 1) {
                        None => None,
                        Some((mut rest_steps, p2)) => {
                            let ghost restv = steps_view(rest_steps@);
                            let mut ss: Vec<Step> = Vec::new();
                            ss.push(step);
                            ss.append(&mut rest_steps);
                            proof {
                                assert(steps_view(ss@) =~= seq![stepv] + restv);
                            }
                            Some((ss, p2))
                        },
                    }
                },
            }
        },
        SerToken::StepOutput(agent) => {
            let ghost stepv = StepV { agent: *agent, action: ActionV::Output };
            let step = Step { agent: *agent, action: Action::Output };
            match de_steps_exec(sig, tokens, pos + 1, n - 1, fuel - 1) {
                None => None,
                Some((mut rest_steps, p2)) => {
                    let ghost restv = steps_view(rest_steps@);
                    let mut ss: Vec<Step> = Vec::new();
                    ss.push(step);
                    ss.append(&mut rest_steps);
                    proof {
                        assert(steps_view(ss@) =~= seq![stepv] + restv);
                    }
                    Some((ss, p2))
                },
            }
        },
        _ => None,
    }
}

/// Deserialize a token stream that holds exactly one trace.  Fails with
/// `Malformed` when a name is unknown, the shape is wrong, or tokens
/// are left over.
pub fn deserialize_trace(sig: &Signature, tokens: &Vec<SerToken>) -> (r: Result<Trace, Error>)
    ensures
        match r {
            Ok(t) => exists|fuel: nat|
                de_trace_spec(sig@, tokens_view(tokens@), fuel) == Some(
                    (t@, Seq::<TokV>::empty()),
                ),
            Err(e) => e is Malformed,
        },
{
    if tokens.len() > usize::MAX / 2 - 1 {
        return Err(Error::Malformed);
    }
    let fuel = 2 * tokens.len() + 1;
    if tokens.len() == 0 {
        return Err(Error::Malformed);
    }
    proof {
        assert(tokens_view(tokens@)[0] == tokens@[0]@);
        assert(tokens_view(tokens@).subrange(1, tokens@.len() as int) =~= tokens_view(
            tokens@,
        ).subrange(1, tokens@.len() as int));
    }
    match &tokens[0] {
        SerToken::Header(descriptors, n) => {
            match de_steps_exec(sig, tokens, 1, *n, fuel) {
                None => Err(Error::Malformed),
                Some((steps, p)) => {
                    if p == tokens.len() {
                        let t = Trace { steps, descriptors: clone_copy_vec(descriptors) };
                        proof {
                            assert(tokens_view(tokens@).subrange(p as int, tokens@.len() as int)
                                =~= Seq::<TokV>::empty());
                            assert(de_trace_spec(sig@, tokens_view(tokens@), fuel as nat)
                                == Some((t@, Seq::<TokV>::empty())));
                        }
                        Ok(t)
                    } else {
                        Err(Error::Malformed)
                    }
                },
            }
        },
        _ => Err(Error::Malformed),
    }
}

/// Serialize-then-deserialize yields the original trace when its
/// symbols come from the signature and the stream fits the machine.
pub fn round_trip_trace(sig: &Signature, t: &Trace) -> (r: Result<Trace, Error>)
    ensures
        trace_in_sig(t@, sig@) && ser_trace_spec(t@).len() <= usize::MAX / 2 - 1 ==> match r {
            Ok(t2) => t2@ == t@,
            Err(_) => false,
        },
{
    let tokens = serialize_trace(t);
    if tokens.len() > usize::MAX / 2 - 1 {
        return Err(Error::Malformed);
    }
    let fuel = 2 * tokens.len() + 1;
    proof {
        if trace_in_sig(t@, sig@) {
            lemma_trace_round_trip(t@, sig@, fuel as nat);
        }
    }
    if tokens.len() == 0 {
        proof {
            if trace_in_sig(t@, sig@) {
                assert(ser_trace_spec(t@).len() >= 1);
            }
        }
        return Err(Error::Malformed);
    }
    proof {
        assert(tokens_view(tokens@)[0] == tokens@[0]@);
    }
    match &tokens[0] {
        SerToken::Header(descriptors, n) => {
            proof {
                if trace_in_sig(t@, sig@) {
                    assert(tokens_view(tokens@).subrange(1, tokens@.len() as int)
                        =~= ser_steps_spec(t@.steps) + Seq::<TokV>::empty());
                }
            }
            match de_steps_exec(sig, &tokens, 1, *n, fuel) {
                None => Err(Error::Malformed),
                Some((steps, p)) => {
                    if p == tokens.len() {
                        let t2 = Trace { steps, descriptors: clone_copy_vec(descriptors) };
                        proof {
                            if trace_in_sig(t@, sig@) {
                                assert(tokens_view(tokens@).subrange(
                                    p as int,
                                    tokens@.len() as int,
                                ) =~= Seq::<TokV>::empty());
                                assert(t2@ == t@);
                            }
                        }
                        Ok(t2)
                    } else {
                        proof {
                            if trace_in_sig(t@, sig@) {
                                assert(tokens_view(tokens@).subrange(
                                    p as int,
                                    tokens@.len() as int,
                                ).len() > 0);
                            }
                        }
                        Err(Error::Malformed)
                    }
                },
            }
        },
        _ => Err(Error::Malformed),
    }
}

} // verus!
