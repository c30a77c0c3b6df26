//! The six type-preserving trace mutations.
//!
//! Every mutator takes a mutable trace and a random source, obeys the
//! shared term-size constraints, and leaves every application well
//! typed: a well-typed trace stays well typed under every mutation, and
//! a skipped mutation leaves the trace untouched.  Candidate selection
//! is two-phase: paths are collected first, then the trace is rewritten
//! through one chosen path, so the source of candidates and the target
//! of mutation never alias.

use vstd::prelude::*;
use crate::signature::FunctionDefinition;
use crate::signature::Signature;
use crate::term::check_path_prefix;
use crate::term::lemma_replace_disjoint;
use crate::term::lemma_subterm_push;
use crate::term::lemma_child_size_lt;
use crate::term::lemma_replace_size;
use crate::term::path_is_prefix;
use crate::term::paths_disjoint;
use crate::term::replace_at_spec;
use crate::term::term_size;
use crate::term::clone_path;
use crate::term::all_subterm_paths;
use crate::term::lemma_replace_preserves_typing;
use crate::term::lemma_subterm_well_typed;
use crate::term::subterm_at;
use crate::term::term_type_id;
use crate::term::terms_view;
use crate::term::well_typed;
use crate::term::Term;
use crate::term::TermV;
use crate::trace::steps_view;
use crate::trace::trace_well_typed;
use crate::trace::Action;
use crate::trace::ActionV;
use crate::trace::Step;
use crate::trace::StepV;
use crate::trace::Trace;
use crate::trace::TraceV;
use crate::types::arg_ids;
use crate::util::str_eq;

verus! {

/// The outcome of one mutation attempt.
#[derive(Clone, Copy, PartialEq, Eq, Structural, Debug)]
pub enum MutationResult {
    Mutated,
    Skipped,
}

/// Inclusive bounds on the node count of subterms that mutator sampling
/// may pick.
#[derive(Clone, Copy, PartialEq, Eq, Structural, Debug)]
pub struct TermConstraints {
    pub min_term_size: usize,
    pub max_term_size: usize,
}

impl Default for TermConstraints {
    /// The default sampling window.
    fn default() -> (r: TermConstraints)
        ensures
            r.min_term_size == 0,
            r.max_term_size == 300,
    {
        TermConstraints { min_term_size: 0, max_term_size: 300 }
    }
}

/// A deterministic random source: a linear congruential generator.
/// Mutation sampling is reproducible from the seed.
#[derive(Clone, Copy, PartialEq, Eq, Structural, Debug)]
pub struct RandomSource {
    pub state: u64,
}

impl RandomSource {
    /// A source with the given seed.
    pub fn with_seed(seed: u64) -> (r: RandomSource)
        ensures
            r.state == seed,
    {
        RandomSource { state: seed }
    }

    /// The next raw value.
    pub fn next_u64(&mut self) -> (r: u64) {
        let next: u64 = (((self.state as u128) * 6364136223846793005u128
            + 1442695040888963407u128) % 0x1_0000_0000_0000_0000u128) as u64;
        self.state = next;
        next
    }

    /// A value below `n`.
    pub fn between(&mut self, n: u64) -> (r: u64)
        requires
            n > 0,
        ensures
            r < n,
    {
        self.next_u64() % n
    }
}

/// One candidate position: a step of the trace and a path inside its
/// recipe.
#[derive(Debug)]
pub struct StepPath {
    pub step_index: usize,
    pub path: Vec<usize>,
}

/// The recipe of an input step, if the step exists and feeds input.
pub open spec fn step_input_recipe(t: TraceV, i: int) -> Option<TermV> {
    if 0 <= i < t.steps.len() {
        match t.steps[i].action {
            ActionV::Input(r) => Some(r),
            ActionV::Output => None,
        }
    } else {
        None
    }
}

/// A position in the trace: a step that feeds input, and a path that
/// stays inside its recipe.
pub open spec fn valid_position(t: TraceV, st: int, p: Seq<usize>) -> bool {
    &&& step_input_recipe(t, st) is Some
    &&& subterm_at(step_input_recipe(t, st)->Some_0, p) is Some
}

/// The subterm a valid position holds.
pub open spec fn position_subterm(t: TraceV, st: int, p: Seq<usize>) -> TermV {
    subterm_at(step_input_recipe(t, st)->Some_0, p)->Some_0
}

/// Whether a node count lies inside the sampling window.  The window is
/// capped by the machine word, which bounds any materialized term.
pub open spec fn in_window(c: TermConstraints, sz: nat) -> bool {
    &&& c.min_term_size <= sz
    &&& sz <= c.max_term_size
    &&& sz < usize::MAX
}

/// A position whose subterm's node count lies inside the window: what
/// the sampling of replace-reuse and swap draws from.
pub open spec fn sized_position(t: TraceV, c: TermConstraints, st: int, p: Seq<usize>) -> bool {
    &&& valid_position(t, st, p)
    &&& in_window(c, term_size(position_subterm(t, st, p)))
}

/// The new trace is the old one with the subterm at one position
/// replaced by `s`; everything else, the descriptors included, is kept.
pub open spec fn replaced_with(
    told: TraceV,
    tnew: TraceV,
    st: int,
    p: Seq<usize>,
    s: TermV,
) -> bool {
    &&& tnew.steps == told.steps.update(
        st,
        StepV {
            agent: told.steps[st].agent,
            action: ActionV::Input(
                replace_at_spec(step_input_recipe(told, st)->Some_0, p, s),
            ),
        },
    )
    &&& tnew.descriptors == told.descriptors
}

/// Two distinct positions in the trace holding subterms of identical
/// output type: what replace-reuse needs to act.
pub open spec fn distinct_typed_pair(
    t: TraceV,
    st1: int,
    p1: Seq<usize>,
    st2: int,
    p2: Seq<usize>,
) -> bool {
    &&& valid_position(t, st1, p1)
    &&& valid_position(t, st2, p2)
    &&& term_type_id(position_subterm(t, st1, p1)) == term_type_id(position_subterm(t, st2, p2))
    &&& !(st1 == st2 && p1 == p2)
}

/// A distinct same-type pair whose subtrees do not overlap: what swap
/// needs to act.
pub open spec fn swap_partner(
    t: TraceV,
    st1: int,
    p1: Seq<usize>,
    st2: int,
    p2: Seq<usize>,
) -> bool {
    &&& distinct_typed_pair(t, st1, p1, st2, p2)
    &&& (st1 != st2 || paths_disjoint(p1, p2))
}

/// The new trace is the old one with the subterms at the two positions
/// exchanged.
pub open spec fn swapped(
    told: TraceV,
    tnew: TraceV,
    st1: int,
    p1: Seq<usize>,
    st2: int,
    p2: Seq<usize>,
) -> bool {
    let a = position_subterm(told, st1, p1);
    let b = position_subterm(told, st2, p2);
    if st1 == st2 {
        let r = step_input_recipe(told, st1)->Some_0;
        &&& tnew.steps == told.steps.update(
            st1,
            StepV {
                agent: told.steps[st1].agent,
                action: ActionV::Input(
                    replace_at_spec(replace_at_spec(r, p2, a), p1, b),
                ),
            },
        )
        &&& tnew.descriptors == told.descriptors
    } else {
        let r1 = step_input_recipe(told, st1)->Some_0;
        let r2 = step_input_recipe(told, st2)->Some_0;
        &&& tnew.steps == told.steps.update(
            st2,
            StepV {
                agent: told.steps[st2].agent,
                action: ActionV::Input(replace_at_spec(r2, p2, a)),
            },
        ).update(
            st1,
            StepV {
                agent: told.steps[st1].agent,
                action: ActionV::Input(replace_at_spec(r1, p1, b)),
            },
        )
        &&& tnew.descriptors == told.descriptors
    }
}

/// Whether the signature holds this definition.
pub open spec fn def_in_sig(sig: crate::signature::SignatureV, d: crate::term::FunctionV) -> bool {
    exists|k: int| 0 <= k < sig.functions.len() && sig.functions[k] == d
}

/// A distinct symbol of identical shape: name apart, return type and
/// argument types agree.
pub open spec fn same_shape_alternative(
    g: crate::term::FunctionV,
    f: crate::term::FunctionV,
) -> bool {
    &&& g.shape.name != f.shape.name
    &&& g.shape.return_type.id == f.shape.return_type.id
    &&& arg_ids(g.shape.argument_types) == arg_ids(f.shape.argument_types)
}

/// A position holding an application: the first half of what
/// replace-match needs.
pub open spec fn app_position(t: TraceV, st: int, p: Seq<usize>) -> bool {
    &&& valid_position(t, st, p)
    &&& position_subterm(t, st, p) is Application
}

/// An application subterm together with a distinct signature symbol of
/// identical shape: what replace-match needs to act.
pub open spec fn replace_match_candidate(
    t: TraceV,
    sig: crate::signature::SignatureV,
    st: int,
    p: Seq<usize>,
    g: crate::term::FunctionV,
) -> bool {
    &&& app_position(t, st, p)
    &&& def_in_sig(sig, g)
    &&& same_shape_alternative(g, position_subterm(t, st, p)->Application_0)
}

/// A child position with a direct grand-child of the child's own
/// output type: what remove-and-lift needs to act.
pub open spec fn remove_lift_candidate(t: TraceV, st: int, p: Seq<usize>, q: Seq<usize>) -> bool {
    &&& valid_position(t, st, p)
    &&& valid_position(t, st, q)
    &&& p.len() >= 1
    &&& q.len() == p.len() + 1
    &&& q.subrange(0, p.len() as int) == p
    &&& term_type_id(position_subterm(t, st, p)) == term_type_id(position_subterm(t, st, q))
}

/// A clone of the subterm a candidate points at, if it points anywhere.
pub fn get_subterm(trace: &Trace, step_index: usize, path: &Vec<usize>) -> (r: Option<Term>)
    ensures
        match r {
            Some(s) => {
                &&& valid_position(trace@, step_index as int, path@)
                &&& s@ == position_subterm(trace@, step_index as int, path@)
            },
            None => !valid_position(trace@, step_index as int, path@),
        },
{
    if step_index >= trace.steps.len() {
        return None;
    }
    proof {
        assert(steps_view(trace.steps@)[step_index as int] == trace.steps@[step_index as int]@);
    }
    match &trace.steps[step_index].action {
        Action::Input(recipe) => {
            let r = recipe.subterm_clone(path, 0);
            proof {
                assert(path@.subrange(0, path@.len() as int) =~= path@);
            }
            r
        },
        Action::Output => None,
    }
}

/// Every position of the trace, in a fixed order: the answered
/// positions are exactly the valid ones.
#[verifier::loop_isolation(false)]
pub fn collect_input_paths(trace: &Trace) -> (r: Vec<StepPath>)
    ensures
        trace@.steps.len() == 0 ==> r@.len() == 0,
        forall|k: int|
            0 <= k < r@.len() ==> valid_position(
                trace@,
                (#[trigger] r@[k]).step_index as int,
                r@[k].path@,
            ),
        forall|st: int, p: Seq<usize>|
            #[trigger] valid_position(trace@, st, p) ==> exists|k: int|
                0 <= k < r@.len() && (#[trigger] r@[k]).step_index as int == st && r@[k].path@
                    == p,
{
    let mut out: Vec<StepPath> = Vec::new();
    let mut i: usize = 0;
    while i < trace.steps.len()
        invariant
            i <= trace.steps@.len(),
            trace@.steps.len() == 0 ==> out@.len() == 0,
            forall|k: int|
                0 <= k < out@.len() ==> valid_position(
                    trace@,
                    (#[trigger] out@[k]).step_index as int,
                    out@[k].path@,
                ),
            forall|st: int, p: Seq<usize>|
                (#[trigger] valid_position(trace@, st, p) && st < i) ==> exists|k: int|
                    0 <= k < out@.len() && (#[trigger] out@[k]).step_index as int == st
                        && out@[k].path@ == p,
        decreases trace.steps@.len() - i,
    {
        proof {
            assert(steps_view(trace.steps@)[i as int] == trace.steps@[i as int]@);
        }
        match &trace.steps[i].action {
            Action::Input(recipe) => {
                let empty: Vec<usize> = Vec::new();
                let mut paths: Vec<Vec<usize>> = Vec::new();
                all_subterm_paths(recipe, &empty, &mut paths);
                proof {
                    assert(step_input_recipe(trace@, i as int) == Some(recipe@));
                }
                let mut j: usize = 0;
                while j < paths.len()
                    invariant
                        j <= paths@.len(),
                        forall|k: int|
                            0 <= k < out@.len() ==> valid_position(
                                trace@,
                                (#[trigger] out@[k]).step_index as int,
                                out@[k].path@,
                            ),
                        forall|st: int, p: Seq<usize>|
                            (#[trigger] valid_position(trace@, st, p) && st < i) ==> exists|
                                k: int,
                            |
                                0 <= k < out@.len() && (#[trigger] out@[k]).step_index as int
                                    == st && out@[k].path@ == p,
                        forall|m: int|
                            0 <= m < j ==> exists|k: int|
                                0 <= k < out@.len() && (#[trigger] out@[k]).step_index as int
                                    == i && out@[k].path@ == (#[trigger] paths@[m])@,
                    decreases paths@.len() - j,
                {
                    let ghost pre = out@;
                    out.push(StepPath { step_index: i, path: clone_path(&paths[j]) });
                    proof {
                        let pv = paths@[j as int]@;
                        assert(pv.subrange(0, 0) =~= Seq::<usize>::empty());
                        assert(pv.subrange(0, pv.len() as int) =~= pv);
                        assert(subterm_at(recipe@, pv) is Some);
                        assert(out@[pre.len() as int].step_index as int == i as int && out@[
                            pre.len() as int].path@ == pv);
                        assert(forall|k: int| 0 <= k < pre.len() ==> out@[k] == pre[k]);
                    }
                    j += 1;
                }
                proof {
                    assert forall|st: int, p: Seq<usize>|
                        (#[trigger] valid_position(trace@, st, p) && st < i + 1) implies exists|
                        k: int,
                    |
                        0 <= k < out@.len() && (#[trigger] out@[k]).step_index as int == st
                            && out@[k].path@ == p by {
                        if st == i {
                            assert(subterm_at(recipe@, p) is Some);
                            let m = choose|m: int|
                                0 <= m < paths@.len() && (#[trigger] paths@[m])@
                                    == Seq::<usize>::empty() + p;
                            assert(paths@[m]@ =~= p);
                        }
                    }
                }
            },
            Action::Output => {
                proof {
                    assert forall|st: int, p: Seq<usize>|
                        (#[trigger] valid_position(trace@, st, p) && st < i + 1) implies exists|
                        k: int,
                    |
                        0 <= k < out@.len() && (#[trigger] out@[k]).step_index as int == st
                            && out@[k].path@ == p by {
                        if st == i {
                            assert(step_input_recipe(trace@, st) is None);
                        }
                    }
                }
            },
        }
        i += 1;
    }
    out
}

/// The candidates whose subterm node count lies inside the constraint
/// window: exactly the sized positions among them.
#[verifier::loop_isolation(false)]
fn filter_by_size(trace: &Trace, candidates: &Vec<StepPath>, constraints: TermConstraints) -> (r:
    Vec<StepPath>)
    ensures
        candidates@.len() == 0 ==> r@.len() == 0,
        forall|k: int|
            0 <= k < r@.len() ==> sized_position(
                trace@,
                constraints,
                (#[trigger] r@[k]).step_index as int,
                r@[k].path@,
            ),
        forall|m: int|
            0 <= m < candidates@.len() && sized_position(
                trace@,
                constraints,
                (#[trigger] candidates@[m]).step_index as int,
                candidates@[m].path@,
            ) ==> exists|k: int|
                0 <= k < r@.len() && (#[trigger] r@[k]).step_index == candidates@[m].step_index
                    && r@[k].path@ == candidates@[m].path@,
{
    let mut out: Vec<StepPath> = Vec::new();
    let mut i: usize = 0;
    while i < candidates.len()
        invariant
            i <= candidates@.len(),
            candidates@.len() == 0 ==> out@.len() == 0,
            forall|k: int|
                0 <= k < out@.len() ==> sized_position(
                    trace@,
                    constraints,
                    (#[trigger] out@[k]).step_index as int,
                    out@[k].path@,
                ),
            forall|m: int|
                0 <= m < i && sized_position(
                    trace@,
                    constraints,
                    (#[trigger] candidates@[m]).step_index as int,
                    candidates@[m].path@,
                ) ==> exists|k: int|
                    0 <= k < out@.len() && (#[trigger] out@[k]).step_index == candidates@[
                        m].step_index && out@[k].path@ == candidates@[m].path@,
        decreases candidates@.len() - i,
    {
        match get_subterm(trace, candidates[i].step_index, &candidates[i].path) {
            Some(sub) => {
                let ghost pre = out@;
                let size = sub.size();
                if constraints.min_term_size <= size && size <= constraints.max_term_size && size
                    < usize::MAX {
                    out.push(
                        StepPath {
                            step_index: candidates[i].step_index,
                            path: clone_path(&candidates[i].path),
                        },
                    );
                    proof {
                        assert(out@[pre.len() as int].step_index == candidates@[
                            i as int].step_index && out@[pre.len() as int].path@ == candidates@[
                            i as int].path@);
                        assert(forall|k: int| 0 <= k < pre.len() ==> out@[k] == pre[k]);
                    }
                } else {
                    proof {
                        assert(!in_window(
                            constraints,
                            term_size(
                                position_subterm(
                                    trace@,
                                    candidates@[i as int].step_index as int,
                                    candidates@[i as int].path@,
                                ),
                            ),
                        ));
                    }
                }
            },
            None => {},
        }
        i += 1;
    }
    out
}

/// Write a new recipe into one step, preserving trace typing when the
/// new recipe is well typed.
fn commit_recipe(trace: &mut Trace, step_index: usize, new_recipe: Term)
    requires
        step_index < old(trace).steps@.len(),
    ensures
        final(trace)@.steps.len() == old(trace)@.steps.len(),
        final(trace)@.descriptors == old(trace)@.descriptors,
        forall|j: int|
            0 <= j < old(trace)@.steps.len() && j != step_index ==> final(trace)@.steps[j] == old(
                trace,
            )@.steps[j],
        final(trace)@.steps[step_index as int] == (StepV {
            agent: old(trace)@.steps[step_index as int].agent,
            action: ActionV::Input(new_recipe@),
        }),
{
    let agent = trace.steps[step_index].agent;
    let new_step = Step { agent, action: Action::Input(new_recipe) };
    trace.steps[step_index] = new_step;
    proof {
        assert(steps_view(trace.steps@)[step_index as int] == trace.steps@[step_index as int]@);
        assert(forall|j: int|
            0 <= j < old(trace).steps@.len() && j != step_index ==> steps_view(trace.steps@)[j]
                == steps_view(old(trace).steps@)[j]);
    }
}

/// REPEAT: insert a deep clone of a random step at a random index.
#[derive(Debug)]
pub struct RepeatMutator {
    pub constraints: TermConstraints,
}

impl RepeatMutator {
    /// A repeat mutator under the given constraints.
    pub fn new(constraints: TermConstraints) -> (r: RepeatMutator)
        ensures
            r.constraints == constraints,
    {
        RepeatMutator { constraints }
    }

    /// Insert a clone of a random step at a random position; skipped
    /// exactly when the trace has no step.
    pub fn mutate(&self, trace: &mut Trace, rand: &mut RandomSource) -> (r: MutationResult)
        ensures
            r is Skipped <==> old(trace)@.steps.len() == 0,
            r is Skipped ==> final(trace)@ == old(trace)@,
            r is Mutated ==> exists|at: int, from: int|
                0 <= at <= old(trace)@.steps.len() && 0 <= from < old(trace)@.steps.len()
                    && final(trace)@.steps == #[trigger] old(trace)@.steps.insert(
                    at,
                    old(trace)@.steps[from],
                ),
            trace_well_typed(old(trace)@) ==> trace_well_typed(final(trace)@),
            final(trace)@.descriptors == old(trace)@.descriptors,
    {
        let length = trace.steps.len();
        if length == 0 {
            return MutationResult::Skipped;
        }
        let raw = rand.next_u64();
        let insert_index = ((raw as u128) % ((length as u128) + 1)) as usize;
        let step_index = rand.between(length as u64) as usize;
        proof {
            assert(insert_index <= length);
        }
        let step = trace.steps[step_index].deep_clone();
        let ghost stepv = step@;
        trace.steps.insert(insert_index, step);
        proof {
            assert(steps_view(trace.steps@) =~= steps_view(old(trace).steps@).insert(
                insert_index as int,
                stepv,
            ));
            assert(stepv == old(trace)@.steps[step_index as int]);
            if trace_well_typed(old(trace)@) {
                assert forall|j: int| 0 <= j < trace.steps@.len() implies match (
                #[trigger] steps_view(trace.steps@)[j]).action {
                    ActionV::Input(rc) => well_typed(rc),
                    ActionV::Output => true,
                } by {
                    let newv = steps_view(trace.steps@);
                    let oldv = steps_view(old(trace).steps@);
                    if j < insert_index {
                        assert(newv[j] == oldv[j]);
                    } else if j == insert_index {
                        assert(newv[j] == oldv[step_index as int]);
                    } else {
                        assert(newv[j] == oldv[j - 1]);
                    }
                }
            }
        }
        MutationResult::Mutated
    }
}

/// SKIP: remove a random step.
#[derive(Debug)]
pub struct SkipMutator {
    pub constraints: TermConstraints,
}

impl SkipMutator {
    /// A skip mutator under the given constraints.
    pub fn new(constraints: TermConstraints) -> (r: SkipMutator)
        ensures
            r.constraints == constraints,
    {
        SkipMutator { constraints }
    }

    /// Remove a random step; skipped exactly when the trace has no
    /// step, so repeated application empties a trace step by step.
    pub fn mutate(&self, trace: &mut Trace, rand: &mut RandomSource) -> (r: MutationResult)
        ensures
            r is Skipped <==> old(trace)@.steps.len() == 0,
            r is Skipped ==> final(trace)@ == old(trace)@,
            r is Mutated ==> exists|at: int|
                0 <= at < old(trace)@.steps.len() && final(trace)@.steps == #[trigger] old(
                    trace,
                )@.steps.remove(at),
            trace_well_typed(old(trace)@) ==> trace_well_typed(final(trace)@),
            final(trace)@.descriptors == old(trace)@.descriptors,
    {
        let length = trace.steps.len();
        if length == 0 {
            return MutationResult::Skipped;
        }
        let remove_index = rand.between(length as u64) as usize;
        let removed = trace.steps.remove(remove_index);
        proof {
            assert(steps_view(trace.steps@) =~= steps_view(old(trace).steps@).remove(
                remove_index as int,
            ));
            assert(trace@.steps == old(trace)@.steps.remove(remove_index as int));
            if trace_well_typed(old(trace)@) {
                assert forall|j: int| 0 <= j < trace.steps@.len() implies match (
                #[trigger] steps_view(trace.steps@)[j]).action {
                    ActionV::Input(rc) => well_typed(rc),
                    ActionV::Output => true,
                } by {
                    let newv = steps_view(trace.steps@);
                    let oldv = steps_view(old(trace).steps@);
                    if j < remove_index {
                        assert(newv[j] == oldv[j]);
                    } else {
                        assert(newv[j] == oldv[j + 1]);
                    }
                }
            }
        }
        MutationResult::Mutated
    }
}

/// REPLACE-REUSE: replace one subterm by a clone of another of the same
/// output type found elsewhere in the trace.
#[derive(Debug)]
pub struct ReplaceReuseMutator {
    pub constraints: TermConstraints,
}

impl ReplaceReuseMutator {
    /// A replace-reuse mutator under the given constraints.
    pub fn new(constraints: TermConstraints) -> (r: ReplaceReuseMutator)
        ensures
            r.constraints == constraints,
    {
        ReplaceReuseMutator { constraints }
    }

    /// Substitute a clone of a random subterm for a distinct subterm of
    /// the same output type.  Skipped exactly when no subterm lies in
    /// the sampling window, or the drawn source has no distinct
    /// same-type counterpart.
    #[verifier::loop_isolation(false)]
    pub fn mutate(&self, trace: &mut Trace, rand: &mut RandomSource) -> (r: MutationResult)
        ensures
            r is Skipped ==> final(trace)@ == old(trace)@,
            old(trace)@.steps.len() == 0 ==> r is Skipped,
            trace_well_typed(old(trace)@) ==> trace_well_typed(final(trace)@),
            final(trace)@.steps.len() == old(trace)@.steps.len(),
            final(trace)@.descriptors == old(trace)@.descriptors,
            r is Mutated ==> exists|st1: int, p1: Seq<usize>, st2: int, p2: Seq<usize>|
                {
                    &&& #[trigger] sized_position(old(trace)@, self.constraints, st1, p1)
                    &&& #[trigger] distinct_typed_pair(old(trace)@, st1, p1, st2, p2)
                    &&& replaced_with(
                        old(trace)@,
                        final(trace)@,
                        st2,
                        p2,
                        position_subterm(old(trace)@, st1, p1),
                    )
                },
            r is Skipped ==> (forall|st: int, p: Seq<usize>|
                !(#[trigger] sized_position(old(trace)@, self.constraints, st, p))) || (exists|
                st1: int,
                p1: Seq<usize>,
            |
                #[trigger] sized_position(old(trace)@, self.constraints, st1, p1) && (forall|
                    st2: int,
                    p2: Seq<usize>,
                |
                    !(#[trigger] distinct_typed_pair(old(trace)@, st1, p1, st2, p2)))),
    {
        let candidates = collect_input_paths(trace);
        let sized = filter_by_size(trace, &candidates, self.constraints);
        if sized.len() == 0 {
            proof {
                assert forall|st: int, p: Seq<usize>|
                    !(#[trigger] sized_position(trace@, self.constraints, st, p)) by {
                    if sized_position(trace@, self.constraints, st, p) {
                        assert(valid_position(trace@, st, p));
                    }
                }
            }
            return MutationResult::Skipped;
        }
        let ri = rand.between(sized.len() as u64) as usize;
        let ghost rstep = sized@[ri as int].step_index;
        let ghost rpath = sized@[ri as int].path@;
        let replacement = match get_subterm(trace, sized[ri].step_index, &sized[ri].path) {
            Some(s) => s,
            None => {
                proof {
                    assert(false);
                }
                return MutationResult::Skipped;
            },
        };
        let replacement_type = replacement.type_id();
        let mut targets: Vec<StepPath> = Vec::new();
        let mut i: usize = 0;
        while i < candidates.len()
            invariant
                i <= candidates@.len(),
                forall|j: int|
                    0 <= j < targets@.len() ==> distinct_typed_pair(
                        trace@,
                        rstep as int,
                        rpath,
                        (#[trigger] targets@[j]).step_index as int,
                        targets@[j].path@,
                    ),
                forall|m: int|
                    0 <= m < i && distinct_typed_pair(
                        trace@,
                        rstep as int,
                        rpath,
                        (#[trigger] candidates@[m]).step_index as int,
                        candidates@[m].path@,
                    ) ==> exists|j: int|
                        0 <= j < targets@.len() && (#[trigger] targets@[j]).step_index
                            == candidates@[m].step_index && targets@[j].path@ == candidates@[
                            m].path@,
            decreases candidates@.len() - i,
        {
            let same_position = candidates[i].step_index == sized[ri].step_index && path_eq(
                &candidates[i].path,
                &sized[ri].path,
            );
            if !same_position {
                match get_subterm(trace, candidates[i].step_index, &candidates[i].path) {
                    Some(sub) => {
                        let ghost pre = targets@;
                        if sub.type_id() == replacement_type {
                            targets.push(
                                StepPath {
                                    step_index: candidates[i].step_index,
                                    path: clone_path(&candidates[i].path),
                                },
                            );
                            proof {
                                assert(forall|j: int| 0 <= j < pre.len() ==> targets@[j] == pre[j]);
                                assert(targets@[pre.len() as int].step_index == candidates@[
                                    i as int].step_index && targets@[pre.len() as int].path@
                                    == candidates@[i as int].path@);
                            }
                        }
                    },
                    None => {
                        proof {
                            assert(!valid_position(
                                trace@,
                                candidates@[i as int].step_index as int,
                                candidates@[i as int].path@,
                            ));
                        }
                    },
                }
            }
            i += 1;
        }
        if targets.len() == 0 {
            proof {
                assert forall|st2: int, p2: Seq<usize>|
                    !(#[trigger] distinct_typed_pair(trace@, rstep as int, rpath, st2, p2)) by {
                    if distinct_typed_pair(trace@, rstep as int, rpath, st2, p2) {
                        assert(valid_position(trace@, st2, p2));
                        let m = choose|m: int|
                            0 <= m < candidates@.len() && (#[trigger] candidates@[
                                m]).step_index as int == st2 && candidates@[m].path@ == p2;
                        assert(targets@.len() > 0);
                    }
                }
                assert(sized_position(trace@, self.constraints, rstep as int, rpath));
            }
            return MutationResult::Skipped;
        }
        let ti = rand.between(targets.len() as u64) as usize;
        let step_index = targets[ti].step_index;
        proof {
            if trace_well_typed(trace@) {
                lemma_subterm_well_typed(
                    step_input_recipe(trace@, rstep as int)->Some_0,
                    rpath,
                );
            }
        }
        let result = replace_subterm_checked(trace, step_index, &targets[ti].path, &replacement);
        proof {
            assert(result is Mutated);
            assert(sized_position(old(trace)@, self.constraints, rstep as int, rpath)
                && distinct_typed_pair(
                old(trace)@,
                rstep as int,
                rpath,
                targets@[ti as int].step_index as int,
                targets@[ti as int].path@,
            ) && replaced_with(
                old(trace)@,
                trace@,
                targets@[ti as int].step_index as int,
                targets@[ti as int].path@,
                position_subterm(old(trace)@, rstep as int, rpath),
            ));
        }
        result
    }
}

/// Whether two paths hold the same indices.
fn path_eq(a: &Vec<usize>, b: &Vec<usize>) -> (r: bool)
    ensures
        r == (a@ == b@),
{
    if a.len() != b.len() {
        return false;
    }
    let mut i: usize = 0;
    while i < a.len()
        invariant
            i <= a@.len(),
            a@.len() == b@.len(),
            forall|j: int| 0 <= j < i ==> a@[j] == b@[j],
        decreases a@.len() - i,
    {
        if a[i] != b[i] {
            return false;
        }
        i += 1;
    }
    proof {
        assert(a@ =~= b@);
    }
    true
}

/// Replace the subterm at a candidate position by a clone of `s`,
/// re-checking that the position exists and the output types agree;
/// skipped otherwise.  Trace typing is preserved, and a valid,
/// type-matching position is always rewritten.
fn replace_subterm_checked(
    trace: &mut Trace,
    step_index: usize,
    path: &Vec<usize>,
    s: &Term,
) -> (r: MutationResult)
    ensures
        r is Skipped ==> final(trace)@ == old(trace)@,
        trace_well_typed(old(trace)@) && well_typed(s@) ==> trace_well_typed(final(trace)@),
        final(trace)@.steps.len() == old(trace)@.steps.len(),
        final(trace)@.descriptors == old(trace)@.descriptors,
        r is Mutated ==> {
            &&& valid_position(old(trace)@, step_index as int, path@)
            &&& term_type_id(position_subterm(old(trace)@, step_index as int, path@))
                == term_type_id(s@)
            &&& replaced_with(old(trace)@, final(trace)@, step_index as int, path@, s@)
        },
        valid_position(old(trace)@, step_index as int, path@) && term_type_id(
            position_subterm(old(trace)@, step_index as int, path@),
        ) == term_type_id(s@) ==> r is Mutated,
{
    let target = match get_subterm(trace, step_index, path) {
        Some(t) => t,
        None => {
            return MutationResult::Skipped;
        },
    };
    if target.type_id() != s.type_id() {
        return MutationResult::Skipped;
    }
    if step_index >= trace.steps.len() {
        proof {
            assert(!valid_position(trace@, step_index as int, path@));
            assert(false);
        }
        return MutationResult::Skipped;
    }
    proof {
        assert(steps_view(trace.steps@)[step_index as int] == trace.steps@[step_index as int]@);
    }
    let new_recipe_opt: Option<Term> = match &trace.steps[step_index].action {
        Action::Input(recipe) => {
            let r = recipe.replace_at(path, 0, s);
            proof {
                assert(path@.subrange(0, path@.len() as int) =~= path@);
            }
            r
        },
        Action::Output => {
            proof {
                assert(step_input_recipe(trace@, step_index as int) is None);
                assert(false);
            }
            None
        },
    };
    match new_recipe_opt {
        None => {
            proof {
                assert(false);
            }
            MutationResult::Skipped
        },
        Some(new_recipe) => {
            let ghost old_recipe = step_input_recipe(trace@, step_index as int)->Some_0;
            proof {
                if trace_well_typed(trace@) && well_typed(s@) {
                    assert(well_typed(old_recipe));
                    lemma_replace_preserves_typing(old_recipe, path@, s@);
                }
            }
            commit_recipe(trace, step_index, new_recipe);
            proof {
                assert(trace@.steps =~= old(trace)@.steps.update(
                    step_index as int,
                    StepV {
                        agent: old(trace)@.steps[step_index as int].agent,
                        action: ActionV::Input(replace_at_spec(old_recipe, path@, s@)),
                    },
                ));
                if trace_well_typed(old(trace)@) && well_typed(s@) {
                    assert forall|j: int| 0 <= j < trace@.steps.len() implies match (
                    #[trigger] trace@.steps[j]).action {
                        ActionV::Input(rc) => well_typed(rc),
                        ActionV::Output => true,
                    } by {
                        if j != step_index {
                            assert(trace@.steps[j] == old(trace)@.steps[j]);
                        }
                    }
                }
            }
            MutationResult::Mutated
        },
    }
}

/// REPLACE-MATCH: swap the function symbol of an application for a
/// different symbol of identical shape, keeping the children.
#[derive(Debug)]
pub struct ReplaceMatchMutator {
    pub constraints: TermConstraints,
}

impl ReplaceMatchMutator {
    /// A replace-match mutator under the given constraints.
    pub fn new(constraints: TermConstraints) -> (r: ReplaceMatchMutator)
        ensures
            r.constraints == constraints,
    {
        ReplaceMatchMutator { constraints }
    }

    /// Pick a random application and swap in a different symbol with
    /// the same argument types and return type, sampled from the
    /// signature; the children are retained.  Skipped exactly when no
    /// application exists, or the drawn application has no distinct
    /// same-shape symbol in the signature.
    #[verifier::loop_isolation(false)]
    pub fn mutate(
        &self,
        trace: &mut Trace,
        rand: &mut RandomSource,
        signature: &Signature,
    ) -> (r: MutationResult)
        ensures
            r is Skipped ==> final(trace)@ == old(trace)@,
            old(trace)@.steps.len() == 0 ==> r is Skipped,
            trace_well_typed(old(trace)@) ==> trace_well_typed(final(trace)@),
            final(trace)@.steps.len() == old(trace)@.steps.len(),
            final(trace)@.descriptors == old(trace)@.descriptors,
            r is Mutated ==> exists|st: int, p: Seq<usize>, g: crate::term::FunctionV|
                {
                    &&& #[trigger] replace_match_candidate(old(trace)@, signature@, st, p, g)
                    &&& replaced_with(
                        old(trace)@,
                        final(trace)@,
                        st,
                        p,
                        TermV::Application(
                            g,
                            position_subterm(old(trace)@, st, p)->Application_1,
                        ),
                    )
                },
            r is Skipped ==> (forall|st: int, p: Seq<usize>|
                !(#[trigger] app_position(old(trace)@, st, p))) || (exists|st: int, p: Seq<usize>|
                #[trigger] app_position(old(trace)@, st, p) && (forall|g: crate::term::FunctionV|
                    !(#[trigger] replace_match_candidate(old(trace)@, signature@, st, p, g)))),
    {
        let candidates = collect_input_paths(trace);
        let mut apps: Vec<StepPath> = Vec::new();
        let mut i: usize = 0;
        while i < candidates.len()
            invariant
                i <= candidates@.len(),
                forall|j: int|
                    0 <= j < apps@.len() ==> app_position(
                        trace@,
                        (#[trigger] apps@[j]).step_index as int,
                        apps@[j].path@,
                    ),
                forall|m: int|
                    0 <= m < i && app_position(
                        trace@,
                        (#[trigger] candidates@[m]).step_index as int,
                        candidates@[m].path@,
                    ) ==> exists|j: int|
                        0 <= j < apps@.len() && (#[trigger] apps@[j]).step_index == candidates@[
                            m].step_index && apps@[j].path@ == candidates@[m].path@,
            decreases candidates@.len() - i,
        {
            match get_subterm(trace, candidates[i].step_index, &candidates[i].path) {
                Some(sub) => {
                    let ghost pre = apps@;
                    match sub {
                        Term::Application(_, _) => {
                            apps.push(
                                StepPath {
                                    step_index: candidates[i].step_index,
                                    path: clone_path(&candidates[i].path),
                                },
                            );
                            proof {
                                assert(forall|j: int| 0 <= j < pre.len() ==> apps@[j] == pre[j]);
                                assert(apps@[pre.len() as int].step_index == candidates@[
                                    i as int].step_index && apps@[pre.len() as int].path@
                                    == candidates@[i as int].path@);
                            }
                        },
                        Term::Variable(_) => {},
                    }
                },
                None => {
                    proof {
                        assert(!valid_position(
                            trace@,
                            candidates@[i as int].step_index as int,
                            candidates@[i as int].path@,
                        ));
                    }
                },
            }
            i += 1;
        }
        if apps.len() == 0 {
            proof {
                assert forall|st: int, p: Seq<usize>|
                    !(#[trigger] app_position(trace@, st, p)) by {
                    if app_position(trace@, st, p) {
                        assert(valid_position(trace@, st, p));
                        let m = choose|m: int|
                            0 <= m < candidates@.len() && (#[trigger] candidates@[
                                m]).step_index as int == st && candidates@[m].path@ == p;
                        assert(apps@.len() > 0);
                    }
                }
            }
            return MutationResult::Skipped;
        }
        let ai = rand.between(apps.len() as u64) as usize;
        let step_index = apps[ai].step_index;
        let sub = match get_subterm(trace, step_index, &apps[ai].path) {
            Some(s) => s,
            None => {
                proof {
                    assert(false);
                }
                return MutationResult::Skipped;
            },
        };
        match sub {
            Term::Variable(_) => {
                proof {
                    assert(false);
                }
                MutationResult::Skipped
            },
            Term::Application(f, args) => {
                let mut alternatives: Vec<FunctionDefinition> = Vec::new();
                let mut k: usize = 0;
                while k < signature.functions.len()
                    invariant
                        k <= signature.functions@.len(),
                        forall|j: int|
                            0 <= j < alternatives@.len() ==> {
                                &&& same_shape_alternative((#[trigger] alternatives@[j])@, f@)
                                &&& def_in_sig(signature@, alternatives@[j]@)
                            },
                        forall|kk: int|
                            0 <= kk < k && same_shape_alternative(
                                #[trigger] signature@.functions[kk],
                                f@,
                            ) ==> exists|j: int|
                                0 <= j < alternatives@.len() && (#[trigger] alternatives@[j])@
                                    == signature@.functions[kk],
                    decreases signature.functions@.len() - k,
                {
                    proof {
                        assert(signature@.functions[k as int] == signature.functions@[k as int]@);
                    }
                    let d = &signature.functions[k];
                    if !str_eq(d.shape.name.as_str(), f.shape.name.as_str())
                        && d.shape.return_type.id == f.shape.return_type.id
                        && d.shape.same_argument_types(&f.shape) {
                        let ghost pre = alternatives@;
                        let cloned = d.deep_clone();
                        proof {
                            assert(def_in_sig(signature@, cloned@));
                        }
                        alternatives.push(cloned);
                        proof {
                            assert(forall|j: int|
                                0 <= j < pre.len() ==> alternatives@[j] == pre[j]);
                            assert(alternatives@[pre.len() as int]@ == signature@.functions[
                                k as int]);
                        }
                    }
                    k += 1;
                }
                if alternatives.len() == 0 {
                    proof {
                        assert(app_position(
                            trace@,
                            step_index as int,
                            apps@[ai as int].path@,
                        ));
                        assert forall|g: crate::term::FunctionV|
                            !(#[trigger] replace_match_candidate(
                                trace@,
                                signature@,
                                step_index as int,
                                apps@[ai as int].path@,
                                g,
                            )) by {
                            if replace_match_candidate(
                                trace@,
                                signature@,
                                step_index as int,
                                apps@[ai as int].path@,
                                g,
                            ) {
                                let kk = choose|kk: int|
                                    0 <= kk < signature@.functions.len() && signature@.functions[
                                        kk] == g;
                                assert(position_subterm(
                                    trace@,
                                    step_index as int,
                                    apps@[ai as int].path@,
                                )->Application_0 == f@);
                                assert(same_shape_alternative(signature@.functions[kk], f@));
                                assert(alternatives@.len() > 0);
                            }
                        }
                    }
                    return MutationResult::Skipped;
                }
                let di = rand.between(alternatives.len() as u64) as usize;
                let picked = alternatives[di].deep_clone();
                let ghost pickedv = picked@;
                let ghost fv = f@;
                let ghost argsv = terms_view(args@);
                let new_sub = Term::Application(picked, args);
                proof {
                    if trace_well_typed(trace@) {
                        lemma_subterm_well_typed(
                            step_input_recipe(trace@, step_index as int)->Some_0,
                            apps@[ai as int].path@,
                        );
                    }
                    if well_typed(TermV::Application(fv, argsv)) {
                        assert(argsv.len() == arg_ids(fv.shape.argument_types).len());
                        assert(arg_ids(pickedv.shape.argument_types).len() == pickedv
                            .shape.argument_types.len());
                        assert forall|j: int| 0 <= j < argsv.len() implies #[trigger] term_type_id(
                            argsv[j],
                        ) == pickedv.shape.argument_types[j].id by {
                            assert(arg_ids(pickedv.shape.argument_types)[j] == pickedv
                                .shape.argument_types[j].id);
                            assert(arg_ids(fv.shape.argument_types)[j] == fv
                                .shape.argument_types[j].id);
                        }
                        assert(well_typed(new_sub@));
                    }
                    assert(term_type_id(new_sub@) == term_type_id(
                        TermV::Application(fv, argsv),
                    ));
                }
                let result = replace_subterm_checked(
                    trace,
                    step_index,
                    &apps[ai].path,
                    &new_sub,
                );
                proof {
                    assert(result is Mutated);
                    assert(position_subterm(
                        old(trace)@,
                        step_index as int,
                        apps@[ai as int].path@,
                    ) == TermV::Application(fv, argsv));
                    assert(replace_match_candidate(
                        old(trace)@,
                        signature@,
                        step_index as int,
                        apps@[ai as int].path@,
                        pickedv,
                    ) && replaced_with(
                        old(trace)@,
                        trace@,
                        step_index as int,
                        apps@[ai as int].path@,
                        TermV::Application(
                            pickedv,
                            position_subterm(
                                old(trace)@,
                                step_index as int,
                                apps@[ai as int].path@,
                            )->Application_1,
                        ),
                    ));
                }
                result
            },
        }
    }
}

/// REMOVE-AND-LIFT: inside an application, replace a child by one of
/// the child's own children of the same output type, contracting the
/// term.
#[derive(Debug)]
pub struct RemoveAndLiftMutator {
    pub constraints: TermConstraints,
}

impl RemoveAndLiftMutator {
    /// A remove-and-lift mutator under the given constraints.
    pub fn new(constraints: TermConstraints) -> (r: RemoveAndLiftMutator)
        ensures
            r.constraints == constraints,
    {
        RemoveAndLiftMutator { constraints }
    }

    /// Find a child whose own child has the child's output type, and
    /// lift the grand-child into the child's place.  Skipped exactly
    /// when no such child and grand-child pair exists.
    #[verifier::loop_isolation(false)]
    pub fn mutate(&self, trace: &mut Trace, rand: &mut RandomSource) -> (r: MutationResult)
        ensures
            r is Skipped ==> final(trace)@ == old(trace)@,
            old(trace)@.steps.len() == 0 ==> r is Skipped,
            trace_well_typed(old(trace)@) ==> trace_well_typed(final(trace)@),
            final(trace)@.steps.len() == old(trace)@.steps.len(),
            final(trace)@.descriptors == old(trace)@.descriptors,
            r is Mutated ==> exists|st: int, p: Seq<usize>, q: Seq<usize>|
                {
                    &&& #[trigger] remove_lift_candidate(old(trace)@, st, p, q)
                    &&& replaced_with(
                        old(trace)@,
                        final(trace)@,
                        st,
                        p,
                        position_subterm(old(trace)@, st, q),
                    )
                    &&& term_size(
                        replace_at_spec(
                            step_input_recipe(old(trace)@, st)->Some_0,
                            p,
                            position_subterm(old(trace)@, st, q),
                        ),
                    ) < term_size(step_input_recipe(old(trace)@, st)->Some_0)
                },
            r is Skipped ==> forall|st: int, p: Seq<usize>, q: Seq<usize>|
                !(#[trigger] remove_lift_candidate(old(trace)@, st, p, q)),
    {
        let candidates = collect_input_paths(trace);
        let mut child_paths: Vec<StepPath> = Vec::new();
        let mut grand_paths: Vec<StepPath> = Vec::new();
        let mut i: usize = 0;
        while i < candidates.len()
            invariant
                i <= candidates@.len(),
                child_paths@.len() == grand_paths@.len(),
                forall|j: int|
                    0 <= j < child_paths@.len() ==> (#[trigger] child_paths@[j]).step_index
                        == grand_paths@[j].step_index && remove_lift_candidate(
                        trace@,
                        child_paths@[j].step_index as int,
                        child_paths@[j].path@,
                        grand_paths@[j].path@,
                    ),
                forall|st: int, p: Seq<usize>, q: Seq<usize>|
                    (#[trigger] remove_lift_candidate(trace@, st, p, q) && exists|m: int|
                        0 <= m < i && (#[trigger] candidates@[m]).step_index as int == st
                            && candidates@[m].path@ == p) ==> exists|j: int|
                        0 <= j < child_paths@.len() && (#[trigger] child_paths@[
                            j]).step_index as int == st && child_paths@[j].path@ == p
                            && grand_paths@[j].path@ == q,
            decreases candidates@.len() - i,
        {
            let cand_step = candidates[i].step_index;
            let ghost stv = cand_step as int;
            let ghost pv = candidates@[i as int].path@;
            match get_subterm(trace, cand_step, &candidates[i].path) {
                Some(sub) => {
                    if candidates[i].path.len() >= 1 {
                        match &sub {
                            Term::Application(_, grands) => {
                                let ghost grandv = terms_view(grands@);
                                let sub_type = sub.type_id();
                                let mut gi: usize = 0;
                                while gi < grands.len()
                                    invariant
                                        gi <= grands@.len(),
                                        child_paths@.len() == grand_paths@.len(),
                                        forall|j: int|
                                            0 <= j < child_paths@.len() ==> (
                                            #[trigger] child_paths@[j]).step_index
                                                == grand_paths@[j].step_index
                                                && remove_lift_candidate(
                                                trace@,
                                                child_paths@[j].step_index as int,
                                                child_paths@[j].path@,
                                                grand_paths@[j].path@,
                                            ),
                                        forall|st: int, p: Seq<usize>, q: Seq<usize>|
                                            (#[trigger] remove_lift_candidate(trace@, st, p, q)
                                                && exists|m: int|
                                                0 <= m < i && (#[trigger] candidates@[
                                                    m]).step_index as int == st && candidates@[
                                                    m].path@ == p) ==> exists|j: int|
                                                0 <= j < child_paths@.len() && (
                                                #[trigger] child_paths@[j]).step_index as int
                                                    == st && child_paths@[j].path@ == p
                                                    && grand_paths@[j].path@ == q,
                                        forall|q: Seq<usize>|
                                            (#[trigger] remove_lift_candidate(trace@, stv, pv, q)
                                                && q[pv.len() as int] < gi) ==> exists|j: int|
                                                0 <= j < child_paths@.len() && (
                                                #[trigger] child_paths@[j]).step_index as int
                                                    == stv && child_paths@[j].path@ == pv
                                                    && grand_paths@[j].path@ == q,
                                    decreases grands@.len() - gi,
                                {
                                    proof {
                                        assert(grandv[gi as int] == grands@[gi as int]@);
                                        lemma_subterm_push(
                                            step_input_recipe(trace@, stv)->Some_0,
                                            pv,
                                            gi,
                                        );
                                    }
                                    if grands[gi].type_id() == sub_type {
                                        let mut cp = clone_path(&candidates[i].path);
                                        let mut gp = clone_path(&candidates[i].path);
                                        gp.push(gi);
                                        let ghost pre_c = child_paths@;
                                        let ghost gpv = gp@;
                                        child_paths.push(
                                            StepPath { step_index: cand_step, path: cp },
                                        );
                                        grand_paths.push(
                                            StepPath { step_index: cand_step, path: gp },
                                        );
                                        proof {
                                            assert(gpv =~= pv.push(gi));
                                            assert(gpv.subrange(0, pv.len() as int) =~= pv);
                                            assert(remove_lift_candidate(trace@, stv, pv, gpv));
                                            assert(forall|j: int|
                                                0 <= j < pre_c.len() ==> child_paths@[j]
                                                    == pre_c[j]);
                                            assert(child_paths@[
                                                pre_c.len() as int].step_index as int == stv
                                                && child_paths@[pre_c.len() as int].path@ == pv
                                                && grand_paths@[pre_c.len() as int].path@
                                                == gpv);
                                        }
                                    }
                                    proof {
                                        assert forall|q: Seq<usize>|
                                            (#[trigger] remove_lift_candidate(trace@, stv, pv, q)
                                                && q[pv.len() as int] < gi + 1) implies exists|
                                            j: int,
                                        |
                                            0 <= j < child_paths@.len() && (
                                            #[trigger] child_paths@[j]).step_index as int == stv
                                                && child_paths@[j].path@ == pv && grand_paths@[
                                                j].path@ == q by {
                                            if q[pv.len() as int] == gi {
                                                assert(q =~= pv.push(q[pv.len() as int]));
                                                lemma_subterm_push(
                                                    step_input_recipe(trace@, stv)->Some_0,
                                                    pv,
                                                    gi,
                                                );
                                                assert(position_subterm(trace@, stv, q)
                                                    == grandv[gi as int]);
                                                assert(term_type_id(grandv[gi as int])
                                                    == term_type_id(sub@));
                                            }
                                        }
                                    }
                                    gi += 1;
                                }
                                proof {
                                    assert forall|st: int, p: Seq<usize>, q: Seq<usize>|
                                        (#[trigger] remove_lift_candidate(trace@, st, p, q)
                                            && exists|m: int|
                                            0 <= m < i + 1 && (#[trigger] candidates@[
                                                m]).step_index as int == st && candidates@[
                                                m].path@ == p) implies exists|j: int|
                                        0 <= j < child_paths@.len() && (#[trigger] child_paths@[
                                            j]).step_index as int == st && child_paths@[j].path@
                                            == p && grand_paths@[j].path@ == q by {
                                        if st == stv && p == pv {
                                            assert(q =~= pv.push(q[pv.len() as int]));
                                            lemma_subterm_push(
                                                step_input_recipe(trace@, stv)->Some_0,
                                                pv,
                                                q[pv.len() as int],
                                            );
                                            assert((q[pv.len() as int] as int) < grandv.len());
                                        }
                                    }
                                }
                            },
                            Term::Variable(_) => {
                                proof {
                                    assert forall|st: int, p: Seq<usize>, q: Seq<usize>|
                                        (#[trigger] remove_lift_candidate(trace@, st, p, q)
                                            && exists|m: int|
                                            0 <= m < i + 1 && (#[trigger] candidates@[
                                                m]).step_index as int == st && candidates@[
                                                m].path@ == p) implies exists|j: int|
                                        0 <= j < child_paths@.len() && (#[trigger] child_paths@[
                                            j]).step_index as int == st && child_paths@[j].path@
                                            == p && grand_paths@[j].path@ == q by {
                                        if st == stv && p == pv {
                                            assert(q =~= pv.push(q[pv.len() as int]));
                                            lemma_subterm_push(
                                                step_input_recipe(trace@, stv)->Some_0,
                                                pv,
                                                q[pv.len() as int],
                                            );
                                        }
                                    }
                                }
                            },
                        }
                    } else {
                        proof {
                            assert forall|st: int, p: Seq<usize>, q: Seq<usize>|
                                (#[trigger] remove_lift_candidate(trace@, st, p, q) && exists|
                                    m: int,
                                |
                                    0 <= m < i + 1 && (#[trigger] candidates@[
                                        m]).step_index as int == st && candidates@[m].path@
                                        == p) implies exists|j: int|
                                0 <= j < child_paths@.len() && (#[trigger] child_paths@[
                                    j]).step_index as int == st && child_paths@[j].path@ == p
                                    && grand_paths@[j].path@ == q by {
                                if st == stv && p == pv {
                                    assert(p.len() == 0);
                                }
                            }
                        }
                    }
                },
                None => {
                    proof {
                        assert(!valid_position(trace@, stv, pv));
                        assert forall|st: int, p: Seq<usize>, q: Seq<usize>|
                            (#[trigger] remove_lift_candidate(trace@, st, p, q) && exists|
                                m: int,
                            |
                                0 <= m < i + 1 && (#[trigger] candidates@[m]).step_index as int
                                    == st && candidates@[m].path@ == p) implies exists|j: int|
                            0 <= j < child_paths@.len() && (#[trigger] child_paths@[
                                j]).step_index as int == st && child_paths@[j].path@ == p
                                && grand_paths@[j].path@ == q by {}
                    }
                },
            }
            i += 1;
        }
        if child_paths.len() == 0 {
            proof {
                assert forall|st: int, p: Seq<usize>, q: Seq<usize>|
                    !(#[trigger] remove_lift_candidate(trace@, st, p, q)) by {
                    if remove_lift_candidate(trace@, st, p, q) {
                        assert(valid_position(trace@, st, p));
                        let m = choose|m: int|
                            0 <= m < candidates@.len() && (#[trigger] candidates@[
                                m]).step_index as int == st && candidates@[m].path@ == p;
                        assert(child_paths@.len() > 0);
                    }
                }
            }
            return MutationResult::Skipped;
        }
        let pick = rand.between(child_paths.len() as u64) as usize;
        let step_index = child_paths[pick].step_index;
        let grand = match get_subterm(trace, step_index, &grand_paths[pick].path) {
            Some(g) => g,
            None => {
                proof {
                    assert(grand_paths@[pick as int].step_index == child_paths@[
                        pick as int].step_index);
                    assert(false);
                }
                return MutationResult::Skipped;
            },
        };
        proof {
            if trace_well_typed(trace@) {
                lemma_subterm_well_typed(
                    step_input_recipe(trace@, step_index as int)->Some_0,
                    grand_paths@[pick as int].path@,
                );
            }
        }
        let result = replace_subterm_checked(
            trace,
            step_index,
            &child_paths[pick].path,
            &grand,
        );
        proof {
            assert(result is Mutated);
            let stv = step_index as int;
            let p = child_paths@[pick as int].path@;
            let q = grand_paths@[pick as int].path@;
            let recipe = step_input_recipe(old(trace)@, stv)->Some_0;
            let child = position_subterm(old(trace)@, stv, p);
            let lifted = position_subterm(old(trace)@, stv, q);
            assert(q =~= p.push(q[p.len() as int]));
            lemma_subterm_push(recipe, p, q[p.len() as int]);
            lemma_child_size_lt(child, q[p.len() as int] as int);
            lemma_replace_size(recipe, p, lifted);
            assert(term_size(replace_at_spec(recipe, p, lifted)) < term_size(recipe));
            assert(remove_lift_candidate(old(trace)@, stv, p, q) && replaced_with(
                old(trace)@,
                trace@,
                stv,
                p,
                lifted,
            ));
        }
        result
    }
}

/// SWAP: exchange two distinct subterms of identical output type,
/// anywhere in the trace.
#[derive(Debug)]
pub struct SwapMutator {
    pub constraints: TermConstraints,
}

impl SwapMutator {
    /// A swap mutator under the given constraints.
    pub fn new(constraints: TermConstraints) -> (r: SwapMutator)
        ensures
            r.constraints == constraints,
    {
        SwapMutator { constraints }
    }

    /// Exchange two subterms of the same output type, anywhere in the
    /// trace; positions whose subtrees overlap are not candidates.
    /// Skipped exactly when no subterm lies in the sampling window, or
    /// the drawn subterm has no non-overlapping same-type counterpart.
    #[verifier::loop_isolation(false)]
    pub fn mutate(&self, trace: &mut Trace, rand: &mut RandomSource) -> (r: MutationResult)
        ensures
            r is Skipped ==> final(trace)@ == old(trace)@,
            old(trace)@.steps.len() == 0 ==> r is Skipped,
            trace_well_typed(old(trace)@) ==> trace_well_typed(final(trace)@),
            final(trace)@.steps.len() == old(trace)@.steps.len(),
            final(trace)@.descriptors == old(trace)@.descriptors,
            r is Mutated ==> exists|st1: int, p1: Seq<usize>, st2: int, p2: Seq<usize>|
                {
                    &&& #[trigger] sized_position(old(trace)@, self.constraints, st1, p1)
                    &&& #[trigger] swap_partner(old(trace)@, st1, p1, st2, p2)
                    &&& swapped(old(trace)@, final(trace)@, st1, p1, st2, p2)
                },
            r is Skipped ==> (forall|st: int, p: Seq<usize>|
                !(#[trigger] sized_position(old(trace)@, self.constraints, st, p))) || (exists|
                st1: int,
                p1: Seq<usize>,
            |
                #[trigger] sized_position(old(trace)@, self.constraints, st1, p1) && (forall|
                    st2: int,
                    p2: Seq<usize>,
                |
                    !(#[trigger] swap_partner(old(trace)@, st1, p1, st2, p2)))),
    {
        let candidates = collect_input_paths(trace);
        let sized = filter_by_size(trace, &candidates, self.constraints);
        if sized.len() == 0 {
            proof {
                assert forall|st: int, p: Seq<usize>|
                    !(#[trigger] sized_position(trace@, self.constraints, st, p)) by {
                    if sized_position(trace@, self.constraints, st, p) {
                        assert(valid_position(trace@, st, p));
                    }
                }
            }
            return MutationResult::Skipped;
        }
        let ai = rand.between(sized.len() as u64) as usize;
        let a_step = sized[ai].step_index;
        let ghost apath = sized@[ai as int].path@;
        let a = match get_subterm(trace, a_step, &sized[ai].path) {
            Some(s) => s,
            None => {
                proof {
                    assert(false);
                }
                return MutationResult::Skipped;
            },
        };
        let a_type = a.type_id();
        let mut targets: Vec<StepPath> = Vec::new();
        let mut i: usize = 0;
        while i < candidates.len()
            invariant
                i <= candidates@.len(),
                forall|j: int|
                    0 <= j < targets@.len() ==> swap_partner(
                        trace@,
                        a_step as int,
                        apath,
                        (#[trigger] targets@[j]).step_index as int,
                        targets@[j].path@,
                    ),
                forall|m: int|
                    0 <= m < i && swap_partner(
                        trace@,
                        a_step as int,
                        apath,
                        (#[trigger] candidates@[m]).step_index as int,
                        candidates@[m].path@,
                    ) ==> exists|j: int|
                        0 <= j < targets@.len() && (#[trigger] targets@[j]).step_index
                            == candidates@[m].step_index && targets@[j].path@ == candidates@[
                            m].path@,
            decreases candidates@.len() - i,
        {
            let same_step = candidates[i].step_index == a_step;
            let overlapping = same_step && (check_path_prefix(
                &candidates[i].path,
                &sized[ai].path,
            ) || check_path_prefix(&sized[ai].path, &candidates[i].path));
            if !overlapping {
                match get_subterm(trace, candidates[i].step_index, &candidates[i].path) {
                    Some(sub) => {
                        let ghost pre = targets@;
                        if sub.type_id() == a_type {
                            targets.push(
                                StepPath {
                                    step_index: candidates[i].step_index,
                                    path: clone_path(&candidates[i].path),
                                },
                            );
                            proof {
                                if candidates@[i as int].step_index == a_step {
                                    if candidates@[i as int].path@ == apath {
                                        assert(apath.subrange(0, apath.len() as int) =~= apath);
                                        assert(path_is_prefix(
                                            candidates@[i as int].path@,
                                            apath,
                                        ));
                                    }
                                }
                                assert(forall|j: int|
                                    0 <= j < pre.len() ==> targets@[j] == pre[j]);
                                assert(targets@[pre.len() as int].step_index == candidates@[
                                    i as int].step_index && targets@[pre.len() as int].path@
                                    == candidates@[i as int].path@);
                            }
                        }
                    },
                    None => {
                        proof {
                            assert(!valid_position(
                                trace@,
                                candidates@[i as int].step_index as int,
                                candidates@[i as int].path@,
                            ));
                        }
                    },
                }
            }
            i += 1;
        }
        if targets.len() == 0 {
            proof {
                assert forall|st2: int, p2: Seq<usize>|
                    !(#[trigger] swap_partner(trace@, a_step as int, apath, st2, p2)) by {
                    if swap_partner(trace@, a_step as int, apath, st2, p2) {
                        assert(valid_position(trace@, st2, p2));
                        let m = choose|m: int|
                            0 <= m < candidates@.len() && (#[trigger] candidates@[
                                m]).step_index as int == st2 && candidates@[m].path@ == p2;
                        assert(targets@.len() > 0);
                    }
                }
                assert(sized_position(trace@, self.constraints, a_step as int, apath));
            }
            return MutationResult::Skipped;
        }
        let bi = rand.between(targets.len() as u64) as usize;
        let b_step = targets[bi].step_index;
        let ghost bpath = targets@[bi as int].path@;
        let b = match get_subterm(trace, b_step, &targets[bi].path) {
            Some(s) => s,
            None => {
                proof {
                    assert(false);
                }
                return MutationResult::Skipped;
            },
        };
        proof {
            if trace_well_typed(trace@) {
                lemma_subterm_well_typed(
                    step_input_recipe(trace@, a_step as int)->Some_0,
                    apath,
                );
                lemma_subterm_well_typed(
                    step_input_recipe(trace@, b_step as int)->Some_0,
                    bpath,
                );
            }
        }
        if b_step == a_step {
            // one recipe holds both positions; rewrite it in one step
            if a_step >= trace.steps.len() {
                proof {
                    assert(!valid_position(trace@, a_step as int, apath));
                    assert(false);
                }
                return MutationResult::Skipped;
            }
            proof {
                assert(steps_view(trace.steps@)[a_step as int] == trace.steps@[a_step as int]@);
            }
            let new_recipe_opt: Option<Term> = match &trace.steps[a_step].action {
                Action::Input(recipe) => {
                    let ghost rv = recipe@;
                    let t1opt = recipe.replace_at(&targets[bi].path, 0, &a);
                    proof {
                        assert(targets@[bi as int].path@.subrange(0, bpath.len() as int)
                            =~= bpath);
                    }
                    match t1opt {
                        None => {
                            proof {
                                assert(false);
                            }
                            None
                        },
                        Some(t1) => {
                            proof {
                                lemma_replace_disjoint(rv, bpath, a@, apath);
                                assert(subterm_at(t1@, apath) == subterm_at(rv, apath));
                                if trace_well_typed(trace@) {
                                    lemma_replace_preserves_typing(rv, bpath, a@);
                                    lemma_replace_preserves_typing(t1@, apath, b@);
                                }
                            }
                            let t2opt = t1.replace_at(&sized[ai].path, 0, &b);
                            proof {
                                assert(sized@[ai as int].path@.subrange(0, apath.len() as int)
                                    =~= apath);
                            }
                            match t2opt {
                                None => {
                                    proof {
                                        assert(false);
                                    }
                                    None
                                },
                                Some(t2) => Some(t2),
                            }
                        },
                    }
                },
                Action::Output => {
                    proof {
                        assert(step_input_recipe(trace@, a_step as int) is None);
                        assert(false);
                    }
                    None
                },
            };
            match new_recipe_opt {
                None => {
                    proof {
                        assert(false);
                    }
                    MutationResult::Skipped
                },
                Some(new_recipe) => {
                    let ghost rv = step_input_recipe(trace@, a_step as int)->Some_0;
                    commit_recipe(trace, a_step, new_recipe);
                    proof {
                        assert(trace@.steps =~= old(trace)@.steps.update(
                            a_step as int,
                            StepV {
                                agent: old(trace)@.steps[a_step as int].agent,
                                action: ActionV::Input(
                                    replace_at_spec(
                                        replace_at_spec(rv, bpath, a@),
                                        apath,
                                        b@,
                                    ),
                                ),
                            },
                        ));
                        assert(swapped(
                            old(trace)@,
                            trace@,
                            a_step as int,
                            apath,
                            b_step as int,
                            bpath,
                        ));
                        if trace_well_typed(old(trace)@) {
                            assert forall|j: int| 0 <= j < trace@.steps.len() implies match (
                            #[trigger] trace@.steps[j]).action {
                                ActionV::Input(rc) => well_typed(rc),
                                ActionV::Output => true,
                            } by {
                                if j != a_step {
                                    assert(trace@.steps[j] == old(trace)@.steps[j]);
                                }
                            }
                        }
                        assert(sized_position(
                            old(trace)@,
                            self.constraints,
                            a_step as int,
                            apath,
                        ) && swap_partner(old(trace)@, a_step as int, apath, b_step as int, bpath));
                    }
                    MutationResult::Mutated
                },
            }
        } else {
            // independent steps: rewrite each through the checked helper
            let first = replace_subterm_checked(trace, b_step, &targets[bi].path, &a);
            proof {
                assert(first is Mutated);
                assert(step_input_recipe(trace@, a_step as int) == step_input_recipe(
                    old(trace)@,
                    a_step as int,
                ));
            }
            let second = replace_subterm_checked(trace, a_step, &sized[ai].path, &b);
            proof {
                assert(second is Mutated);
                assert(trace@.steps =~= old(trace)@.steps.update(
                    b_step as int,
                    StepV {
                        agent: old(trace)@.steps[b_step as int].agent,
                        action: ActionV::Input(
                            replace_at_spec(
                                step_input_recipe(old(trace)@, b_step as int)->Some_0,
                                bpath,
                                a@,
                            ),
                        ),
                    },
                ).update(
                    a_step as int,
                    StepV {
                        agent: old(trace)@.steps[a_step as int].agent,
                        action: ActionV::Input(
                            replace_at_spec(
                                step_input_recipe(old(trace)@, a_step as int)->Some_0,
                                apath,
                                b@,
                            ),
                        ),
                    },
                ));
                assert(swapped(
                    old(trace)@,
                    trace@,
                    a_step as int,
                    apath,
                    b_step as int,
                    bpath,
                ));
                assert(sized_position(old(trace)@, self.constraints, a_step as int, apath)
                    && swap_partner(old(trace)@, a_step as int, apath, b_step as int, bpath));
            }
            MutationResult::Mutated
        }
    }
}

} // verus!
