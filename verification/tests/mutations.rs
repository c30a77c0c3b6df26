//! The six mutators: skip-safety, the skip fixpoint, and reachability
//! of the weak cipher suite through replace-match.

use tlspuffin::agent::AgentName;
use tlspuffin::fn_impl::tls_signature;
use tlspuffin::mutations::MutationResult;
use tlspuffin::mutations::RandomSource;
use tlspuffin::mutations::RemoveAndLiftMutator;
use tlspuffin::mutations::RepeatMutator;
use tlspuffin::mutations::ReplaceMatchMutator;
use tlspuffin::mutations::ReplaceReuseMutator;
use tlspuffin::mutations::SkipMutator;
use tlspuffin::mutations::SwapMutator;
use tlspuffin::mutations::TermConstraints;
use tlspuffin::seeds::seed_client_attacker12;
use tlspuffin::seeds::seed_successful12;
use tlspuffin::serialize::serialize_trace;
use tlspuffin::trace::check_trace_well_typed;
use tlspuffin::trace::Trace;

fn constraints() -> TermConstraints {
    TermConstraints { min_term_size: 0, max_term_size: 300 }
}

fn empty_trace() -> Trace {
    Trace { steps: Vec::new(), descriptors: Vec::new() }
}

fn trace_debug(t: &Trace) -> String {
    format!("{:?}", serialize_trace(t))
}

#[test]
fn skip_fixpoint_on_five_step_trace() {
    // Applying Skip repeatedly to a 5-step trace until it is empty
    // yields exactly 5 mutations followed by skips forever.
    let mut trace = seed_client_attacker12(AgentName::first());
    assert_eq!(trace.steps.len(), 5);
    let skip = SkipMutator::new(constraints());
    let mut rand = RandomSource::with_seed(42);
    for expected_len in (0..5).rev() {
        let r = skip.mutate(&mut trace, &mut rand);
        assert_eq!(r, MutationResult::Mutated);
        assert_eq!(trace.steps.len(), expected_len);
    }
    for _ in 0..10 {
        let r = skip.mutate(&mut trace, &mut rand);
        assert_eq!(r, MutationResult::Skipped);
        assert_eq!(trace.steps.len(), 0);
    }
}

#[test]
fn repeat_grows_and_preserves_typing() {
    let client = AgentName::first();
    let server = client.next();
    let mut trace = seed_successful12(client, server);
    let repeat = RepeatMutator::new(constraints());
    let mut rand = RandomSource::with_seed(7);
    let before = trace.steps.len();
    assert_eq!(repeat.mutate(&mut trace, &mut rand), MutationResult::Mutated);
    assert_eq!(trace.steps.len(), before + 1);
    assert!(check_trace_well_typed(&trace));
}

#[test]
fn mutators_skip_on_empty_trace() {
    let signature = tls_signature();
    let mut rand = RandomSource::with_seed(3);
    let mut t = empty_trace();
    let before = trace_debug(&t);
    assert_eq!(RepeatMutator::new(constraints()).mutate(&mut t, &mut rand), MutationResult::Skipped);
    assert_eq!(SkipMutator::new(constraints()).mutate(&mut t, &mut rand), MutationResult::Skipped);
    assert_eq!(
        ReplaceReuseMutator::new(constraints()).mutate(&mut t, &mut rand),
        MutationResult::Skipped
    );
    assert_eq!(
        ReplaceMatchMutator::new(constraints()).mutate(&mut t, &mut rand, &signature),
        MutationResult::Skipped
    );
    assert_eq!(
        RemoveAndLiftMutator::new(constraints()).mutate(&mut t, &mut rand),
        MutationResult::Skipped
    );
    assert_eq!(SwapMutator::new(constraints()).mutate(&mut t, &mut rand), MutationResult::Skipped);
    assert_eq!(trace_debug(&t), before);
}

#[test]
fn replace_reuse_preserves_typing() {
    let client = AgentName::first();
    let server = client.next();
    let mutator = ReplaceReuseMutator::new(constraints());
    let mut mutated = 0;
    for seed in 0..40 {
        let mut trace = seed_successful12(client, server);
        let mut rand = RandomSource::with_seed(seed);
        if mutator.mutate(&mut trace, &mut rand) == MutationResult::Mutated {
            mutated += 1;
        }
        assert!(check_trace_well_typed(&trace));
    }
    assert!(mutated > 0, "replace-reuse never mutated");
}

#[test]
fn swap_preserves_typing() {
    let client = AgentName::first();
    let server = client.next();
    let mutator = SwapMutator::new(constraints());
    let mut mutated = 0;
    for seed in 0..40 {
        let mut trace = seed_successful12(client, server);
        let mut rand = RandomSource::with_seed(seed);
        if mutator.mutate(&mut trace, &mut rand) == MutationResult::Mutated {
            mutated += 1;
        }
        assert!(check_trace_well_typed(&trace));
    }
    assert!(mutated > 0, "swap never mutated");
}

#[test]
fn remove_and_lift_contracts_terms() {
    let server = AgentName::first();
    let mutator = RemoveAndLiftMutator::new(constraints());
    let mut mutated = 0;
    for seed in 0..60 {
        let mut trace = seed_client_attacker12(server);
        let before = trace_debug(&trace);
        let mut rand = RandomSource::with_seed(seed);
        match mutator.mutate(&mut trace, &mut rand) {
            MutationResult::Mutated => {
                mutated += 1;
                assert_ne!(trace_debug(&trace), before);
            },
            MutationResult::Skipped => assert_eq!(trace_debug(&trace), before),
        }
        assert!(check_trace_well_typed(&trace));
    }
    assert!(mutated > 0, "remove-and-lift never mutated");
}

#[test]
fn replace_match_reaches_weak_export_cipher_suite() {
    // In the synthesized-client seed, the only same-shape alternative
    // to the TLS 1.2 suite constant is the weak export suite; after
    // enough one-step replace-match mutations it must appear, and
    // every mutated trace stays well typed.
    let server = AgentName::first();
    let signature = tls_signature();
    let mutator = ReplaceMatchMutator::new(constraints());
    let mut reached_weak_suite = false;
    let mut mutated = 0;
    for seed in 0..120 {
        let mut trace = seed_client_attacker12(server);
        let mut rand = RandomSource::with_seed(seed);
        if mutator.mutate(&mut trace, &mut rand, &signature) == MutationResult::Mutated {
            mutated += 1;
            assert!(check_trace_well_typed(&trace));
            if trace_debug(&trace).contains("fn_weak_export_cipher_suite") {
                reached_weak_suite = true;
            }
        }
    }
    assert!(mutated > 0, "replace-match never mutated");
    assert!(reached_weak_suite, "the weak export suite was never reached");
}
