//! Protocol-level grouping: the signature and the seed corpus that
//! together describe fuzzing the TLS protocol.

use vstd::prelude::*;
use crate::agent::AgentName;
use crate::fn_impl::catalog_spec;
use crate::fn_impl::tls_signature;
use crate::fn_impl::CATALOG_LEN;
use crate::seeds::seed_client_attacker12;
use crate::seeds::seed_client_attacker12_spec;
use crate::seeds::seed_cve_2021_3449;
use crate::seeds::seed_cve_2021_3449_spec;
use crate::seeds::seed_successful12;
use crate::seeds::seed_successful12_spec;
use crate::signature::Signature;
use crate::trace::trace_well_typed;
use crate::trace::Trace;

verus! {

/// The behaviour bundle of the TLS protocol: its signature and its
/// seed corpus.
#[derive(Debug)]
pub struct TLSProtocolBehavior;

impl TLSProtocolBehavior {
    /// The catalog of function symbols for this protocol.
    pub fn signature() -> (r: Signature)
        ensures
            r@.functions == catalog_spec(),
            r@.functions.len() == CATALOG_LEN,
    {
        tls_signature()
    }

    /// The seed corpus: the three hand-written traces, each well typed
    /// and pinned to its specification.
    pub fn create_corpus() -> (r: Vec<Trace>)
        ensures
            r@.len() == 3,
            r@[0]@ == seed_successful12_spec(AgentName(1), AgentName(2)),
            r@[1]@ == seed_client_attacker12_spec(AgentName(2)),
            r@[2]@ == seed_cve_2021_3449_spec(AgentName(2)),
            forall|i: int| 0 <= i < r@.len() ==> trace_well_typed((#[trigger] r@[i])@),
    {
        let client = AgentName::first();
        let server = client.next();
        let mut corpus: Vec<Trace> = Vec::new();
        corpus.push(seed_successful12(client, server));
        corpus.push(seed_client_attacker12(server));
        corpus.push(seed_cve_2021_3449(server));
        proof {
            assert(forall|i: int|
                0 <= i < corpus@.len() ==> trace_well_typed((#[trigger] corpus@[i])@));
        }
        corpus
    }
}

} // verus!
