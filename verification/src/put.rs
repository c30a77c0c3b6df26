//! The interface to a program under test: the TLS library behind an
//! agent.
//!
//! The embedding program supplies the implementations; the core drives
//! them through this interface only.  Nothing here is trusted: the
//! execution engine promises only what holds for every implementation.

use vstd::prelude::*;
use crate::agent::AgentDescriptor;
use crate::agent::AgentName;
use crate::agent::AgentType;
use crate::agent::TLSVersion;
use crate::error::Error;
use crate::msgs::MessageResult;
use crate::msgs::OpaqueMessage;
use crate::util::str_eq;

verus! {

/// The name of a program under test, ten characters.
#[derive(Clone, Copy, Debug)]
pub struct PutName(pub [char; 10]);

impl PutName {
    /// Whether two names are the same.
    pub fn matches(&self, other: &PutName) -> (r: bool)
        ensures
            r == (self.0@ == other.0@),
    {
        let mut i: usize = 0;
        while i < 10
            invariant
                i <= 10,
                forall|j: int| 0 <= j < i ==> self.0@[j] == other.0@[j],
            decreases 10 - i,
        {
            if self.0[i] != other.0[i] {
                return false;
            }
            i += 1;
        }
        proof {
            assert(self.0@ =~= other.0@);
        }
        true
    }
}

/// Free-form configuration options of a program under test.
#[derive(Debug)]
pub struct PutOptions {
    pub options: Vec<(String, String)>,
}

/// The views of an option list: pairs of character sequences.
pub open spec fn options_view(s: Seq<(String, String)>) -> Seq<(Seq<char>, Seq<char>)> {
    Seq::new(s.len(), |i: int| (s[i].0@, s[i].1@))
}

impl View for PutOptions {
    type V = Seq<(Seq<char>, Seq<char>)>;

    open spec fn view(&self) -> Seq<(Seq<char>, Seq<char>)> {
        options_view(self.options@)
    }
}

/// The value of the first option with the given key.
pub open spec fn find_option(s: Seq<(Seq<char>, Seq<char>)>, key: Seq<char>) -> Option<Seq<char>>
    decreases s.len(),
{
    if s.len() == 0 {
        None
    } else if s[0].0 == key {
        Some(s[0].1)
    } else {
        find_option(s.subrange(1, s.len() as int), key)
    }
}

proof fn lemma_find_option_step(s: Seq<(Seq<char>, Seq<char>)>, key: Seq<char>, i: int)
    requires
        0 <= i < s.len(),
        s[i].0 != key,
    ensures
        find_option(s.subrange(i, s.len() as int), key) == find_option(
            s.subrange(i + 1, s.len() as int),
            key,
        ),
{
    let t = s.subrange(i, s.len() as int);
    assert(t[0] == s[i]);
    assert(t.subrange(1, t.len() as int) =~= s.subrange(i + 1, s.len() as int));
}

impl PutOptions {
    /// Options from key-value pairs.
    pub fn new(options: Vec<(&str, &str)>) -> (r: PutOptions)
        ensures
            r@.len() == options@.len(),
            forall|i: int|
                0 <= i < options@.len() ==> #[trigger] r@[i] == (options@[i].0@, options@[i].1@),
    {
        let mut owned: Vec<(String, String)> = Vec::new();
        let mut i: usize = 0;
        while i < options.len()
            invariant
                i <= options@.len(),
                owned@.len() == i,
                forall|j: int|
                    0 <= j < i ==> (#[trigger] owned@[j]).0@ == options@[j].0@ && owned@[j].1@
                        == options@[j].1@,
            decreases options@.len() - i,
        {
            let (k, v) = options[i];
            owned.push((k.to_owned(), v.to_owned()));
            i += 1;
        }
        let r = PutOptions { options: owned };
        proof {
            assert(forall|j: int|
                0 <= j < options@.len() ==> #[trigger] r@[j] == (options@[j].0@, options@[j].1@));
        }
        r
    }

    /// An empty option list.
    pub fn empty() -> (r: PutOptions)
        ensures
            r@.len() == 0,
    {
        PutOptions { options: Vec::new() }
    }

    /// The value of the first option with the given key, if any.
    pub fn get_option(&self, key: &str) -> (r: Option<&str>)
        ensures
            match r {
                Some(v) => find_option(self@, key@) == Some(v@),
                None => find_option(self@, key@) is None,
            },
    {
        let ghost opts = self@;
        proof {
            assert(opts.subrange(0, opts.len() as int) =~= opts);
        }
        let mut i: usize = 0;
        while i < self.options.len()
            invariant
                i <= self.options@.len(),
                opts == self@,
                find_option(opts, key@) == find_option(
                    opts.subrange(i as int, opts.len() as int),
                    key@,
                ),
            decreases self.options@.len() - i,
        {
            proof {
                assert(opts[i as int] == (self.options@[i as int].0@, self.options@[
                    i as int].1@));
            }
            if str_eq(self.options[i].0.as_str(), key) {
                proof {
                    let t = opts.subrange(i as int, opts.len() as int);
                    assert(t[0] == opts[i as int]);
                }
                return Some(self.options[i].1.as_str());
            }
            proof {
                lemma_find_option_step(opts, key@, i as int);
            }
            i += 1;
        }
        proof {
            assert(opts.subrange(i as int, opts.len() as int).len() == 0);
        }
        None
    }
}

/// Which implementation runs behind an agent, with its options.
#[derive(Debug)]
pub struct PutDescriptor {
    pub name: PutName,
    pub options: PutOptions,
}

impl PutDescriptor {
    /// A descriptor without options.
    pub fn new(name: PutName) -> (r: PutDescriptor)
        ensures
            r.name == name,
            r.options@.len() == 0,
    {
        PutDescriptor { name, options: PutOptions::empty() }
    }
}

/// Static configuration for creating one agent state.
#[derive(Debug)]
pub struct PutConfig {
    pub descriptor: PutDescriptor,
    pub typ: AgentType,
    pub tls_version: TLSVersion,
    pub authenticate_peer: bool,
}

/// The byte-stream side of a program under test: records in, records
/// out.
pub trait Stream {
    /// Append one raw record to the inbound buffer.
    fn add_to_inbound(&mut self, message: &OpaqueMessage);

    /// Take the oldest outbound message, raw and parsed where possible.
    fn take_message_from_outbound(&mut self) -> Result<Option<MessageResult>, Error>;
}

/// One TLS library instance wrapped for fuzzing.
pub trait Put: Stream {
    /// Create a new agent state and bind its buffers.
    fn new(agent: &AgentDescriptor, config: PutConfig) -> Result<Self, Error> where
        Self: Sized;

    /// Advance the state machine: consume inbound bytes, produce
    /// outbound.
    fn progress(&mut self, agent_name: &AgentName) -> Result<(), Error>;

    /// Reset to the initial state in place.
    fn reset(&mut self, agent_name: AgentName) -> Result<(), Error>;

    /// Propagate an agent rename.
    fn rename_agent(&mut self, agent_name: AgentName) -> Result<(), Error>;

    /// A textual description of the current protocol state.
    fn describe_state(&self) -> String;

    /// Whether the handshake has completed successfully.
    fn is_state_successful(&self) -> bool;

    /// Close the session, returning a description of the outcome.
    fn shutdown(&mut self) -> String;
}

/// The outcome of an interaction with the library behind an agent:
/// either progress (possibly after a would-block), or a fatal error.
#[derive(Debug)]
pub enum MaybeError {
    Fine,
    Fail(Error),
}

impl MaybeError {
    /// Turn the outcome into a result.
    pub fn into_result(self) -> (r: Result<(), Error>)
        ensures
            match self {
                MaybeError::Fine => r is Ok,
                MaybeError::Fail(_) => r is Err && (self matches MaybeError::Fail(e) ==> r
                    matches Err(e2) && e2 == e),
            },
    {
        match self {
            MaybeError::Fine => Ok(()),
            MaybeError::Fail(err) => Err(err),
        }
    }
}

} // verus!
