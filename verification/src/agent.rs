//! Symbolic agents: participants in a trace, each backed by one
//! TLS-library-under-test instance reached through a stream interface.

use vstd::prelude::*;

verus! {

/// A small opaque identifier for an agent.  Equality is by identity.
#[derive(Clone, Copy, PartialEq, Eq, Structural, Debug, Hash)]
pub struct AgentName(pub u8);

impl AgentName {
    /// The successor of an existing name: a fresh agent name.
    pub fn new(last_name: &AgentName) -> (r: AgentName)
        requires
            last_name.0 < 255,
        ensures
            r.0 == last_name.0 + 1,
    {
        AgentName(last_name.0 + 1)
    }

    /// The sentinel name that refers to no agent.
    pub fn none() -> (r: AgentName)
        ensures
            r.0 == 0,
    {
        AgentName(0)
    }

    /// The first usable agent name.
    pub fn first() -> (r: AgentName)
        ensures
            r.0 == 1,
    {
        AgentName(1)
    }

    /// The next fresh name after this one.
    pub fn next(&self) -> (r: AgentName)
        requires
            self.0 < 255,
        ensures
            r.0 == self.0 + 1,
    {
        AgentName(self.0 + 1)
    }
}

/// The role an agent plays in the handshake.
#[derive(Clone, Copy, PartialEq, Eq, Structural, Debug)]
pub enum AgentType {
    Server,
    Client,
}

/// The TLS version an agent is asked to negotiate.
#[derive(Clone, Copy, PartialEq, Eq, Structural, Debug)]
pub enum TLSVersion {
    V1_3,
    V1_2,
}

/// Static description of an agent in a trace preamble: its role, TLS
/// version and requested authentication modes.
#[derive(Clone, Copy, PartialEq, Eq, Structural, Debug)]
pub struct AgentDescriptor {
    pub name: AgentName,
    pub tls_version: TLSVersion,
    pub typ: AgentType,
    pub client_authentication: bool,
    pub server_authentication: bool,
}

impl AgentDescriptor {
    /// A descriptor for a plain client without peer authentication.
    pub fn new_client(name: AgentName, tls_version: TLSVersion) -> (r: AgentDescriptor)
        ensures
            r == (AgentDescriptor {
                name,
                tls_version,
                typ: AgentType::Client,
                client_authentication: false,
                server_authentication: false,
            }),
    {
        AgentDescriptor {
            name,
            tls_version,
            typ: AgentType::Client,
            client_authentication: false,
            server_authentication: false,
        }
    }

    /// A descriptor for a plain server without client authentication.
    pub fn new_server(name: AgentName, tls_version: TLSVersion) -> (r: AgentDescriptor)
        ensures
            r == (AgentDescriptor {
                name,
                tls_version,
                typ: AgentType::Server,
                client_authentication: false,
                server_authentication: false,
            }),
    {
        AgentDescriptor {
            name,
            tls_version,
            typ: AgentType::Server,
            client_authentication: false,
            server_authentication: false,
        }
    }
}

/// An agent pairs a name with the stream wrapping one TLS library
/// instance.  The stream type is supplied by the embedding program.
pub struct Agent<P> {
    pub name: AgentName,
    pub stream: P,
}

impl<P> Agent<P> {
    /// Wrap a stream under a fresh name derived from `last_name`.
    pub fn from_stream(last_name: &AgentName, stream: P) -> (r: Agent<P>)
        requires
            last_name.0 < 255,
        ensures
            r.name.0 == last_name.0 + 1,
            r.stream == stream,
    {
        Agent { name: AgentName::new(last_name), stream }
    }

    /// Wrap a stream under the given name.
    pub fn with_name(name: AgentName, stream: P) -> (r: Agent<P>)
        ensures
            r.name == name,
            r.stream == stream,
    {
        Agent { name, stream }
    }
}

} // verus!
