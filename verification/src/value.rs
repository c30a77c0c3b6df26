//! Erased values of the term algebra.
//!
//! A [`TypedValue`] is one value of the catalog's heterogeneous universe.
//! The variant decides the runtime type: [`crate::types::TypeShape`]
//! identifiers map one-to-one onto variants, so marshalling a value into a
//! function symbol can be checked against the symbol's declared argument
//! types.

use vstd::prelude::*;
use crate::msgs::Message;
use crate::msgs::MessageV;
use crate::msgs::ClientExtension;
use crate::msgs::ClientExtensionV;
use crate::msgs::ServerExtension;
use crate::msgs::ServerExtensionV;
use crate::msgs::OpaqueMessage;
use crate::msgs::OpaqueMessageV;
use crate::msgs::clone_client_extensions;
use crate::msgs::clone_server_extensions;
use crate::msgs::clone_messages;
use crate::msgs::client_extensions_view;
use crate::msgs::server_extensions_view;
use crate::msgs::messages_view;
use crate::types::TYPE_PROTOCOL_VERSION;
use crate::types::TYPE_RANDOM;
use crate::types::TYPE_SESSION_ID;
use crate::types::TYPE_CIPHER_SUITES;
use crate::types::TYPE_CIPHER_SUITE;
use crate::types::TYPE_COMPRESSIONS;
use crate::types::TYPE_COMPRESSION;
use crate::types::TYPE_CLIENT_EXTENSIONS;
use crate::types::TYPE_CLIENT_EXTENSION;
use crate::types::TYPE_SERVER_EXTENSIONS;
use crate::types::TYPE_SERVER_EXTENSION;
use crate::types::TYPE_PAYLOAD;
use crate::types::TYPE_MESSAGE;
use crate::types::TYPE_MULTI_MESSAGE;
use crate::types::TYPE_OPAQUE_MESSAGE;
use crate::types::TYPE_HANDSHAKE_HASH;
use crate::types::TYPE_U64;
use crate::types::TYPE_KEY;
use crate::types::TYPE_BYTES;
use crate::types::TYPE_CERTIFICATE;
use crate::types::TYPE_ECDH_PARAMS;
use crate::util::clone_copy_vec;
use crate::util::clone_bytes_vec;

verus! {

/// Model of an [`EcdhParams`].
pub struct EcdhParamsV {
    pub curve_id: u16,
    pub public_key: Seq<u8>,
}

/// Decoded server Diffie-Hellman parameters: the named curve and the
/// server's public key.
#[derive(Debug)]
pub struct EcdhParams {
    pub curve_id: u16,
    pub public_key: Vec<u8>,
}

impl View for EcdhParams {
    type V = EcdhParamsV;

    open spec fn view(&self) -> EcdhParamsV {
        EcdhParamsV { curve_id: self.curve_id, public_key: self.public_key@ }
    }
}

impl EcdhParams {
    /// An exact copy of these parameters.
    pub fn deep_clone(&self) -> (r: EcdhParams)
        ensures
            r@ == self@,
    {
        EcdhParams { curve_id: self.curve_id, public_key: clone_copy_vec(&self.public_key) }
    }
}

/// Model of a [`TypedValue`].
pub enum TypedValueV {
    ProtocolVersion(u16),
    Random(Seq<u8>),
    SessionId(Seq<u8>),
    CipherSuites(Seq<u16>),
    CipherSuite(u16),
    Compressions(Seq<u8>),
    Compression(u8),
    ClientExtensions(Seq<ClientExtensionV>),
    ClientExtension(ClientExtensionV),
    ServerExtensions(Seq<ServerExtensionV>),
    ServerExtension(ServerExtensionV),
    Payload(Seq<u8>),
    Message(MessageV),
    MultiMessage(Seq<MessageV>),
    Opaque(OpaqueMessageV),
    HandshakeHash(Seq<u8>),
    U64(u64),
    Key(Seq<u8>),
    Bytes(Seq<u8>),
    Certificate(Seq<Seq<u8>>),
    EcdhParams(EcdhParamsV),
}

/// One erased value.  The variant is the runtime type.
#[derive(Debug)]
pub enum TypedValue {
    ProtocolVersion(u16),
    Random(Vec<u8>),
    SessionId(Vec<u8>),
    CipherSuites(Vec<u16>),
    CipherSuite(u16),
    Compressions(Vec<u8>),
    Compression(u8),
    ClientExtensions(Vec<ClientExtension>),
    ClientExtension(ClientExtension),
    ServerExtensions(Vec<ServerExtension>),
    ServerExtension(ServerExtension),
    Payload(Vec<u8>),
    Message(Message),
    MultiMessage(Vec<Message>),
    Opaque(OpaqueMessage),
    HandshakeHash(Vec<u8>),
    U64(u64),
    Key(Vec<u8>),
    Bytes(Vec<u8>),
    Certificate(Vec<Vec<u8>>),
    EcdhParams(EcdhParams),
}

impl View for TypedValue {
    type V = TypedValueV;

    open spec fn view(&self) -> TypedValueV {
        match self {
            TypedValue::ProtocolVersion(x) => TypedValueV::ProtocolVersion(*x),
            TypedValue::Random(x) => TypedValueV::Random(x@),
            TypedValue::SessionId(x) => TypedValueV::SessionId(x@),
            TypedValue::CipherSuites(x) => TypedValueV::CipherSuites(x@),
            TypedValue::CipherSuite(x) => TypedValueV::CipherSuite(*x),
            TypedValue::Compressions(x) => TypedValueV::Compressions(x@),
            TypedValue::Compression(x) => TypedValueV::Compression(*x),
            TypedValue::ClientExtensions(x) => TypedValueV::ClientExtensions(
                client_extensions_view(x@),
            ),
            TypedValue::ClientExtension(x) => TypedValueV::ClientExtension(x@),
            TypedValue::ServerExtensions(x) => TypedValueV::ServerExtensions(
                server_extensions_view(x@),
            ),
            TypedValue::ServerExtension(x) => TypedValueV::ServerExtension(x@),
            TypedValue::Payload(x) => TypedValueV::Payload(x@),
            TypedValue::Message(x) => TypedValueV::Message(x@),
            TypedValue::MultiMessage(x) => TypedValueV::MultiMessage(messages_view(x@)),
            TypedValue::Opaque(x) => TypedValueV::Opaque(x@),
            TypedValue::HandshakeHash(x) => TypedValueV::HandshakeHash(x@),
            TypedValue::U64(x) => TypedValueV::U64(*x),
            TypedValue::Key(x) => TypedValueV::Key(x@),
            TypedValue::Bytes(x) => TypedValueV::Bytes(x@),
            TypedValue::Certificate(x) => TypedValueV::Certificate(
                Seq::new(x@.len(), |i: int| x@[i]@),
            ),
            TypedValue::EcdhParams(x) => TypedValueV::EcdhParams(x@),
        }
    }
}

/// The runtime type identifier of a value.
pub open spec fn type_id_of(v: TypedValueV) -> u64 {
    match v {
        TypedValueV::ProtocolVersion(_) => TYPE_PROTOCOL_VERSION,
        TypedValueV::Random(_) => TYPE_RANDOM,
        TypedValueV::SessionId(_) => TYPE_SESSION_ID,
        TypedValueV::CipherSuites(_) => TYPE_CIPHER_SUITES,
        TypedValueV::CipherSuite(_) => TYPE_CIPHER_SUITE,
        TypedValueV::Compressions(_) => TYPE_COMPRESSIONS,
        TypedValueV::Compression(_) => TYPE_COMPRESSION,
        TypedValueV::ClientExtensions(_) => TYPE_CLIENT_EXTENSIONS,
        TypedValueV::ClientExtension(_) => TYPE_CLIENT_EXTENSION,
        TypedValueV::ServerExtensions(_) => TYPE_SERVER_EXTENSIONS,
        TypedValueV::ServerExtension(_) => TYPE_SERVER_EXTENSION,
        TypedValueV::Payload(_) => TYPE_PAYLOAD,
        TypedValueV::Message(_) => TYPE_MESSAGE,
        TypedValueV::MultiMessage(_) => TYPE_MULTI_MESSAGE,
        TypedValueV::Opaque(_) => TYPE_OPAQUE_MESSAGE,
        TypedValueV::HandshakeHash(_) => TYPE_HANDSHAKE_HASH,
        TypedValueV::U64(_) => TYPE_U64,
        TypedValueV::Key(_) => TYPE_KEY,
        TypedValueV::Bytes(_) => TYPE_BYTES,
        TypedValueV::Certificate(_) => TYPE_CERTIFICATE,
        TypedValueV::EcdhParams(_) => TYPE_ECDH_PARAMS,
    }
}

impl TypedValue {
    /// The runtime type identifier of this value.
    pub fn type_id(&self) -> (r: u64)
        ensures
            r == type_id_of(self@),
    {
        match self {
            TypedValue::ProtocolVersion(_) => TYPE_PROTOCOL_VERSION,
            TypedValue::Random(_) => TYPE_RANDOM,
            TypedValue::SessionId(_) => TYPE_SESSION_ID,
            TypedValue::CipherSuites(_) => TYPE_CIPHER_SUITES,
            TypedValue::CipherSuite(_) => TYPE_CIPHER_SUITE,
            TypedValue::Compressions(_) => TYPE_COMPRESSIONS,
            TypedValue::Compression(_) => TYPE_COMPRESSION,
            TypedValue::ClientExtensions(_) => TYPE_CLIENT_EXTENSIONS,
            TypedValue::ClientExtension(_) => TYPE_CLIENT_EXTENSION,
            TypedValue::ServerExtensions(_) => TYPE_SERVER_EXTENSIONS,
            TypedValue::ServerExtension(_) => TYPE_SERVER_EXTENSION,
            TypedValue::Payload(_) => TYPE_PAYLOAD,
            TypedValue::Message(_) => TYPE_MESSAGE,
            TypedValue::MultiMessage(_) => TYPE_MULTI_MESSAGE,
            TypedValue::Opaque(_) => TYPE_OPAQUE_MESSAGE,
            TypedValue::HandshakeHash(_) => TYPE_HANDSHAKE_HASH,
            TypedValue::U64(_) => TYPE_U64,
            TypedValue::Key(_) => TYPE_KEY,
            TypedValue::Bytes(_) => TYPE_BYTES,
            TypedValue::Certificate(_) => TYPE_CERTIFICATE,
            TypedValue::EcdhParams(_) => TYPE_ECDH_PARAMS,
        }
    }

    /// A deep copy of this value.  Deep cloning is the erased clone
    /// operation that every registered type provides.
    pub fn deep_clone(&self) -> (r: TypedValue)
        ensures
            r@ == self@,
    {
        match self {
            TypedValue::ProtocolVersion(x) => TypedValue::ProtocolVersion(*x),
            TypedValue::Random(x) => TypedValue::Random(clone_copy_vec(x)),
            TypedValue::SessionId(x) => TypedValue::SessionId(clone_copy_vec(x)),
            TypedValue::CipherSuites(x) => TypedValue::CipherSuites(clone_copy_vec(x)),
            TypedValue::CipherSuite(x) => TypedValue::CipherSuite(*x),
            TypedValue::Compressions(x) => TypedValue::Compressions(clone_copy_vec(x)),
            TypedValue::Compression(x) => TypedValue::Compression(*x),
            TypedValue::ClientExtensions(x) => TypedValue::ClientExtensions(
                clone_client_extensions(x),
            ),
            TypedValue::ClientExtension(x) => TypedValue::ClientExtension(x.deep_clone()),
            TypedValue::ServerExtensions(x) => TypedValue::ServerExtensions(
                clone_server_extensions(x),
            ),
            TypedValue::ServerExtension(x) => TypedValue::ServerExtension(x.deep_clone()),
            TypedValue::Payload(x) => TypedValue::Payload(clone_copy_vec(x)),
            TypedValue::Message(x) => TypedValue::Message(x.deep_clone()),
            TypedValue::MultiMessage(x) => TypedValue::MultiMessage(clone_messages(x)),
            TypedValue::Opaque(x) => TypedValue::Opaque(x.deep_clone()),
            TypedValue::HandshakeHash(x) => TypedValue::HandshakeHash(clone_copy_vec(x)),
            TypedValue::U64(x) => TypedValue::U64(*x),
            TypedValue::Key(x) => TypedValue::Key(clone_copy_vec(x)),
            TypedValue::Bytes(x) => TypedValue::Bytes(clone_copy_vec(x)),
            TypedValue::Certificate(x) => {
                let r = TypedValue::Certificate(clone_bytes_vec(x));
                proof {
                    assert(r@->Certificate_0 =~= self@->Certificate_0);
                }
                r
            },
            TypedValue::EcdhParams(x) => TypedValue::EcdhParams(x.deep_clone()),
        }
    }
}

} // verus!
