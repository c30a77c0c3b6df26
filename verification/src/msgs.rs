//! The protocol message model.
//!
//! Inbound and outbound traffic is modelled at two levels: an opaque
//! record (content type, wire version, raw payload bytes) and a structured
//! message whose handshake payloads are decomposed into plain fields.  The
//! knowledge extraction of the execution engine walks the structured form.

use vstd::prelude::*;
use crate::util::clone_copy_vec;
use crate::util::clone_bytes_vec;

verus! {

/// TLS record content types.
pub const CONTENT_CHANGE_CIPHER_SPEC: u8 = 20;

pub const CONTENT_ALERT: u8 = 21;

pub const CONTENT_HANDSHAKE: u8 = 22;

pub const CONTENT_APPLICATION_DATA: u8 = 23;

/// Handshake message types.
pub const HS_CLIENT_HELLO: u8 = 1;

pub const HS_SERVER_HELLO: u8 = 2;

pub const HS_ENCRYPTED_EXTENSIONS: u8 = 8;

pub const HS_CERTIFICATE: u8 = 11;

pub const HS_SERVER_KEY_EXCHANGE: u8 = 12;

pub const HS_SERVER_HELLO_DONE: u8 = 14;

pub const HS_CLIENT_KEY_EXCHANGE: u8 = 16;

pub const HS_FINISHED: u8 = 20;

/// Extension types used by the catalog.
pub const EXT_SERVER_NAME: u16 = 0;

pub const EXT_SUPPORTED_GROUPS: u16 = 10;

pub const EXT_EC_POINT_FORMATS: u16 = 11;

pub const EXT_SIGNATURE_ALGORITHMS: u16 = 13;

pub const EXT_SIGNED_CERTIFICATE_TIMESTAMP: u16 = 18;

pub const EXT_KEY_SHARE: u16 = 51;

pub const EXT_SUPPORTED_VERSIONS: u16 = 43;

pub const EXT_SIGNATURE_ALGORITHMS_CERT: u16 = 50;

pub const EXT_RENEGOTIATION_INFO: u16 = 65281;

/// Wire protocol versions.
pub const VERSION_TLS12: u16 = 0x0303;

pub const VERSION_TLS13: u16 = 0x0304;

/// The kind of a message, used to index observations in the knowledge
/// store.  Repeated messages of one kind from one agent are told apart by
/// a counter.
#[derive(Clone, Copy, PartialEq, Eq, Structural, Debug)]
pub enum TlsMessageType {
    ChangeCipherSpec,
    Alert,
    Handshake(u8),
    ApplicationData,
}

/// Model of a [`ClientExtension`].
pub struct ClientExtensionV {
    pub ext_type: u16,
    pub body: Seq<u8>,
}

/// One extension of a ClientHello: its numeric type and its raw body.
#[derive(Debug)]
pub struct ClientExtension {
    pub ext_type: u16,
    pub body: Vec<u8>,
}

impl View for ClientExtension {
    type V = ClientExtensionV;

    open spec fn view(&self) -> ClientExtensionV {
        ClientExtensionV { ext_type: self.ext_type, body: self.body@ }
    }
}

impl ClientExtension {
    /// An exact copy of this extension.
    pub fn deep_clone(&self) -> (r: ClientExtension)
        ensures
            r@ == self@,
    {
        ClientExtension { ext_type: self.ext_type, body: clone_copy_vec(&self.body) }
    }
}

/// Model of a [`ServerExtension`].
pub struct ServerExtensionV {
    pub ext_type: u16,
    pub body: Seq<u8>,
}

/// One extension of a ServerHello: its numeric type and its raw body.
#[derive(Debug)]
pub struct ServerExtension {
    pub ext_type: u16,
    pub body: Vec<u8>,
}

impl View for ServerExtension {
    type V = ServerExtensionV;

    open spec fn view(&self) -> ServerExtensionV {
        ServerExtensionV { ext_type: self.ext_type, body: self.body@ }
    }
}

impl ServerExtension {
    /// An exact copy of this extension.
    pub fn deep_clone(&self) -> (r: ServerExtension)
        ensures
            r@ == self@,
    {
        ServerExtension { ext_type: self.ext_type, body: clone_copy_vec(&self.body) }
    }
}

/// The views of a list of client extensions, in order.
pub open spec fn client_extensions_view(v: Seq<ClientExtension>) -> Seq<ClientExtensionV> {
    Seq::new(v.len(), |i: int| v[i]@)
}

/// The views of a list of server extensions, in order.
pub open spec fn server_extensions_view(v: Seq<ServerExtension>) -> Seq<ServerExtensionV> {
    Seq::new(v.len(), |i: int| v[i]@)
}

/// An exact copy of a list of client extensions.
pub fn clone_client_extensions(v: &Vec<ClientExtension>) -> (r: Vec<ClientExtension>)
    ensures
        client_extensions_view(r@) == client_extensions_view(v@),
{
    let mut r: Vec<ClientExtension> = Vec::new();
    let mut i: usize = 0;
    while i < v.len()
        invariant
            i <= v.len(),
            r@.len() == i,
            forall|j: int| 0 <= j < i ==> r@[j]@ == v@[j]@,
        decreases v.len() - i,
    {
        r.push(v[i].deep_clone());
        i += 1;
    }
    proof {
        assert(client_extensions_view(r@) =~= client_extensions_view(v@));
    }
    r
}

/// An exact copy of a list of server extensions.
pub fn clone_server_extensions(v: &Vec<ServerExtension>) -> (r: Vec<ServerExtension>)
    ensures
        server_extensions_view(r@) == server_extensions_view(v@),
{
    let mut r: Vec<ServerExtension> = Vec::new();
    let mut i: usize = 0;
    while i < v.len()
        invariant
            i <= v.len(),
            r@.len() == i,
            forall|j: int| 0 <= j < i ==> r@[j]@ == v@[j]@,
        decreases v.len() - i,
    {
        r.push(v[i].deep_clone());
        i += 1;
    }
    proof {
        assert(server_extensions_view(r@) =~= server_extensions_view(v@));
    }
    r
}

/// Model of a [`ClientHelloData`].
pub struct ClientHelloDataV {
    pub client_version: u16,
    pub random: Seq<u8>,
    pub session_id: Seq<u8>,
    pub cipher_suites: Seq<u16>,
    pub compression_methods: Seq<u8>,
    pub extensions: Seq<ClientExtensionV>,
}

/// The fields of a ClientHello handshake message.
#[derive(Debug)]
pub struct ClientHelloData {
    pub client_version: u16,
    pub random: Vec<u8>,
    pub session_id: Vec<u8>,
    pub cipher_suites: Vec<u16>,
    pub compression_methods: Vec<u8>,
    pub extensions: Vec<ClientExtension>,
}

impl View for ClientHelloData {
    type V = ClientHelloDataV;

    open spec fn view(&self) -> ClientHelloDataV {
        ClientHelloDataV {
            client_version: self.client_version,
            random: self.random@,
            session_id: self.session_id@,
            cipher_suites: self.cipher_suites@,
            compression_methods: self.compression_methods@,
            extensions: client_extensions_view(self.extensions@),
        }
    }
}

impl ClientHelloData {
    /// An exact copy of this ClientHello.
    pub fn deep_clone(&self) -> (r: ClientHelloData)
        ensures
            r@ == self@,
    {
        ClientHelloData {
            client_version: self.client_version,
            random: clone_copy_vec(&self.random),
            session_id: clone_copy_vec(&self.session_id),
            cipher_suites: clone_copy_vec(&self.cipher_suites),
            compression_methods: clone_copy_vec(&self.compression_methods),
            extensions: clone_client_extensions(&self.extensions),
        }
    }
}

/// Model of a [`ServerHelloData`].
pub struct ServerHelloDataV {
    pub legacy_version: u16,
    pub random: Seq<u8>,
    pub session_id: Seq<u8>,
    pub cipher_suite: u16,
    pub compression_method: u8,
    pub extensions: Seq<ServerExtensionV>,
}

/// The fields of a ServerHello handshake message.
#[derive(Debug)]
pub struct ServerHelloData {
    pub legacy_version: u16,
    pub random: Vec<u8>,
    pub session_id: Vec<u8>,
    pub cipher_suite: u16,
    pub compression_method: u8,
    pub extensions: Vec<ServerExtension>,
}

impl View for ServerHelloData {
    type V = ServerHelloDataV;

    open spec fn view(&self) -> ServerHelloDataV {
        ServerHelloDataV {
            legacy_version: self.legacy_version,
            random: self.random@,
            session_id: self.session_id@,
            cipher_suite: self.cipher_suite,
            compression_method: self.compression_method,
            extensions: server_extensions_view(self.extensions@),
        }
    }
}

impl ServerHelloData {
    /// An exact copy of this ServerHello.
    pub fn deep_clone(&self) -> (r: ServerHelloData)
        ensures
            r@ == self@,
    {
        ServerHelloData {
            legacy_version: self.legacy_version,
            random: clone_copy_vec(&self.random),
            session_id: clone_copy_vec(&self.session_id),
            cipher_suite: self.cipher_suite,
            compression_method: self.compression_method,
            extensions: clone_server_extensions(&self.extensions),
        }
    }
}

/// Model of a [`HandshakePayloadData`].
pub enum HandshakePayloadDataV {
    ClientHello(ClientHelloDataV),
    ServerHello(ServerHelloDataV),
    Certificate(Seq<Seq<u8>>),
    ServerKeyExchange(Seq<u8>),
    ServerHelloDone,
    ClientKeyExchange(Seq<u8>),
    Finished(Seq<u8>),
    EncryptedExtensions(Seq<ServerExtensionV>),
    Opaque(u8, Seq<u8>),
}

/// The payload of one handshake message.  Kinds the engine does not need
/// to look into are kept as an opaque handshake type plus raw body.
#[derive(Debug)]
pub enum HandshakePayloadData {
    ClientHello(ClientHelloData),
    ServerHello(ServerHelloData),
    Certificate(Vec<Vec<u8>>),
    ServerKeyExchange(Vec<u8>),
    ServerHelloDone,
    ClientKeyExchange(Vec<u8>),
    Finished(Vec<u8>),
    EncryptedExtensions(Vec<ServerExtension>),
    Opaque(u8, Vec<u8>),
}

/// The views of a certificate chain.
pub open spec fn chain_view(v: Seq<Vec<u8>>) -> Seq<Seq<u8>> {
    Seq::new(v.len(), |i: int| v[i]@)
}

impl View for HandshakePayloadData {
    type V = HandshakePayloadDataV;

    open spec fn view(&self) -> HandshakePayloadDataV {
        match self {
            HandshakePayloadData::ClientHello(d) => HandshakePayloadDataV::ClientHello(d@),
            HandshakePayloadData::ServerHello(d) => HandshakePayloadDataV::ServerHello(d@),
            HandshakePayloadData::Certificate(c) => HandshakePayloadDataV::Certificate(
                chain_view(c@),
            ),
            HandshakePayloadData::ServerKeyExchange(b) => HandshakePayloadDataV::ServerKeyExchange(
                b@,
            ),
            HandshakePayloadData::ServerHelloDone => HandshakePayloadDataV::ServerHelloDone,
            HandshakePayloadData::ClientKeyExchange(b) => HandshakePayloadDataV::ClientKeyExchange(
                b@,
            ),
            HandshakePayloadData::Finished(b) => HandshakePayloadDataV::Finished(b@),
            HandshakePayloadData::EncryptedExtensions(e) => {
                HandshakePayloadDataV::EncryptedExtensions(server_extensions_view(e@))
            },
            HandshakePayloadData::Opaque(t, b) => HandshakePayloadDataV::Opaque(*t, b@),
        }
    }
}

impl HandshakePayloadData {
    /// An exact copy of this handshake payload.
    pub fn deep_clone(&self) -> (r: HandshakePayloadData)
        ensures
            r@ == self@,
    {
        match self {
            HandshakePayloadData::ClientHello(d) => HandshakePayloadData::ClientHello(
                d.deep_clone(),
            ),
            HandshakePayloadData::ServerHello(d) => HandshakePayloadData::ServerHello(
                d.deep_clone(),
            ),
            HandshakePayloadData::Certificate(c) => {
                let r = HandshakePayloadData::Certificate(clone_bytes_vec(c));
                proof {
                    assert(r@->Certificate_0 =~= self@->Certificate_0);
                }
                r
            },
            HandshakePayloadData::ServerKeyExchange(b) => HandshakePayloadData::ServerKeyExchange(
                clone_copy_vec(b),
            ),
            HandshakePayloadData::ServerHelloDone => HandshakePayloadData::ServerHelloDone,
            HandshakePayloadData::ClientKeyExchange(b) => HandshakePayloadData::ClientKeyExchange(
                clone_copy_vec(b),
            ),
            HandshakePayloadData::Finished(b) => HandshakePayloadData::Finished(clone_copy_vec(b)),
            HandshakePayloadData::EncryptedExtensions(e) => {
                HandshakePayloadData::EncryptedExtensions(clone_server_extensions(e))
            },
            HandshakePayloadData::Opaque(t, b) => HandshakePayloadData::Opaque(
                *t,
                clone_copy_vec(b),
            ),
        }
    }

    /// The handshake type byte of this payload.
    pub fn handshake_type(&self) -> (r: u8)
        ensures
            r == handshake_type_of(self@),
    {
        match self {
            HandshakePayloadData::ClientHello(_) => HS_CLIENT_HELLO,
            HandshakePayloadData::ServerHello(_) => HS_SERVER_HELLO,
            HandshakePayloadData::Certificate(_) => HS_CERTIFICATE,
            HandshakePayloadData::ServerKeyExchange(_) => HS_SERVER_KEY_EXCHANGE,
            HandshakePayloadData::ServerHelloDone => HS_SERVER_HELLO_DONE,
            HandshakePayloadData::ClientKeyExchange(_) => HS_CLIENT_KEY_EXCHANGE,
            HandshakePayloadData::Finished(_) => HS_FINISHED,
            HandshakePayloadData::EncryptedExtensions(_) => HS_ENCRYPTED_EXTENSIONS,
            HandshakePayloadData::Opaque(t, _) => *t,
        }
    }
}

/// The handshake type byte of a handshake payload.
pub open spec fn handshake_type_of(h: HandshakePayloadDataV) -> u8 {
    match h {
        HandshakePayloadDataV::ClientHello(_) => HS_CLIENT_HELLO,
        HandshakePayloadDataV::ServerHello(_) => HS_SERVER_HELLO,
        HandshakePayloadDataV::Certificate(_) => HS_CERTIFICATE,
        HandshakePayloadDataV::ServerKeyExchange(_) => HS_SERVER_KEY_EXCHANGE,
        HandshakePayloadDataV::ServerHelloDone => HS_SERVER_HELLO_DONE,
        HandshakePayloadDataV::ClientKeyExchange(_) => HS_CLIENT_KEY_EXCHANGE,
        HandshakePayloadDataV::Finished(_) => HS_FINISHED,
        HandshakePayloadDataV::EncryptedExtensions(_) => HS_ENCRYPTED_EXTENSIONS,
        HandshakePayloadDataV::Opaque(t, _) => t,
    }
}

/// Model of a [`MessagePayload`].
pub enum MessagePayloadV {
    Handshake(HandshakePayloadDataV),
    ChangeCipherSpec,
    Alert(u8, u8),
    ApplicationData(Seq<u8>),
}

/// The payload of a structured message.
#[derive(Debug)]
pub enum MessagePayload {
    Handshake(HandshakePayloadData),
    ChangeCipherSpec,
    Alert(u8, u8),
    ApplicationData(Vec<u8>),
}

impl View for MessagePayload {
    type V = MessagePayloadV;

    open spec fn view(&self) -> MessagePayloadV {
        match self {
            MessagePayload::Handshake(h) => MessagePayloadV::Handshake(h@),
            MessagePayload::ChangeCipherSpec => MessagePayloadV::ChangeCipherSpec,
            MessagePayload::Alert(l, d) => MessagePayloadV::Alert(*l, *d),
            MessagePayload::ApplicationData(b) => MessagePayloadV::ApplicationData(b@),
        }
    }
}

impl MessagePayload {
    /// An exact copy of this payload.
    pub fn deep_clone(&self) -> (r: MessagePayload)
        ensures
            r@ == self@,
    {
        match self {
            MessagePayload::Handshake(h) => MessagePayload::Handshake(h.deep_clone()),
            MessagePayload::ChangeCipherSpec => MessagePayload::ChangeCipherSpec,
            MessagePayload::Alert(l, d) => MessagePayload::Alert(*l, *d),
            MessagePayload::ApplicationData(b) => MessagePayload::ApplicationData(
                clone_copy_vec(b),
            ),
        }
    }
}

/// Model of a [`Message`].
pub struct MessageV {
    pub version: u16,
    pub payload: MessagePayloadV,
}

/// A structured protocol message: wire version and decomposed payload.
#[derive(Debug)]
pub struct Message {
    pub version: u16,
    pub payload: MessagePayload,
}

impl View for Message {
    type V = MessageV;

    open spec fn view(&self) -> MessageV {
        MessageV { version: self.version, payload: self.payload@ }
    }
}

impl Message {
    /// An exact copy of this message.
    pub fn deep_clone(&self) -> (r: Message)
        ensures
            r@ == self@,
    {
        Message { version: self.version, payload: self.payload.deep_clone() }
    }

    /// The kind under which observations from this message are indexed.
    pub fn kind(&self) -> (r: TlsMessageType)
        ensures
            r == kind_of(self@),
    {
        match &self.payload {
            MessagePayload::Handshake(h) => TlsMessageType::Handshake(h.handshake_type()),
            MessagePayload::ChangeCipherSpec => TlsMessageType::ChangeCipherSpec,
            MessagePayload::Alert(_, _) => TlsMessageType::Alert,
            MessagePayload::ApplicationData(_) => TlsMessageType::ApplicationData,
        }
    }
}

/// The kind of a structured message.
pub open spec fn kind_of(m: MessageV) -> TlsMessageType {
    match m.payload {
        MessagePayloadV::Handshake(h) => TlsMessageType::Handshake(handshake_type_of(h)),
        MessagePayloadV::ChangeCipherSpec => TlsMessageType::ChangeCipherSpec,
        MessagePayloadV::Alert(_, _) => TlsMessageType::Alert,
        MessagePayloadV::ApplicationData(_) => TlsMessageType::ApplicationData,
    }
}

/// Model of an [`OpaqueMessage`].
pub struct OpaqueMessageV {
    pub typ: u8,
    pub version: u16,
    pub payload: Seq<u8>,
}

/// One raw record as seen on the wire: content type, wire version and the
/// undecoded payload bytes.
#[derive(Debug)]
pub struct OpaqueMessage {
    pub typ: u8,
    pub version: u16,
    pub payload: Vec<u8>,
}

impl View for OpaqueMessage {
    type V = OpaqueMessageV;

    open spec fn view(&self) -> OpaqueMessageV {
        OpaqueMessageV { typ: self.typ, version: self.version, payload: self.payload@ }
    }
}

impl OpaqueMessage {
    /// An exact copy of this record.
    pub fn deep_clone(&self) -> (r: OpaqueMessage)
        ensures
            r@ == self@,
    {
        OpaqueMessage { typ: self.typ, version: self.version, payload: clone_copy_vec(&self.payload) }
    }

    /// The observation kind matching this record's content type.
    pub fn kind(&self) -> (r: Option<TlsMessageType>)
        ensures
            r == opaque_kind_of(self@),
    {
        if self.typ == CONTENT_CHANGE_CIPHER_SPEC {
            Some(TlsMessageType::ChangeCipherSpec)
        } else if self.typ == CONTENT_ALERT {
            Some(TlsMessageType::Alert)
        } else if self.typ == CONTENT_APPLICATION_DATA {
            Some(TlsMessageType::ApplicationData)
        } else {
            None
        }
    }
}

/// The observation kind of a raw record whose payload could not be parsed.
/// A handshake record without a parsable payload gets no kind: its
/// handshake type is unknown.
pub open spec fn opaque_kind_of(m: OpaqueMessageV) -> Option<TlsMessageType> {
    if m.typ == CONTENT_CHANGE_CIPHER_SPEC {
        Some(TlsMessageType::ChangeCipherSpec)
    } else if m.typ == CONTENT_ALERT {
        Some(TlsMessageType::Alert)
    } else if m.typ == CONTENT_APPLICATION_DATA {
        Some(TlsMessageType::ApplicationData)
    } else {
        None
    }
}

/// Model of a [`MessageResult`].
pub struct MessageResultV {
    pub message: Option<MessageV>,
    pub opaque_message: OpaqueMessageV,
}

/// One outbound message taken from an agent: the raw record, and its
/// structured form where parsing succeeded.
#[derive(Debug)]
pub struct MessageResult {
    pub message: Option<Message>,
    pub opaque_message: OpaqueMessage,
}

impl View for MessageResult {
    type V = MessageResultV;

    open spec fn view(&self) -> MessageResultV {
        MessageResultV {
            message: match &self.message {
                Some(m) => Some(m@),
                None => None,
            },
            opaque_message: self.opaque_message@,
        }
    }
}

/// A container for a recipe that evaluates to several messages at once.
#[derive(Debug)]
pub struct MultiMessage {
    pub messages: Vec<Message>,
}

/// The views of a list of messages.
pub open spec fn messages_view(v: Seq<Message>) -> Seq<MessageV> {
    Seq::new(v.len(), |i: int| v[i]@)
}

impl View for MultiMessage {
    type V = Seq<MessageV>;

    open spec fn view(&self) -> Seq<MessageV> {
        messages_view(self.messages@)
    }
}

/// An exact copy of a list of messages.
pub fn clone_messages(v: &Vec<Message>) -> (r: Vec<Message>)
    ensures
        messages_view(r@) == messages_view(v@),
{
    let mut r: Vec<Message> = Vec::new();
    let mut i: usize = 0;
    while i < v.len()
        invariant
            i <= v.len(),
            r@.len() == i,
            forall|j: int| 0 <= j < i ==> r@[j]@ == v@[j]@,
        decreases v.len() - i,
    {
        r.push(v[i].deep_clone());
        i += 1;
    }
    proof {
        assert(messages_view(r@) =~= messages_view(v@));
    }
    r
}

impl MultiMessage {
    /// An exact copy of this container.
    pub fn deep_clone(&self) -> (r: MultiMessage)
        ensures
            r@ == self@,
    {
        MultiMessage { messages: clone_messages(&self.messages) }
    }
}

} // verus!
