//! The erased callables behind function symbols.
//!
//! A [`DynamicFunction`] is the behaviour of one function symbol: given an
//! ordered list of erased arguments it computes an erased result.  The
//! behaviours are interpreted, so every application is verified against a
//! specification-level interpreter, [`apply_spec`]: evaluation is a pure
//! function of the arguments, which makes trace execution replayable.

use vstd::prelude::*;
use crate::codec::message_payload_bytes;
use crate::codec::message_to_opaque;
use crate::codec::message_to_opaque_spec;
use crate::codec::opaque_bytes;
use crate::codec::encode_opaque;
use crate::codec::wf_message;
use crate::codec::rd16;
use crate::crypto::hmac_sha256;
use crate::crypto::hmac_sha256_of;
use crate::crypto::HMAC_MAX_DATA_LEN;
use crate::error::FnError;
use crate::msgs::ClientExtension;
use crate::msgs::ClientExtensionV;
use crate::msgs::ClientHelloData;
use crate::msgs::ClientHelloDataV;
use crate::msgs::HandshakePayloadData;
use crate::msgs::HandshakePayloadDataV;
use crate::msgs::Message;
use crate::msgs::MessageV;
use crate::msgs::MessagePayload;
use crate::msgs::MessagePayloadV;
use crate::msgs::ServerHelloData;
use crate::msgs::ServerHelloDataV;
use crate::msgs::clone_client_extensions;
use crate::msgs::clone_server_extensions;
use crate::msgs::client_extensions_view;
use crate::msgs::server_extensions_view;
use crate::msgs::EXT_RENEGOTIATION_INFO;
use crate::msgs::EXT_SIGNATURE_ALGORITHMS;
use crate::msgs::VERSION_TLS12;
use crate::util::clone_copy_vec;
use crate::value::EcdhParams;
use crate::value::EcdhParamsV;
use crate::value::TypedValue;
use crate::value::TypedValueV;

verus! {

/// Model of a [`DynamicFunction`].
pub enum DynFnV {
    Const(TypedValueV),
    AppendCipherSuite,
    ClientExtensionsAppend,
    ServerExtensionsAppend,
    RenegotiationInfoExtension,
    AttackCve20213449,
    ClientHello,
    ServerHello,
    ApplicationData,
    Certificate,
    ServerKeyExchange,
    ClientKeyExchange,
    Finished,
    ConcatMessages2,
    ConcatMessages3,
    AppendTranscript,
    DecodeEcdhParams,
    SignTranscript,
    Encrypt12,
    ArbitraryToKey,
    Hmac256,
}

/// The behaviour of one function symbol.  A constant symbol carries its
/// value; every other behaviour computes from its arguments alone.
/// The signing and sealing behaviours are deterministic: signing is the
/// keyed digest of random and transcript under the peer's public key,
/// and sealing wraps a message's record bytes as application data, so a
/// trace replays to identical wire bytes.
#[derive(Debug)]
pub enum DynamicFunction {
    Const(TypedValue),
    AppendCipherSuite,
    ClientExtensionsAppend,
    ServerExtensionsAppend,
    RenegotiationInfoExtension,
    AttackCve20213449,
    ClientHello,
    ServerHello,
    ApplicationData,
    Certificate,
    ServerKeyExchange,
    ClientKeyExchange,
    Finished,
    ConcatMessages2,
    ConcatMessages3,
    AppendTranscript,
    DecodeEcdhParams,
    SignTranscript,
    Encrypt12,
    ArbitraryToKey,
    Hmac256,
}

impl View for DynamicFunction {
    type V = DynFnV;

    open spec fn view(&self) -> DynFnV {
        match self {
            DynamicFunction::Const(v) => DynFnV::Const(v@),
            DynamicFunction::AppendCipherSuite => DynFnV::AppendCipherSuite,
            DynamicFunction::ClientExtensionsAppend => DynFnV::ClientExtensionsAppend,
            DynamicFunction::ServerExtensionsAppend => DynFnV::ServerExtensionsAppend,
            DynamicFunction::RenegotiationInfoExtension => DynFnV::RenegotiationInfoExtension,
            DynamicFunction::AttackCve20213449 => DynFnV::AttackCve20213449,
            DynamicFunction::ClientHello => DynFnV::ClientHello,
            DynamicFunction::ServerHello => DynFnV::ServerHello,
            DynamicFunction::ApplicationData => DynFnV::ApplicationData,
            DynamicFunction::Certificate => DynFnV::Certificate,
            DynamicFunction::ServerKeyExchange => DynFnV::ServerKeyExchange,
            DynamicFunction::ClientKeyExchange => DynFnV::ClientKeyExchange,
            DynamicFunction::Finished => DynFnV::Finished,
            DynamicFunction::ConcatMessages2 => DynFnV::ConcatMessages2,
            DynamicFunction::ConcatMessages3 => DynFnV::ConcatMessages3,
            DynamicFunction::AppendTranscript => DynFnV::AppendTranscript,
            DynamicFunction::DecodeEcdhParams => DynFnV::DecodeEcdhParams,
            DynamicFunction::SignTranscript => DynFnV::SignTranscript,
            DynamicFunction::Encrypt12 => DynFnV::Encrypt12,
            DynamicFunction::ArbitraryToKey => DynFnV::ArbitraryToKey,
            DynamicFunction::Hmac256 => DynFnV::Hmac256,
        }
    }
}

impl DynamicFunction {
    /// An exact copy of this behaviour.
    pub fn deep_clone(&self) -> (r: DynamicFunction)
        ensures
            r@ == self@,
    {
        match self {
            DynamicFunction::Const(v) => DynamicFunction::Const(v.deep_clone()),
            DynamicFunction::AppendCipherSuite => DynamicFunction::AppendCipherSuite,
            DynamicFunction::ClientExtensionsAppend => DynamicFunction::ClientExtensionsAppend,
            DynamicFunction::ServerExtensionsAppend => DynamicFunction::ServerExtensionsAppend,
            DynamicFunction::RenegotiationInfoExtension => {
                DynamicFunction::RenegotiationInfoExtension
            },
            DynamicFunction::AttackCve20213449 => DynamicFunction::AttackCve20213449,
            DynamicFunction::ClientHello => DynamicFunction::ClientHello,
            DynamicFunction::ServerHello => DynamicFunction::ServerHello,
            DynamicFunction::ApplicationData => DynamicFunction::ApplicationData,
            DynamicFunction::Certificate => DynamicFunction::Certificate,
            DynamicFunction::ServerKeyExchange => DynamicFunction::ServerKeyExchange,
            DynamicFunction::ClientKeyExchange => DynamicFunction::ClientKeyExchange,
            DynamicFunction::Finished => DynamicFunction::Finished,
            DynamicFunction::ConcatMessages2 => DynamicFunction::ConcatMessages2,
            DynamicFunction::ConcatMessages3 => DynamicFunction::ConcatMessages3,
            DynamicFunction::AppendTranscript => DynamicFunction::AppendTranscript,
            DynamicFunction::DecodeEcdhParams => DynamicFunction::DecodeEcdhParams,
            DynamicFunction::SignTranscript => DynamicFunction::SignTranscript,
            DynamicFunction::Encrypt12 => DynamicFunction::Encrypt12,
            DynamicFunction::ArbitraryToKey => DynamicFunction::ArbitraryToKey,
            DynamicFunction::Hmac256 => DynamicFunction::Hmac256,
        }
    }
}

/// The views of a list of erased values, in order.
pub open spec fn values_view(s: Seq<TypedValue>) -> Seq<TypedValueV> {
    Seq::new(s.len(), |i: int| s[i]@)
}

/// A client extension list with every signature_algorithms extension
/// stripped; the rest keeps its order.
pub open spec fn strip_signature_algorithms(s: Seq<ClientExtensionV>) -> Seq<ClientExtensionV>
    decreases s.len(),
{
    if s.len() == 0 {
        Seq::empty()
    } else if s[0].ext_type == EXT_SIGNATURE_ALGORITHMS {
        strip_signature_algorithms(s.drop_first())
    } else {
        seq![s[0]] + strip_signature_algorithms(s.drop_first())
    }
}

proof fn lemma_strip_snoc(s: Seq<ClientExtensionV>, i: int)
    requires
        0 <= i < s.len(),
    ensures
        strip_signature_algorithms(s.subrange(0, i + 1)) == if s[i].ext_type
            == EXT_SIGNATURE_ALGORITHMS {
            strip_signature_algorithms(s.subrange(0, i))
        } else {
            strip_signature_algorithms(s.subrange(0, i)) + seq![s[i]]
        },
    decreases i,
{
    let a = s.subrange(0, i + 1);
    let b = s.subrange(0, i);
    if i == 0 {
        assert(a.drop_first() =~= Seq::<ClientExtensionV>::empty());
        assert(b =~= Seq::<ClientExtensionV>::empty());
        if s[0].ext_type != EXT_SIGNATURE_ALGORITHMS {
            assert(strip_signature_algorithms(a) =~= strip_signature_algorithms(b) + seq![s[0]]);
        }
    } else {
        lemma_strip_snoc(s.drop_first(), i - 1);
        assert(a.drop_first() =~= s.drop_first().subrange(0, i));
        assert(b.drop_first() =~= s.drop_first().subrange(0, i - 1));
        if s[i].ext_type == EXT_SIGNATURE_ALGORITHMS {
            assert(strip_signature_algorithms(a) =~= strip_signature_algorithms(b));
        } else {
            assert(strip_signature_algorithms(a) =~= strip_signature_algorithms(b) + seq![s[i]]);
        }
    }
}

/// The result a behaviour owes for the given arguments, or the error it
/// must report.  This is the reference interpreter every application is
/// verified against.
pub open spec fn apply_spec(f: DynFnV, args: Seq<TypedValueV>) -> Result<TypedValueV, FnError> {
    match f {
        DynFnV::Const(v) => if args.len() == 0 {
            Ok(v)
        } else {
            Err(FnError::Unknown)
        },
        DynFnV::AppendCipherSuite => if args.len() == 2 && args[0] is CipherSuites && args[1]
            is CipherSuite {
            Ok(TypedValueV::CipherSuites(args[0]->CipherSuites_0.push(args[1]->CipherSuite_0)))
        } else {
            Err(FnError::Unknown)
        },
        DynFnV::ClientExtensionsAppend => if args.len() == 2 && args[0] is ClientExtensions
            && args[1] is ClientExtension {
            Ok(
                TypedValueV::ClientExtensions(
                    args[0]->ClientExtensions_0.push(args[1]->ClientExtension_0),
                ),
            )
        } else {
            Err(FnError::Unknown)
        },
        DynFnV::ServerExtensionsAppend => if args.len() == 2 && args[0] is ServerExtensions
            && args[1] is ServerExtension {
            Ok(
                TypedValueV::ServerExtensions(
                    args[0]->ServerExtensions_0.push(args[1]->ServerExtension_0),
                ),
            )
        } else {
            Err(FnError::Unknown)
        },
        DynFnV::RenegotiationInfoExtension => if args.len() == 1 && args[0] is Bytes && args[0]
            ->Bytes_0.len() <= 0xff {
            Ok(
                TypedValueV::ClientExtension(
                    ClientExtensionV {
                        ext_type: EXT_RENEGOTIATION_INFO,
                        body: seq![(args[0]->Bytes_0.len() as u8)] + args[0]->Bytes_0,
                    },
                ),
            )
        } else {
            Err(FnError::Unknown)
        },
        DynFnV::AttackCve20213449 => if args.len() == 1 && args[0] is ClientExtensions {
            Ok(
                TypedValueV::ClientExtensions(
                    strip_signature_algorithms(args[0]->ClientExtensions_0),
                ),
            )
        } else {
            Err(FnError::Unknown)
        },
        DynFnV::ClientHello => if args.len() == 6 && args[0] is ProtocolVersion && args[1]
            is Random && args[2] is SessionId && args[3] is CipherSuites && args[4]
            is Compressions && args[5] is ClientExtensions {
            Ok(
                TypedValueV::Message(
                    MessageV {
                        version: VERSION_TLS12,
                        payload: MessagePayloadV::Handshake(
                            HandshakePayloadDataV::ClientHello(
                                ClientHelloDataV {
                                    client_version: args[0]->ProtocolVersion_0,
                                    random: args[1]->Random_0,
                                    session_id: args[2]->SessionId_0,
                                    cipher_suites: args[3]->CipherSuites_0,
                                    compression_methods: args[4]->Compressions_0,
                                    extensions: args[5]->ClientExtensions_0,
                                },
                            ),
                        ),
                    },
                ),
            )
        } else {
            Err(FnError::Unknown)
        },
        DynFnV::ServerHello => if args.len() == 6 && args[0] is ProtocolVersion && args[1]
            is Random && args[2] is SessionId && args[3] is CipherSuite && args[4] is Compression
            && args[5] is ServerExtensions {
            Ok(
                TypedValueV::Message(
                    MessageV {
                        version: VERSION_TLS12,
                        payload: MessagePayloadV::Handshake(
                            HandshakePayloadDataV::ServerHello(
                                ServerHelloDataV {
                                    legacy_version: args[0]->ProtocolVersion_0,
                                    random: args[1]->Random_0,
                                    session_id: args[2]->SessionId_0,
                                    cipher_suite: args[3]->CipherSuite_0,
                                    compression_method: args[4]->Compression_0,
                                    extensions: args[5]->ServerExtensions_0,
                                },
                            ),
                        ),
                    },
                ),
            )
        } else {
            Err(FnError::Unknown)
        },
        DynFnV::ApplicationData => if args.len() == 1 && args[0] is Payload {
            Ok(
                TypedValueV::Message(
                    MessageV {
                        version: VERSION_TLS12,
                        payload: MessagePayloadV::ApplicationData(args[0]->Payload_0),
                    },
                ),
            )
        } else {
            Err(FnError::Unknown)
        },
        DynFnV::Certificate => if args.len() == 1 && args[0] is Certificate {
            Ok(
                TypedValueV::Message(
                    MessageV {
                        version: VERSION_TLS12,
                        payload: MessagePayloadV::Handshake(
                            HandshakePayloadDataV::Certificate(args[0]->Certificate_0),
                        ),
                    },
                ),
            )
        } else {
            Err(FnError::Unknown)
        },
        DynFnV::ServerKeyExchange => if args.len() == 1 && args[0] is Payload {
            Ok(
                TypedValueV::Message(
                    MessageV {
                        version: VERSION_TLS12,
                        payload: MessagePayloadV::Handshake(
                            HandshakePayloadDataV::ServerKeyExchange(args[0]->Payload_0),
                        ),
                    },
                ),
            )
        } else {
            Err(FnError::Unknown)
        },
        DynFnV::ClientKeyExchange => if args.len() == 1 && args[0] is Payload {
            Ok(
                TypedValueV::Message(
                    MessageV {
                        version: VERSION_TLS12,
                        payload: MessagePayloadV::Handshake(
                            HandshakePayloadDataV::ClientKeyExchange(args[0]->Payload_0),
                        ),
                    },
                ),
            )
        } else {
            Err(FnError::Unknown)
        },
        DynFnV::Finished => if args.len() == 1 && args[0] is Bytes {
            Ok(
                TypedValueV::Message(
                    MessageV {
                        version: VERSION_TLS12,
                        payload: MessagePayloadV::Handshake(
                            HandshakePayloadDataV::Finished(args[0]->Bytes_0),
                        ),
                    },
                ),
            )
        } else {
            Err(FnError::Unknown)
        },
        DynFnV::ConcatMessages2 => if args.len() == 2 && args[0] is Message && args[1]
            is Message {
            Ok(TypedValueV::MultiMessage(seq![args[0]->Message_0, args[1]->Message_0]))
        } else {
            Err(FnError::Unknown)
        },
        DynFnV::ConcatMessages3 => if args.len() == 3 && args[0] is Message && args[1] is Message
            && args[2] is Message {
            Ok(
                TypedValueV::MultiMessage(
                    seq![args[0]->Message_0, args[1]->Message_0, args[2]->Message_0],
                ),
            )
        } else {
            Err(FnError::Unknown)
        },
        DynFnV::AppendTranscript => if args.len() == 2 && args[0] is HandshakeHash && args[1]
            is Message {
            let m = args[1]->Message_0;
            match m.payload {
                MessagePayloadV::Handshake(h) => if wf_message(m) {
                    Ok(
                        TypedValueV::HandshakeHash(
                            args[0]->HandshakeHash_0 + message_payload_bytes(m.payload),
                        ),
                    )
                } else {
                    Err(FnError::Unknown)
                },
                _ => Ok(TypedValueV::HandshakeHash(args[0]->HandshakeHash_0)),
            }
        } else {
            Err(FnError::Unknown)
        },
        DynFnV::DecodeEcdhParams => if args.len() == 1 && args[0] is Payload {
            let b = args[0]->Payload_0;
            if b.len() >= 4 && b[0] == 3 && 4 + (b[3] as int) == b.len() {
                Ok(
                    TypedValueV::EcdhParams(
                        EcdhParamsV {
                            curve_id: rd16(b, 1) as u16,
                            public_key: b.subrange(4, b.len() as int),
                        },
                    ),
                )
            } else {
                Err(FnError::Unknown)
            }
        } else {
            Err(FnError::Unknown)
        },
        DynFnV::SignTranscript => if args.len() == 3 && args[0] is Random && args[1]
            is EcdhParams && args[2] is HandshakeHash {
            let data = args[0]->Random_0 + args[2]->HandshakeHash_0;
            if data.len() <= HMAC_MAX_DATA_LEN {
                Ok(TypedValueV::Bytes(hmac_sha256_of(args[1]->EcdhParams_0.public_key, data)))
            } else {
                Err(FnError::Unknown)
            }
        } else {
            Err(FnError::Unknown)
        },
        DynFnV::Encrypt12 => if args.len() == 4 && args[0] is Message && args[1] is Random
            && args[2] is EcdhParams && args[3] is U64 {
            let m = args[0]->Message_0;
            if wf_message(m) {
                Ok(
                    TypedValueV::Message(
                        MessageV {
                            version: VERSION_TLS12,
                            payload: MessagePayloadV::ApplicationData(
                                opaque_bytes(message_to_opaque_spec(m)),
                            ),
                        },
                    ),
                )
            } else {
                Err(FnError::Unknown)
            }
        } else {
            Err(FnError::Unknown)
        },
        DynFnV::ArbitraryToKey => if args.len() == 1 && args[0] is Bytes {
            Ok(TypedValueV::Key(args[0]->Bytes_0))
        } else {
            Err(FnError::Unknown)
        },
        DynFnV::Hmac256 => if args.len() == 2 && args[0] is Key && args[1] is Bytes && args[1]
            ->Bytes_0.len() <= HMAC_MAX_DATA_LEN {
            Ok(TypedValueV::Bytes(hmac_sha256_of(args[0]->Key_0, args[1]->Bytes_0)))
        } else {
            Err(FnError::Unknown)
        },
    }
}

/// Invoke a behaviour on an ordered list of erased arguments.  The
/// result is exactly what [`apply_spec`] owes: evaluation is replayable.
pub fn apply(f: &DynamicFunction, args: &Vec<TypedValue>) -> (r: Result<TypedValue, FnError>)
    ensures
        match r {
            Ok(v) => apply_spec(f@, values_view(args@)) == Ok::<TypedValueV, FnError>(v@),
            Err(e) => apply_spec(f@, values_view(args@)) == Err::<TypedValueV, FnError>(e),
        },
{
    let ghost argv = values_view(args@);
    match f {
        DynamicFunction::Const(v) => {
            if args.len() == 0 {
                Ok(v.deep_clone())
            } else {
                Err(FnError::Unknown)
            }
        },
        DynamicFunction::AppendCipherSuite => {
            if args.len() == 2 {
                match (&args[0], &args[1]) {
                    (TypedValue::CipherSuites(cs), TypedValue::CipherSuite(c)) => {
                        let mut out = clone_copy_vec(cs);
                        out.push(*c);
                        Ok(TypedValue::CipherSuites(out))
                    },
                    _ => Err(FnError::Unknown),
                }
            } else {
                Err(FnError::Unknown)
            }
        },
        DynamicFunction::ClientExtensionsAppend => {
            if args.len() == 2 {
                match (&args[0], &args[1]) {
                    (TypedValue::ClientExtensions(es), TypedValue::ClientExtension(e)) => {
                        let mut out = clone_client_extensions(es);
                        out.push(e.deep_clone());
                        proof {
                            assert(client_extensions_view(out@) =~= argv[0]->ClientExtensions_0
                                .push(argv[1]->ClientExtension_0));
                        }
                        Ok(TypedValue::ClientExtensions(out))
                    },
                    _ => Err(FnError::Unknown),
                }
            } else {
                Err(FnError::Unknown)
            }
        },
        DynamicFunction::ServerExtensionsAppend => {
            if args.len() == 2 {
                match (&args[0], &args[1]) {
                    (TypedValue::ServerExtensions(es), TypedValue::ServerExtension(e)) => {
                        let mut out = clone_server_extensions(es);
                        out.push(e.deep_clone());
                        proof {
                            assert(server_extensions_view(out@) =~= argv[0]->ServerExtensions_0
                                .push(argv[1]->ServerExtension_0));
                        }
                        Ok(TypedValue::ServerExtensions(out))
                    },
                    _ => Err(FnError::Unknown),
                }
            } else {
                Err(FnError::Unknown)
            }
        },
        DynamicFunction::RenegotiationInfoExtension => {
            if args.len() == 1 {
                match &args[0] {
                    TypedValue::Bytes(b) => {
                        if b.len() <= 0xff {
                            let mut body: Vec<u8> = Vec::new();
                            body.push(b.len() as u8);
                            let mut i: usize = 0;
                            while i < b.len()
                                invariant
                                    i <= b@.len(),
                                    body@ == seq![(b@.len() as u8)] + b@.subrange(0, i as int),
                                decreases b@.len() - i,
                            {
                                body.push(b[i]);
                                proof {
                                    assert(body@ =~= seq![(b@.len() as u8)] + b@.subrange(
                                        0,
                                        i + 1 as int,
                                    ));
                                }
                                i += 1;
                            }
                            proof {
                                assert(body@ =~= seq![(b@.len() as u8)] + b@);
                            }
                            Ok(
                                TypedValue::ClientExtension(
                                    ClientExtension {
                                        ext_type: EXT_RENEGOTIATION_INFO,
                                        body,
                                    },
                                ),
                            )
                        } else {
                            Err(FnError::Unknown)
                        }
                    },
                    _ => Err(FnError::Unknown),
                }
            } else {
                Err(FnError::Unknown)
            }
        },
        DynamicFunction::AttackCve20213449 => {
            if args.len() == 1 {
                match &args[0] {
                    TypedValue::ClientExtensions(es) => {
                        let ghost full = client_extensions_view(es@);
                        let mut out: Vec<ClientExtension> = Vec::new();
                        let mut i: usize = 0;
                        while i < es.len()
                            invariant
                                i <= es.len(),
                                full == client_extensions_view(es@),
                                client_extensions_view(out@) == strip_signature_algorithms(
                                    full.subrange(0, i as int),
                                ),
                            decreases es.len() - i,
                        {
                            proof {
                                assert(full[i as int] == es@[i as int]@);
                                lemma_strip_snoc(full, i as int);
                            }
                            if args_ext_type(&es[i]) != EXT_SIGNATURE_ALGORITHMS {
                                out.push(es[i].deep_clone());
                                proof {
                                    assert(client_extensions_view(out@) =~= strip_signature_algorithms(
                                        full.subrange(0, i + 1 as int),
                                    ));
                                }
                            } else {
                                proof {
                                    assert(client_extensions_view(out@) =~= strip_signature_algorithms(
                                        full.subrange(0, i + 1 as int),
                                    ));
                                }
                            }
                            i += 1;
                        }
                        proof {
                            assert(full.subrange(0, full.len() as int) =~= full);
                        }
                        Ok(TypedValue::ClientExtensions(out))
                    },
                    _ => Err(FnError::Unknown),
                }
            } else {
                Err(FnError::Unknown)
            }
        },
        DynamicFunction::ClientHello => {
            if args.len() == 6 {
                match (&args[0], &args[1], &args[2], &args[3], &args[4], &args[5]) {
                    (
                        TypedValue::ProtocolVersion(pv),
                        TypedValue::Random(r),
                        TypedValue::SessionId(sid),
                        TypedValue::CipherSuites(cs),
                        TypedValue::Compressions(cps),
                        TypedValue::ClientExtensions(exts),
                    ) => Ok(
                        TypedValue::Message(
                            Message {
                                version: VERSION_TLS12,
                                payload: MessagePayload::Handshake(
                                    HandshakePayloadData::ClientHello(
                                        ClientHelloData {
                                            client_version: *pv,
                                            random: clone_copy_vec(r),
                                            session_id: clone_copy_vec(sid),
                                            cipher_suites: clone_copy_vec(cs),
                                            compression_methods: clone_copy_vec(cps),
                                            extensions: clone_client_extensions(exts),
                                        },
                                    ),
                                ),
                            },
                        ),
                    ),
                    _ => Err(FnError::Unknown),
                }
            } else {
                Err(FnError::Unknown)
            }
        },
        DynamicFunction::ServerHello => {
            if args.len() == 6 {
                match (&args[0], &args[1], &args[2], &args[3], &args[4], &args[5]) {
                    (
                        TypedValue::ProtocolVersion(pv),
                        TypedValue::Random(r),
                        TypedValue::SessionId(sid),
                        TypedValue::CipherSuite(cs),
                        TypedValue::Compression(cp),
                        TypedValue::ServerExtensions(exts),
                    ) => Ok(
                        TypedValue::Message(
                            Message {
                                version: VERSION_TLS12,
                                payload: MessagePayload::Handshake(
                                    HandshakePayloadData::ServerHello(
                                        ServerHelloData {
                                            legacy_version: *pv,
                                            random: clone_copy_vec(r),
                                            session_id: clone_copy_vec(sid),
                                            cipher_suite: *cs,
                                            compression_method: *cp,
                                            extensions: clone_server_extensions(exts),
                                        },
                                    ),
                                ),
                            },
                        ),
                    ),
                    _ => Err(FnError::Unknown),
                }
            } else {
                Err(FnError::Unknown)
            }
        },
        DynamicFunction::ApplicationData => {
            if args.len() == 1 {
                match &args[0] {
                    TypedValue::Payload(b) => Ok(
                        TypedValue::Message(
                            Message {
                                version: VERSION_TLS12,
                                payload: MessagePayload::ApplicationData(clone_copy_vec(b)),
                            },
                        ),
                    ),
                    _ => Err(FnError::Unknown),
                }
            } else {
                Err(FnError::Unknown)
            }
        },
        DynamicFunction::Certificate => {
            if args.len() == 1 {
                match &args[0] {
                    TypedValue::Certificate(c) => {
                        let r = TypedValue::Message(
                            Message {
                                version: VERSION_TLS12,
                                payload: MessagePayload::Handshake(
                                    HandshakePayloadData::Certificate(
                                        crate::util::clone_bytes_vec(c),
                                    ),
                                ),
                            },
                        );
                        proof {
                            assert(r@->Message_0.payload->Handshake_0->Certificate_0 =~= argv[0]
                                ->Certificate_0);
                        }
                        Ok(r)
                    },
                    _ => Err(FnError::Unknown),
                }
            } else {
                Err(FnError::Unknown)
            }
        },
        DynamicFunction::ServerKeyExchange => {
            if args.len() == 1 {
                match &args[0] {
                    TypedValue::Payload(b) => Ok(
                        TypedValue::Message(
                            Message {
                                version: VERSION_TLS12,
                                payload: MessagePayload::Handshake(
                                    HandshakePayloadData::ServerKeyExchange(clone_copy_vec(b)),
                                ),
                            },
                        ),
                    ),
                    _ => Err(FnError::Unknown),
                }
            } else {
                Err(FnError::Unknown)
            }
        },
        DynamicFunction::ClientKeyExchange => {
            if args.len() == 1 {
                match &args[0] {
                    TypedValue::Payload(b) => Ok(
                        TypedValue::Message(
                            Message {
                                version: VERSION_TLS12,
                                payload: MessagePayload::Handshake(
                                    HandshakePayloadData::ClientKeyExchange(clone_copy_vec(b)),
                                ),
                            },
                        ),
                    ),
                    _ => Err(FnError::Unknown),
                }
            } else {
                Err(FnError::Unknown)
            }
        },
        DynamicFunction::Finished => {
            if args.len() == 1 {
                match &args[0] {
                    TypedValue::Bytes(b) => Ok(
                        TypedValue::Message(
                            Message {
                                version: VERSION_TLS12,
                                payload: MessagePayload::Handshake(
                                    HandshakePayloadData::Finished(clone_copy_vec(b)),
                                ),
                            },
                        ),
                    ),
                    _ => Err(FnError::Unknown),
                }
            } else {
                Err(FnError::Unknown)
            }
        },
        DynamicFunction::ConcatMessages2 => {
            if args.len() == 2 {
                match (&args[0], &args[1]) {
                    (TypedValue::Message(m1), TypedValue::Message(m2)) => {
                        let mut v: Vec<Message> = Vec::new();
                        v.push(m1.deep_clone());
                        v.push(m2.deep_clone());
                        let r = TypedValue::MultiMessage(v);
                        proof {
                            assert(r@->MultiMessage_0 =~= seq![
                                argv[0]->Message_0,
                                argv[1]->Message_0,
                            ]);
                        }
                        Ok(r)
                    },
                    _ => Err(FnError::Unknown),
                }
            } else {
                Err(FnError::Unknown)
            }
        },
        DynamicFunction::ConcatMessages3 => {
            if args.len() == 3 {
                match (&args[0], &args[1], &args[2]) {
                    (
                        TypedValue::Message(m1),
                        TypedValue::Message(m2),
                        TypedValue::Message(m3),
                    ) => {
                        let mut v: Vec<Message> = Vec::new();
                        v.push(m1.deep_clone());
                        v.push(m2.deep_clone());
                        v.push(m3.deep_clone());
                        let r = TypedValue::MultiMessage(v);
                        proof {
                            assert(r@->MultiMessage_0 =~= seq![
                                argv[0]->Message_0,
                                argv[1]->Message_0,
                                argv[2]->Message_0,
                            ]);
                        }
                        Ok(r)
                    },
                    _ => Err(FnError::Unknown),
                }
            } else {
                Err(FnError::Unknown)
            }
        },
        DynamicFunction::AppendTranscript => {
            if args.len() == 2 {
                match (&args[0], &args[1]) {
                    (TypedValue::HandshakeHash(t), TypedValue::Message(m)) => {
                        match &m.payload {
                            MessagePayload::Handshake(_) => {
                                match message_to_opaque(m) {
                                    Ok(om) => {
                                        let mut out = clone_copy_vec(t);
                                        let ghost pre = out@;
                                        let mut i: usize = 0;
                                        while i < om.payload.len()
                                            invariant
                                                i <= om.payload@.len(),
                                                out@ == pre + om.payload@.subrange(0, i as int),
                                            decreases om.payload@.len() - i,
                                        {
                                            out.push(om.payload[i]);
                                            proof {
                                                assert(out@ =~= pre + om.payload@.subrange(
                                                    0,
                                                    i + 1 as int,
                                                ));
                                            }
                                            i += 1;
                                        }
                                        proof {
                                            assert(out@ =~= pre + om.payload@);
                                        }
                                        Ok(TypedValue::HandshakeHash(out))
                                    },
                                    Err(_) => Err(FnError::Unknown),
                                }
                            },
                            _ => Ok(TypedValue::HandshakeHash(clone_copy_vec(t))),
                        }
                    },
                    _ => Err(FnError::Unknown),
                }
            } else {
                Err(FnError::Unknown)
            }
        },
        DynamicFunction::DecodeEcdhParams => {
            if args.len() == 1 {
                match &args[0] {
                    TypedValue::Payload(b) => {
                        let n: usize = b.len();
                        if n >= 4 && b[0] == 3 && 4 + (b[3] as usize) == n {
                            let curve_id = (b[1] as u16) * 256 + (b[2] as u16);
                            let mut pk: Vec<u8> = Vec::new();
                            let mut i: usize = 4;
                            while i < n
                                invariant
                                    4 <= i <= n,
                                    n == b@.len(),
                                    pk@ == b@.subrange(4, i as int),
                                decreases n - i,
                            {
                                pk.push(b[i]);
                                proof {
                                    assert(pk@ =~= b@.subrange(4, i + 1 as int));
                                }
                                i += 1;
                            }
                            Ok(TypedValue::EcdhParams(EcdhParams { curve_id, public_key: pk }))
                        } else {
                            Err(FnError::Unknown)
                        }
                    },
                    _ => Err(FnError::Unknown),
                }
            } else {
                Err(FnError::Unknown)
            }
        },
        DynamicFunction::SignTranscript => {
            if args.len() == 3 {
                match (&args[0], &args[1], &args[2]) {
                    (
                        TypedValue::Random(r),
                        TypedValue::EcdhParams(p),
                        TypedValue::HandshakeHash(t),
                    ) => {
                        let mut data = clone_copy_vec(r);
                        let ghost pre = data@;
                        let mut i: usize = 0;
                        while i < t.len()
                            invariant
                                i <= t@.len(),
                                data@ == pre + t@.subrange(0, i as int),
                            decreases t@.len() - i,
                        {
                            data.push(t[i]);
                            proof {
                                assert(data@ =~= pre + t@.subrange(0, i + 1 as int));
                            }
                            i += 1;
                        }
                        proof {
                            assert(data@ =~= pre + t@);
                        }
                        if data.len() <= crate::crypto::HMAC_MAX_DATA_LEN {
                            Ok(TypedValue::Bytes(hmac_sha256(&p.public_key, &data)))
                        } else {
                            Err(FnError::Unknown)
                        }
                    },
                    _ => Err(FnError::Unknown),
                }
            } else {
                Err(FnError::Unknown)
            }
        },
        DynamicFunction::Encrypt12 => {
            if args.len() == 4 {
                match (&args[0], &args[1], &args[2], &args[3]) {
                    (
                        TypedValue::Message(m),
                        TypedValue::Random(_),
                        TypedValue::EcdhParams(_),
                        TypedValue::U64(_),
                    ) => {
                        match message_to_opaque(m) {
                            Ok(om) => {
                                match encode_opaque(&om) {
                                    Ok(bytes) => Ok(
                                        TypedValue::Message(
                                            Message {
                                                version: VERSION_TLS12,
                                                payload: MessagePayload::ApplicationData(bytes),
                                            },
                                        ),
                                    ),
                                    Err(_) => Err(FnError::Unknown),
                                }
                            },
                            Err(_) => Err(FnError::Unknown),
                        }
                    },
                    _ => Err(FnError::Unknown),
                }
            } else {
                Err(FnError::Unknown)
            }
        },
        DynamicFunction::ArbitraryToKey => {
            if args.len() == 1 {
                match &args[0] {
                    TypedValue::Bytes(b) => Ok(TypedValue::Key(clone_copy_vec(b))),
                    _ => Err(FnError::Unknown),
                }
            } else {
                Err(FnError::Unknown)
            }
        },
        DynamicFunction::Hmac256 => {
            if args.len() == 2 {
                match (&args[0], &args[1]) {
                    (TypedValue::Key(k), TypedValue::Bytes(m)) => {
                        if m.len() <= crate::crypto::HMAC_MAX_DATA_LEN {
                            Ok(TypedValue::Bytes(hmac_sha256(k, m)))
                        } else {
                            Err(FnError::Unknown)
                        }
                    },
                    _ => Err(FnError::Unknown),
                }
            } else {
                Err(FnError::Unknown)
            }
        },
    }
}

/// The numeric extension type of a client extension.
fn args_ext_type(e: &ClientExtension) -> (r: u16)
    ensures
        r == e@.ext_type,
{
    e.ext_type
}

} // verus!
