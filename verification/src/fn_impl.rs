//! The concrete catalog of function symbols.
//!
//! Each symbol is one [`FunctionDefinition`]: a shape (name, argument
//! types, result type) and a behaviour.  Symbols that take no argument
//! are constants; the spec of a trace mandates that even the "random"
//! constants use fixed bytes, so that a trace executed twice yields
//! identical wire bytes.

use vstd::prelude::*;
use vstd::utf8::encode_utf8;
use vstd::string::StringSliceAdditionalSpecFns;
use crate::dynamic_function::DynamicFunction;
use crate::dynamic_function::DynFnV;
use crate::msgs::ClientExtension;
use crate::msgs::ClientExtensionV;
use crate::msgs::HandshakePayloadData;
use crate::msgs::HandshakePayloadDataV;
use crate::msgs::Message;
use crate::msgs::MessageV;
use crate::msgs::MessagePayload;
use crate::msgs::MessagePayloadV;
use crate::msgs::EXT_EC_POINT_FORMATS;
use crate::msgs::EXT_KEY_SHARE;
use crate::msgs::EXT_SERVER_NAME;
use crate::msgs::EXT_SIGNATURE_ALGORITHMS;
use crate::msgs::EXT_SIGNATURE_ALGORITHMS_CERT;
use crate::msgs::EXT_SIGNED_CERTIFICATE_TIMESTAMP;
use crate::msgs::EXT_SUPPORTED_GROUPS;
use crate::msgs::EXT_SUPPORTED_VERSIONS;
use crate::msgs::VERSION_TLS12;
use crate::signature::FunctionDefinition;
use crate::signature::Signature;
use crate::term::Function;
use crate::types::DynamicFunctionShape;
use crate::types::TypeShape;
use crate::types::TypeShapeV;
use crate::types::TYPE_BYTES;
use crate::types::TYPE_CERTIFICATE;
use crate::types::TYPE_CIPHER_SUITE;
use crate::types::TYPE_CIPHER_SUITES;
use crate::types::TYPE_CLIENT_EXTENSION;
use crate::types::TYPE_CLIENT_EXTENSIONS;
use crate::types::TYPE_COMPRESSION;
use crate::types::TYPE_COMPRESSIONS;
use crate::types::TYPE_ECDH_PARAMS;
use crate::types::TYPE_HANDSHAKE_HASH;
use crate::types::TYPE_KEY;
use crate::types::TYPE_MESSAGE;
use crate::types::TYPE_MULTI_MESSAGE;
use crate::types::TYPE_OPAQUE_MESSAGE;
use crate::types::TYPE_PAYLOAD;
use crate::types::TYPE_PROTOCOL_VERSION;
use crate::types::TYPE_RANDOM;
use crate::types::TYPE_SERVER_EXTENSION;
use crate::types::TYPE_SERVER_EXTENSIONS;
use crate::types::TYPE_SESSION_ID;
use crate::types::TYPE_U64;
use crate::value::TypedValue;
use crate::value::TypedValueV;

verus! {

/// Cipher-suite code points used by the catalog.
pub const SUITE_ECDHE_RSA_AES128_GCM: u16 = 0xc02f;

pub const SUITE_TLS13_AES128_GCM: u16 = 0x1301;

pub const SUITE_RSA_EXPORT_RC4_40: u16 = 0x0003;

/// The canonical name of a registered type.
pub open spec fn canonical_type_name(id: u64) -> Seq<char> {
    if id == TYPE_PROTOCOL_VERSION {
        "ProtocolVersion"@
    } else if id == TYPE_RANDOM {
        "Random"@
    } else if id == TYPE_SESSION_ID {
        "SessionID"@
    } else if id == TYPE_CIPHER_SUITES {
        "Vec<CipherSuite>"@
    } else if id == TYPE_CIPHER_SUITE {
        "CipherSuite"@
    } else if id == TYPE_COMPRESSIONS {
        "Vec<Compression>"@
    } else if id == TYPE_COMPRESSION {
        "Compression"@
    } else if id == TYPE_CLIENT_EXTENSIONS {
        "Vec<ClientExtension>"@
    } else if id == TYPE_CLIENT_EXTENSION {
        "ClientExtension"@
    } else if id == TYPE_SERVER_EXTENSIONS {
        "Vec<ServerExtension>"@
    } else if id == TYPE_SERVER_EXTENSION {
        "ServerExtension"@
    } else if id == TYPE_PAYLOAD {
        "Payload"@
    } else if id == TYPE_MESSAGE {
        "Message"@
    } else if id == TYPE_MULTI_MESSAGE {
        "MultiMessage"@
    } else if id == TYPE_OPAQUE_MESSAGE {
        "OpaqueMessage"@
    } else if id == TYPE_HANDSHAKE_HASH {
        "HandshakeHash"@
    } else if id == TYPE_U64 {
        "u64"@
    } else if id == TYPE_KEY {
        "Key"@
    } else if id == TYPE_BYTES {
        "Vec<u8>"@
    } else if id == TYPE_CERTIFICATE {
        "CertificatePayload"@
    } else if id == TYPE_ECDH_PARAMS {
        "ServerECDHParams"@
    } else {
        "Unknown"@
    }
}

/// The canonical shape of a registered type.
pub open spec fn canonical_type(id: u64) -> TypeShapeV {
    TypeShapeV { id, name: canonical_type_name(id) }
}

/// The canonical shape of a registered type, as a value.
pub fn canonical_type_shape(id: u64) -> (r: TypeShape)
    ensures
        r@ == canonical_type(id),
{
    let name: &str = if id == TYPE_PROTOCOL_VERSION {
        "ProtocolVersion"
    } else if id == TYPE_RANDOM {
        "Random"
    } else if id == TYPE_SESSION_ID {
        "SessionID"
    } else if id == TYPE_CIPHER_SUITES {
        "Vec<CipherSuite>"
    } else if id == TYPE_CIPHER_SUITE {
        "CipherSuite"
    } else if id == TYPE_COMPRESSIONS {
        "Vec<Compression>"
    } else if id == TYPE_COMPRESSION {
        "Compression"
    } else if id == TYPE_CLIENT_EXTENSIONS {
        "Vec<ClientExtension>"
    } else if id == TYPE_CLIENT_EXTENSION {
        "ClientExtension"
    } else if id == TYPE_SERVER_EXTENSIONS {
        "Vec<ServerExtension>"
    } else if id == TYPE_SERVER_EXTENSION {
        "ServerExtension"
    } else if id == TYPE_PAYLOAD {
        "Payload"
    } else if id == TYPE_MESSAGE {
        "Message"
    } else if id == TYPE_MULTI_MESSAGE {
        "MultiMessage"
    } else if id == TYPE_OPAQUE_MESSAGE {
        "OpaqueMessage"
    } else if id == TYPE_HANDSHAKE_HASH {
        "HandshakeHash"
    } else if id == TYPE_U64 {
        "u64"
    } else if id == TYPE_KEY {
        "Key"
    } else if id == TYPE_BYTES {
        "Vec<u8>"
    } else if id == TYPE_CERTIFICATE {
        "CertificatePayload"
    } else if id == TYPE_ECDH_PARAMS {
        "ServerECDHParams"
    } else {
        "Unknown"
    };
    TypeShape { id, name: name.to_owned() }
}

/// The definition with the given name, argument type identifiers,
/// result type identifier and behaviour.
pub open spec fn def_of(
    name: Seq<char>,
    args: Seq<u64>,
    ret: u64,
    b: DynFnV,
) -> crate::term::FunctionV {
    crate::term::FunctionV {
        shape: crate::types::ShapeV {
            name,
            argument_types: Seq::new(args.len(), |i: int| canonical_type(args[i])),
            return_type: canonical_type(ret),
        },
        dynamic_fn: b,
    }
}

/// What it means for a definition to be the symbol with the given name,
/// argument type identifiers, result type identifier and behaviour:
/// exactly that value.
pub open spec fn def_is(
    d: crate::term::FunctionV,
    name: Seq<char>,
    args: Seq<u64>,
    ret: u64,
    b: DynFnV,
) -> bool {
    d == def_of(name, args, ret, b)
}

/// Assemble a definition from name, argument type identifiers, result
/// type identifier and behaviour.
fn make_def(name: &str, arg_ids: &Vec<u64>, ret_id: u64, dynamic_fn: DynamicFunction) -> (r:
    FunctionDefinition)
    ensures
        def_is(
            r@,
            name@,
            arg_ids@,
            ret_id,
            dynamic_fn@,
        ),
{
    let mut argument_types: Vec<TypeShape> = Vec::new();
    let mut i: usize = 0;
    while i < arg_ids.len()
        invariant
            i <= arg_ids@.len(),
            argument_types@.len() == i,
            forall|j: int| 0 <= j < i ==> argument_types@[j]@ == canonical_type(arg_ids@[j]),
        decreases arg_ids@.len() - i,
    {
        argument_types.push(canonical_type_shape(arg_ids[i]));
        i += 1;
    }
    let shape = DynamicFunctionShape {
        name: name.to_owned(),
        argument_types,
        return_type: canonical_type_shape(ret_id),
    };
    let r = Function { shape, dynamic_fn };
    proof {
        assert(r@.shape.argument_types =~= def_of(
            name@,
            arg_ids@,
            ret_id,
            dynamic_fn@,
        ).shape.argument_types);
        assert(r@.shape =~= def_of(name@, arg_ids@, ret_id, dynamic_fn@).shape);
    }
    r
}

/// `n` copies of one byte.
fn repeat_byte(b: u8, n: usize) -> (r: Vec<u8>)
    ensures
        r@ == Seq::new(n as nat, |i: int| b),
{
    let mut out: Vec<u8> = Vec::new();
    let mut i: usize = 0;
    while i < n
        invariant
            i <= n,
            out@ == Seq::new(i as nat, |k: int| b),
        decreases n - i,
    {
        out.push(b);
        proof {
            assert(out@ =~= Seq::new((i + 1) as nat, |k: int| b));
        }
        i += 1;
    }
    out
}

/// The fixed 32 bytes standing in for the client random.
pub open spec fn fixed_random_bytes() -> Seq<u8> {
    Seq::new(32, |i: int| 1u8)
}

/// The fixed 32 bytes standing in for a generated key.
pub open spec fn fixed_key_bytes() -> Seq<u8> {
    Seq::new(32, |i: int| 42u8)
}

/// The fixed 32 bytes standing in for the client's key-exchange public
/// key.
pub open spec fn fixed_pubkey_bytes() -> Seq<u8> {
    Seq::new(32, |i: int| 2u8)
}

/// Sequence number constants offered to encrypting symbols.
pub fn op_seq_0() -> (r: u64)
    ensures
        r == 0,
{
    0
}

pub fn op_seq_1() -> (r: u64)
    ensures
        r == 1,
{
    1
}

pub fn op_seq_2() -> (r: u64)
    ensures
        r == 2,
{
    2
}

pub fn op_seq_3() -> (r: u64)
    ensures
        r == 3,
{
    3
}

pub fn op_seq_4() -> (r: u64)
    ensures
        r == 4,
{
    4
}

pub fn op_seq_5() -> (r: u64)
    ensures
        r == 5,
{
    5
}

/// A constant symbol with no arguments.
fn const_def(name: &str, ret_id: u64, value: TypedValue) -> (r: FunctionDefinition)
    ensures
        def_is(r@, name@, Seq::<u64>::empty(), ret_id, DynFnV::Const(value@)),
{
    let args: Vec<u64> = Vec::new();
    let r = make_def(name, &args, ret_id, DynamicFunction::Const(value));
    proof {
        assert(args@ =~= Seq::<u64>::empty());
    }
    r
}

/// The wire protocol version constant for TLS 1.2.
pub fn fn_protocol_version12() -> (r: FunctionDefinition)
    ensures
        def_is(
            r@,
            "fn_protocol_version12"@,
            Seq::<u64>::empty(),
            TYPE_PROTOCOL_VERSION,
            DynFnV::Const(TypedValueV::ProtocolVersion(VERSION_TLS12)),
        ),
{
    const_def(
        "fn_protocol_version12",
        TYPE_PROTOCOL_VERSION,
        TypedValue::ProtocolVersion(VERSION_TLS12),
    )
}

/// The fixed client random.
pub fn fn_new_random() -> (r: FunctionDefinition)
    ensures
        def_is(
            r@,
            "fn_new_random"@,
            Seq::<u64>::empty(),
            TYPE_RANDOM,
            DynFnV::Const(TypedValueV::Random(fixed_random_bytes())),
        ),
{
    const_def("fn_new_random", TYPE_RANDOM, TypedValue::Random(repeat_byte(1, 32)))
}

/// The empty session identifier.
pub fn fn_new_session_id() -> (r: FunctionDefinition)
    ensures
        def_is(
            r@,
            "fn_new_session_id"@,
            Seq::<u64>::empty(),
            TYPE_SESSION_ID,
            DynFnV::Const(TypedValueV::SessionId(Seq::<u8>::empty())),
        ),
{
    let empty: Vec<u8> = Vec::new();
    proof {
        assert(empty@ =~= Seq::<u8>::empty());
    }
    const_def("fn_new_session_id", TYPE_SESSION_ID, TypedValue::SessionId(empty))
}

/// The empty cipher-suite list.
pub fn fn_new_cipher_suites() -> (r: FunctionDefinition)
    ensures
        def_is(
            r@,
            "fn_new_cipher_suites"@,
            Seq::<u64>::empty(),
            TYPE_CIPHER_SUITES,
            DynFnV::Const(TypedValueV::CipherSuites(Seq::<u16>::empty())),
        ),
{
    let empty: Vec<u16> = Vec::new();
    proof {
        assert(empty@ =~= Seq::<u16>::empty());
    }
    const_def("fn_new_cipher_suites", TYPE_CIPHER_SUITES, TypedValue::CipherSuites(empty))
}

/// The TLS 1.2 ECDHE-RSA-AES128-GCM suite list.
pub fn fn_cipher_suites12() -> (r: FunctionDefinition)
    ensures
        def_is(
            r@,
            "fn_cipher_suites12"@,
            Seq::<u64>::empty(),
            TYPE_CIPHER_SUITES,
            DynFnV::Const(TypedValueV::CipherSuites(seq![SUITE_ECDHE_RSA_AES128_GCM])),
        ),
{
    let mut v: Vec<u16> = Vec::new();
    v.push(SUITE_ECDHE_RSA_AES128_GCM);
    proof {
        assert(v@ =~= seq![SUITE_ECDHE_RSA_AES128_GCM]);
    }
    const_def("fn_cipher_suites12", TYPE_CIPHER_SUITES, TypedValue::CipherSuites(v))
}

/// The TLS 1.3 AES128-GCM suite list.
pub fn fn_cipher_suites() -> (r: FunctionDefinition)
    ensures
        def_is(
            r@,
            "fn_cipher_suites"@,
            Seq::<u64>::empty(),
            TYPE_CIPHER_SUITES,
            DynFnV::Const(TypedValueV::CipherSuites(seq![SUITE_TLS13_AES128_GCM])),
        ),
{
    let mut v: Vec<u16> = Vec::new();
    v.push(SUITE_TLS13_AES128_GCM);
    proof {
        assert(v@ =~= seq![SUITE_TLS13_AES128_GCM]);
    }
    const_def("fn_cipher_suites", TYPE_CIPHER_SUITES, TypedValue::CipherSuites(v))
}

/// The single TLS 1.2 suite.
pub fn fn_cipher_suite12() -> (r: FunctionDefinition)
    ensures
        def_is(
            r@,
            "fn_cipher_suite12"@,
            Seq::<u64>::empty(),
            TYPE_CIPHER_SUITE,
            DynFnV::Const(TypedValueV::CipherSuite(SUITE_ECDHE_RSA_AES128_GCM)),
        ),
{
    const_def(
        "fn_cipher_suite12",
        TYPE_CIPHER_SUITE,
        TypedValue::CipherSuite(SUITE_ECDHE_RSA_AES128_GCM),
    )
}

/// A deliberately weak export-grade suite, for downgrade probing.
pub fn fn_weak_export_cipher_suite() -> (r: FunctionDefinition)
    ensures
        def_is(
            r@,
            "fn_weak_export_cipher_suite"@,
            Seq::<u64>::empty(),
            TYPE_CIPHER_SUITE,
            DynFnV::Const(TypedValueV::CipherSuite(SUITE_RSA_EXPORT_RC4_40)),
        ),
{
    const_def(
        "fn_weak_export_cipher_suite",
        TYPE_CIPHER_SUITE,
        TypedValue::CipherSuite(SUITE_RSA_EXPORT_RC4_40),
    )
}

/// The null-only compression list.
pub fn fn_compressions() -> (r: FunctionDefinition)
    ensures
        def_is(
            r@,
            "fn_compressions"@,
            Seq::<u64>::empty(),
            TYPE_COMPRESSIONS,
            DynFnV::Const(TypedValueV::Compressions(seq![0u8])),
        ),
{
    let mut v: Vec<u8> = Vec::new();
    v.push(0);
    proof {
        assert(v@ =~= seq![0u8]);
    }
    const_def("fn_compressions", TYPE_COMPRESSIONS, TypedValue::Compressions(v))
}

/// The null compression method.
pub fn fn_compression() -> (r: FunctionDefinition)
    ensures
        def_is(
            r@,
            "fn_compression"@,
            Seq::<u64>::empty(),
            TYPE_COMPRESSION,
            DynFnV::Const(TypedValueV::Compression(0)),
        ),
{
    const_def("fn_compression", TYPE_COMPRESSION, TypedValue::Compression(0))
}

/// The empty client extension list.
pub fn fn_client_extensions_new() -> (r: FunctionDefinition)
    ensures
        def_is(
            r@,
            "fn_client_extensions_new"@,
            Seq::<u64>::empty(),
            TYPE_CLIENT_EXTENSIONS,
            DynFnV::Const(TypedValueV::ClientExtensions(Seq::<ClientExtensionV>::empty())),
        ),
{
    let empty: Vec<ClientExtension> = Vec::new();
    proof {
        assert(crate::msgs::client_extensions_view(empty@) =~= Seq::<ClientExtensionV>::empty());
    }
    const_def(
        "fn_client_extensions_new",
        TYPE_CLIENT_EXTENSIONS,
        TypedValue::ClientExtensions(empty),
    )
}

/// The empty server extension list.
pub fn fn_server_extensions_new() -> (r: FunctionDefinition)
    ensures
        def_is(
            r@,
            "fn_server_extensions_new"@,
            Seq::<u64>::empty(),
            TYPE_SERVER_EXTENSIONS,
            DynFnV::Const(
                TypedValueV::ServerExtensions(Seq::<crate::msgs::ServerExtensionV>::empty()),
            ),
        ),
{
    let empty: Vec<crate::msgs::ServerExtension> = Vec::new();
    proof {
        assert(crate::msgs::server_extensions_view(empty@) =~= Seq::<
            crate::msgs::ServerExtensionV,
        >::empty());
    }
    const_def(
        "fn_server_extensions_new",
        TYPE_SERVER_EXTENSIONS,
        TypedValue::ServerExtensions(empty),
    )
}

/// The empty byte vector.
pub fn fn_empty_bytes_vec() -> (r: FunctionDefinition)
    ensures
        def_is(
            r@,
            "fn_empty_bytes_vec"@,
            Seq::<u64>::empty(),
            TYPE_BYTES,
            DynFnV::Const(TypedValueV::Bytes(Seq::<u8>::empty())),
        ),
{
    let empty: Vec<u8> = Vec::new();
    proof {
        assert(empty@ =~= Seq::<u8>::empty());
    }
    const_def("fn_empty_bytes_vec", TYPE_BYTES, TypedValue::Bytes(empty))
}

/// A fresh, empty transcript.
pub fn fn_new_transcript12() -> (r: FunctionDefinition)
    ensures
        def_is(
            r@,
            "fn_new_transcript12"@,
            Seq::<u64>::empty(),
            TYPE_HANDSHAKE_HASH,
            DynFnV::Const(TypedValueV::HandshakeHash(Seq::<u8>::empty())),
        ),
{
    let empty: Vec<u8> = Vec::new();
    proof {
        assert(empty@ =~= Seq::<u8>::empty());
    }
    const_def("fn_new_transcript12", TYPE_HANDSHAKE_HASH, TypedValue::HandshakeHash(empty))
}

/// The fixed client key-exchange public key.
pub fn fn_new_pubkey12() -> (r: FunctionDefinition)
    ensures
        def_is(
            r@,
            "fn_new_pubkey12"@,
            Seq::<u64>::empty(),
            TYPE_PAYLOAD,
            DynFnV::Const(TypedValueV::Payload(fixed_pubkey_bytes())),
        ),
{
    const_def("fn_new_pubkey12", TYPE_PAYLOAD, TypedValue::Payload(repeat_byte(2, 32)))
}

/// The fixed key standing in for a generated MAC key.
pub fn op_hmac256_new_key() -> (r: FunctionDefinition)
    ensures
        def_is(
            r@,
            "op_hmac256_new_key"@,
            Seq::<u64>::empty(),
            TYPE_KEY,
            DynFnV::Const(TypedValueV::Key(fixed_key_bytes())),
        ),
{
    const_def("op_hmac256_new_key", TYPE_KEY, TypedValue::Key(repeat_byte(42, 32)))
}

/// The body bytes of the server-name extension for the fixed host name.
pub open spec fn server_name_ext_body() -> Seq<u8> {
    seq![0u8, 16u8, 0u8, 0u8, 13u8] + encode_utf8("maxammann.org"@)
}

/// The server-name extension naming the fixed host.
pub fn fn_server_name_extension() -> (r: FunctionDefinition)
    ensures
        def_is(
            r@,
            "fn_server_name_extension"@,
            Seq::<u64>::empty(),
            TYPE_CLIENT_EXTENSION,
            DynFnV::Const(
                TypedValueV::ClientExtension(
                    ClientExtensionV { ext_type: EXT_SERVER_NAME, body: server_name_ext_body() },
                ),
            ),
        ),
{
    let host = "maxammann.org";
    let hb = host.as_bytes();
    let mut body: Vec<u8> = Vec::new();
    body.push(0);
    body.push(16);
    body.push(0);
    body.push(0);
    body.push(13);
    let mut i: usize = 0;
    while i < hb.len()
        invariant
            i <= hb@.len(),
            hb@ == host.spec_bytes(),
            body@ == seq![0u8, 16u8, 0u8, 0u8, 13u8] + hb@.subrange(0, i as int),
        decreases hb@.len() - i,
    {
        body.push(hb[i]);
        proof {
            assert(body@ =~= seq![0u8, 16u8, 0u8, 0u8, 13u8] + hb@.subrange(0, i + 1 as int));
        }
        i += 1;
    }
    proof {
        assert(body@ =~= server_name_ext_body());
    }
    const_def(
        "fn_server_name_extension",
        TYPE_CLIENT_EXTENSION,
        TypedValue::ClientExtension(ClientExtension { ext_type: EXT_SERVER_NAME, body }),
    )
}

/// A small constant extension built from literal body bytes.
fn const_client_extension(name: &str, ext_type: u16, body: Vec<u8>) -> (r: FunctionDefinition)
    ensures
        def_is(
            r@,
            name@,
            Seq::<u64>::empty(),
            TYPE_CLIENT_EXTENSION,
            DynFnV::Const(
                TypedValueV::ClientExtension(ClientExtensionV { ext_type, body: body@ }),
            ),
        ),
{
    const_def(
        name,
        TYPE_CLIENT_EXTENSION,
        TypedValue::ClientExtension(ClientExtension { ext_type, body }),
    )
}

/// The x25519 supported-groups extension.
pub fn fn_x25519_support_group_extension() -> (r: FunctionDefinition)
    ensures
        def_is(
            r@,
            "fn_x25519_support_group_extension"@,
            Seq::<u64>::empty(),
            TYPE_CLIENT_EXTENSION,
            DynFnV::Const(
                TypedValueV::ClientExtension(
                    ClientExtensionV {
                        ext_type: EXT_SUPPORTED_GROUPS,
                        body: seq![0u8, 2u8, 0u8, 0x1du8],
                    },
                ),
            ),
        ),
{
    let mut body: Vec<u8> = Vec::new();
    body.push(0);
    body.push(2);
    body.push(0);
    body.push(0x1d);
    proof {
        assert(body@ =~= seq![0u8, 2u8, 0u8, 0x1du8]);
    }
    const_client_extension("fn_x25519_support_group_extension", EXT_SUPPORTED_GROUPS, body)
}

/// The secp384r1 supported-groups extension.
pub fn fn_secp384r1_support_group_extension() -> (r: FunctionDefinition)
    ensures
        def_is(
            r@,
            "fn_secp384r1_support_group_extension"@,
            Seq::<u64>::empty(),
            TYPE_CLIENT_EXTENSION,
            DynFnV::Const(
                TypedValueV::ClientExtension(
                    ClientExtensionV {
                        ext_type: EXT_SUPPORTED_GROUPS,
                        body: seq![0u8, 2u8, 0u8, 0x18u8],
                    },
                ),
            ),
        ),
{
    let mut body: Vec<u8> = Vec::new();
    body.push(0);
    body.push(2);
    body.push(0);
    body.push(0x18);
    proof {
        assert(body@ =~= seq![0u8, 2u8, 0u8, 0x18u8]);
    }
    const_client_extension("fn_secp384r1_support_group_extension", EXT_SUPPORTED_GROUPS, body)
}

/// The signature-algorithms extension offering RSA-PKCS1-SHA256 and
/// RSA-PSS-SHA256.
pub fn fn_signature_algorithm_extension() -> (r: FunctionDefinition)
    ensures
        def_is(
            r@,
            "fn_signature_algorithm_extension"@,
            Seq::<u64>::empty(),
            TYPE_CLIENT_EXTENSION,
            DynFnV::Const(
                TypedValueV::ClientExtension(
                    ClientExtensionV {
                        ext_type: EXT_SIGNATURE_ALGORITHMS,
                        body: seq![0u8, 4u8, 4u8, 1u8, 8u8, 4u8],
                    },
                ),
            ),
        ),
{
    let mut body: Vec<u8> = Vec::new();
    body.push(0);
    body.push(4);
    body.push(4);
    body.push(1);
    body.push(8);
    body.push(4);
    proof {
        assert(body@ =~= seq![0u8, 4u8, 4u8, 1u8, 8u8, 4u8]);
    }
    const_client_extension("fn_signature_algorithm_extension", EXT_SIGNATURE_ALGORITHMS, body)
}

/// The ec-point-formats extension offering the uncompressed format.
pub fn fn_ec_point_formats_extension() -> (r: FunctionDefinition)
    ensures
        def_is(
            r@,
            "fn_ec_point_formats_extension"@,
            Seq::<u64>::empty(),
            TYPE_CLIENT_EXTENSION,
            DynFnV::Const(
                TypedValueV::ClientExtension(
                    ClientExtensionV { ext_type: EXT_EC_POINT_FORMATS, body: seq![1u8, 0u8] },
                ),
            ),
        ),
{
    let mut body: Vec<u8> = Vec::new();
    body.push(1);
    body.push(0);
    proof {
        assert(body@ =~= seq![1u8, 0u8]);
    }
    const_client_extension("fn_ec_point_formats_extension", EXT_EC_POINT_FORMATS, body)
}

/// The empty signed-certificate-timestamp request extension.
pub fn fn_signed_certificate_timestamp_extension() -> (r: FunctionDefinition)
    ensures
        def_is(
            r@,
            "fn_signed_certificate_timestamp_extension"@,
            Seq::<u64>::empty(),
            TYPE_CLIENT_EXTENSION,
            DynFnV::Const(
                TypedValueV::ClientExtension(
                    ClientExtensionV {
                        ext_type: EXT_SIGNED_CERTIFICATE_TIMESTAMP,
                        body: Seq::<u8>::empty(),
                    },
                ),
            ),
        ),
{
    let body: Vec<u8> = Vec::new();
    proof {
        assert(body@ =~= Seq::<u8>::empty());
    }
    const_client_extension(
        "fn_signed_certificate_timestamp_extension",
        EXT_SIGNED_CERTIFICATE_TIMESTAMP,
        body,
    )
}

/// The signature-algorithms-cert extension.
pub fn fn_signature_algorithm_cert_extension() -> (r: FunctionDefinition)
    ensures
        def_is(
            r@,
            "fn_signature_algorithm_cert_extension"@,
            Seq::<u64>::empty(),
            TYPE_CLIENT_EXTENSION,
            DynFnV::Const(
                TypedValueV::ClientExtension(
                    ClientExtensionV {
                        ext_type: EXT_SIGNATURE_ALGORITHMS_CERT,
                        body: seq![0u8, 2u8, 4u8, 1u8],
                    },
                ),
            ),
        ),
{
    let mut body: Vec<u8> = Vec::new();
    body.push(0);
    body.push(2);
    body.push(4);
    body.push(1);
    proof {
        assert(body@ =~= seq![0u8, 2u8, 4u8, 1u8]);
    }
    const_client_extension(
        "fn_signature_algorithm_cert_extension",
        EXT_SIGNATURE_ALGORITHMS_CERT,
        body,
    )
}

/// The body bytes of the key-share extension with the fixed public key.
pub open spec fn key_share_ext_body() -> Seq<u8> {
    seq![0u8, 36u8, 0u8, 0x1du8, 0u8, 32u8] + fixed_pubkey_bytes()
}

/// The key-share extension carrying the fixed x25519 public key.
pub fn fn_key_share_extension() -> (r: FunctionDefinition)
    ensures
        def_is(
            r@,
            "fn_key_share_extension"@,
            Seq::<u64>::empty(),
            TYPE_CLIENT_EXTENSION,
            DynFnV::Const(
                TypedValueV::ClientExtension(
                    ClientExtensionV { ext_type: EXT_KEY_SHARE, body: key_share_ext_body() },
                ),
            ),
        ),
{
    let mut body: Vec<u8> = Vec::new();
    body.push(0);
    body.push(36);
    body.push(0);
    body.push(0x1d);
    body.push(0);
    body.push(32);
    let pk = repeat_byte(2, 32);
    let mut i: usize = 0;
    while i < pk.len()
        invariant
            i <= pk@.len(),
            pk@ == fixed_pubkey_bytes(),
            body@ == seq![0u8, 36u8, 0u8, 0x1du8, 0u8, 32u8] + pk@.subrange(0, i as int),
        decreases pk@.len() - i,
    {
        body.push(pk[i]);
        proof {
            assert(body@ =~= seq![0u8, 36u8, 0u8, 0x1du8, 0u8, 32u8] + pk@.subrange(
                0,
                i + 1 as int,
            ));
        }
        i += 1;
    }
    proof {
        assert(body@ =~= key_share_ext_body());
    }
    const_client_extension("fn_key_share_extension", EXT_KEY_SHARE, body)
}

/// The supported-versions extension offering TLS 1.3.
pub fn fn_supported_versions13_extension() -> (r: FunctionDefinition)
    ensures
        def_is(
            r@,
            "fn_supported_versions13_extension"@,
            Seq::<u64>::empty(),
            TYPE_CLIENT_EXTENSION,
            DynFnV::Const(
                TypedValueV::ClientExtension(
                    ClientExtensionV {
                        ext_type: EXT_SUPPORTED_VERSIONS,
                        body: seq![2u8, 3u8, 4u8],
                    },
                ),
            ),
        ),
{
    let mut body: Vec<u8> = Vec::new();
    body.push(2);
    body.push(3);
    body.push(4);
    proof {
        assert(body@ =~= seq![2u8, 3u8, 4u8]);
    }
    const_client_extension("fn_supported_versions13_extension", EXT_SUPPORTED_VERSIONS, body)
}

/// A one-argument symbol.
fn unary_def(name: &str, arg: u64, ret_id: u64, dynamic_fn: DynamicFunction) -> (r:
    FunctionDefinition)
    ensures
        def_is(r@, name@, seq![arg], ret_id, dynamic_fn@),
{
    let mut args: Vec<u64> = Vec::new();
    args.push(arg);
    proof {
        assert(args@ =~= seq![arg]);
    }
    make_def(name, &args, ret_id, dynamic_fn)
}

/// A two-argument symbol.
fn binary_def(name: &str, a0: u64, a1: u64, ret_id: u64, dynamic_fn: DynamicFunction) -> (r:
    FunctionDefinition)
    ensures
        def_is(r@, name@, seq![a0, a1], ret_id, dynamic_fn@),
{
    let mut args: Vec<u64> = Vec::new();
    args.push(a0);
    args.push(a1);
    proof {
        assert(args@ =~= seq![a0, a1]);
    }
    make_def(name, &args, ret_id, dynamic_fn)
}

/// The renegotiation-info extension builder.
pub fn fn_renegotiation_info_extension() -> (r: FunctionDefinition)
    ensures
        def_is(
            r@,
            "fn_renegotiation_info_extension"@,
            seq![TYPE_BYTES],
            TYPE_CLIENT_EXTENSION,
            DynFnV::RenegotiationInfoExtension,
        ),
{
    unary_def(
        "fn_renegotiation_info_extension",
        TYPE_BYTES,
        TYPE_CLIENT_EXTENSION,
        DynamicFunction::RenegotiationInfoExtension,
    )
}

/// The attack symbol replaying a renegotiation ClientHello without
/// signature_algorithms.
pub fn fn_attack_cve_2021_3449() -> (r: FunctionDefinition)
    ensures
        def_is(
            r@,
            "fn_attack_cve_2021_3449"@,
            seq![TYPE_CLIENT_EXTENSIONS],
            TYPE_CLIENT_EXTENSIONS,
            DynFnV::AttackCve20213449,
        ),
{
    unary_def(
        "fn_attack_cve_2021_3449",
        TYPE_CLIENT_EXTENSIONS,
        TYPE_CLIENT_EXTENSIONS,
        DynamicFunction::AttackCve20213449,
    )
}

/// Append one suite to a suite list.
pub fn fn_append_cipher_suite() -> (r: FunctionDefinition)
    ensures
        def_is(
            r@,
            "fn_append_cipher_suite"@,
            seq![TYPE_CIPHER_SUITES, TYPE_CIPHER_SUITE],
            TYPE_CIPHER_SUITES,
            DynFnV::AppendCipherSuite,
        ),
{
    binary_def(
        "fn_append_cipher_suite",
        TYPE_CIPHER_SUITES,
        TYPE_CIPHER_SUITE,
        TYPE_CIPHER_SUITES,
        DynamicFunction::AppendCipherSuite,
    )
}

/// Append one client extension to a list.
pub fn fn_client_extensions_append() -> (r: FunctionDefinition)
    ensures
        def_is(
            r@,
            "fn_client_extensions_append"@,
            seq![TYPE_CLIENT_EXTENSIONS, TYPE_CLIENT_EXTENSION],
            TYPE_CLIENT_EXTENSIONS,
            DynFnV::ClientExtensionsAppend,
        ),
{
    binary_def(
        "fn_client_extensions_append",
        TYPE_CLIENT_EXTENSIONS,
        TYPE_CLIENT_EXTENSION,
        TYPE_CLIENT_EXTENSIONS,
        DynamicFunction::ClientExtensionsAppend,
    )
}

/// Append one server extension to a list.
pub fn fn_server_extensions_append() -> (r: FunctionDefinition)
    ensures
        def_is(
            r@,
            "fn_server_extensions_append"@,
            seq![TYPE_SERVER_EXTENSIONS, TYPE_SERVER_EXTENSION],
            TYPE_SERVER_EXTENSIONS,
            DynFnV::ServerExtensionsAppend,
        ),
{
    binary_def(
        "fn_server_extensions_append",
        TYPE_SERVER_EXTENSIONS,
        TYPE_SERVER_EXTENSION,
        TYPE_SERVER_EXTENSIONS,
        DynamicFunction::ServerExtensionsAppend,
    )
}

/// The ClientHello constructor.
pub fn fn_client_hello() -> (r: FunctionDefinition)
    ensures
        def_is(
            r@,
            "fn_client_hello"@,
            seq![
                TYPE_PROTOCOL_VERSION,
                TYPE_RANDOM,
                TYPE_SESSION_ID,
                TYPE_CIPHER_SUITES,
                TYPE_COMPRESSIONS,
                TYPE_CLIENT_EXTENSIONS,
            ],
            TYPE_MESSAGE,
            DynFnV::ClientHello,
        ),
{
    let mut args: Vec<u64> = Vec::new();
    args.push(TYPE_PROTOCOL_VERSION);
    args.push(TYPE_RANDOM);
    args.push(TYPE_SESSION_ID);
    args.push(TYPE_CIPHER_SUITES);
    args.push(TYPE_COMPRESSIONS);
    args.push(TYPE_CLIENT_EXTENSIONS);
    proof {
        assert(args@ =~= seq![
            TYPE_PROTOCOL_VERSION,
            TYPE_RANDOM,
            TYPE_SESSION_ID,
            TYPE_CIPHER_SUITES,
            TYPE_COMPRESSIONS,
            TYPE_CLIENT_EXTENSIONS,
        ]);
    }
    make_def("fn_client_hello", &args, TYPE_MESSAGE, DynamicFunction::ClientHello)
}

/// The ServerHello constructor.
pub fn fn_server_hello() -> (r: FunctionDefinition)
    ensures
        def_is(
            r@,
            "fn_server_hello"@,
            seq![
                TYPE_PROTOCOL_VERSION,
                TYPE_RANDOM,
                TYPE_SESSION_ID,
                TYPE_CIPHER_SUITE,
                TYPE_COMPRESSION,
                TYPE_SERVER_EXTENSIONS,
            ],
            TYPE_MESSAGE,
            DynFnV::ServerHello,
        ),
{
    let mut args: Vec<u64> = Vec::new();
    args.push(TYPE_PROTOCOL_VERSION);
    args.push(TYPE_RANDOM);
    args.push(TYPE_SESSION_ID);
    args.push(TYPE_CIPHER_SUITE);
    args.push(TYPE_COMPRESSION);
    args.push(TYPE_SERVER_EXTENSIONS);
    proof {
        assert(args@ =~= seq![
            TYPE_PROTOCOL_VERSION,
            TYPE_RANDOM,
            TYPE_SESSION_ID,
            TYPE_CIPHER_SUITE,
            TYPE_COMPRESSION,
            TYPE_SERVER_EXTENSIONS,
        ]);
    }
    make_def("fn_server_hello", &args, TYPE_MESSAGE, DynamicFunction::ServerHello)
}

/// The ChangeCipherSpec message constant.
pub fn fn_change_cipher_spec() -> (r: FunctionDefinition)
    ensures
        def_is(
            r@,
            "fn_change_cipher_spec"@,
            Seq::<u64>::empty(),
            TYPE_MESSAGE,
            DynFnV::Const(
                TypedValueV::Message(
                    MessageV {
                        version: VERSION_TLS12,
                        payload: MessagePayloadV::ChangeCipherSpec,
                    },
                ),
            ),
        ),
{
    const_def(
        "fn_change_cipher_spec",
        TYPE_MESSAGE,
        TypedValue::Message(
            Message { version: VERSION_TLS12, payload: MessagePayload::ChangeCipherSpec },
        ),
    )
}

/// The ServerHelloDone message constant.
pub fn fn_server_hello_done() -> (r: FunctionDefinition)
    ensures
        def_is(
            r@,
            "fn_server_hello_done"@,
            Seq::<u64>::empty(),
            TYPE_MESSAGE,
            DynFnV::Const(
                TypedValueV::Message(
                    MessageV {
                        version: VERSION_TLS12,
                        payload: MessagePayloadV::Handshake(
                            HandshakePayloadDataV::ServerHelloDone,
                        ),
                    },
                ),
            ),
        ),
{
    const_def(
        "fn_server_hello_done",
        TYPE_MESSAGE,
        TypedValue::Message(
            Message {
                version: VERSION_TLS12,
                payload: MessagePayload::Handshake(HandshakePayloadData::ServerHelloDone),
            },
        ),
    )
}

/// The application-data wrapper.
pub fn fn_application_data() -> (r: FunctionDefinition)
    ensures
        def_is(
            r@,
            "fn_application_data"@,
            seq![TYPE_PAYLOAD],
            TYPE_MESSAGE,
            DynFnV::ApplicationData,
        ),
{
    unary_def(
        "fn_application_data",
        TYPE_PAYLOAD,
        TYPE_MESSAGE,
        DynamicFunction::ApplicationData,
    )
}

/// The Certificate message constructor.
pub fn fn_certificate() -> (r: FunctionDefinition)
    ensures
        def_is(r@, "fn_certificate"@, seq![TYPE_CERTIFICATE], TYPE_MESSAGE, DynFnV::Certificate),
{
    unary_def("fn_certificate", TYPE_CERTIFICATE, TYPE_MESSAGE, DynamicFunction::Certificate)
}

/// The ServerKeyExchange message constructor.
pub fn fn_server_key_exchange() -> (r: FunctionDefinition)
    ensures
        def_is(
            r@,
            "fn_server_key_exchange"@,
            seq![TYPE_PAYLOAD],
            TYPE_MESSAGE,
            DynFnV::ServerKeyExchange,
        ),
{
    unary_def(
        "fn_server_key_exchange",
        TYPE_PAYLOAD,
        TYPE_MESSAGE,
        DynamicFunction::ServerKeyExchange,
    )
}

/// The ClientKeyExchange message constructor.
pub fn fn_client_key_exchange() -> (r: FunctionDefinition)
    ensures
        def_is(
            r@,
            "fn_client_key_exchange"@,
            seq![TYPE_PAYLOAD],
            TYPE_MESSAGE,
            DynFnV::ClientKeyExchange,
        ),
{
    unary_def(
        "fn_client_key_exchange",
        TYPE_PAYLOAD,
        TYPE_MESSAGE,
        DynamicFunction::ClientKeyExchange,
    )
}

/// The Finished message constructor.
pub fn fn_finished() -> (r: FunctionDefinition)
    ensures
        def_is(r@, "fn_finished"@, seq![TYPE_BYTES], TYPE_MESSAGE, DynFnV::Finished),
{
    unary_def("fn_finished", TYPE_BYTES, TYPE_MESSAGE, DynamicFunction::Finished)
}

/// Bundle two messages.
pub fn fn_concat_messages_2() -> (r: FunctionDefinition)
    ensures
        def_is(
            r@,
            "fn_concat_messages_2"@,
            seq![TYPE_MESSAGE, TYPE_MESSAGE],
            TYPE_MULTI_MESSAGE,
            DynFnV::ConcatMessages2,
        ),
{
    binary_def(
        "fn_concat_messages_2",
        TYPE_MESSAGE,
        TYPE_MESSAGE,
        TYPE_MULTI_MESSAGE,
        DynamicFunction::ConcatMessages2,
    )
}

/// Bundle three messages.
pub fn fn_concat_messages_3() -> (r: FunctionDefinition)
    ensures
        def_is(
            r@,
            "fn_concat_messages_3"@,
            seq![TYPE_MESSAGE, TYPE_MESSAGE, TYPE_MESSAGE],
            TYPE_MULTI_MESSAGE,
            DynFnV::ConcatMessages3,
        ),
{
    let mut args: Vec<u64> = Vec::new();
    args.push(TYPE_MESSAGE);
    args.push(TYPE_MESSAGE);
    args.push(TYPE_MESSAGE);
    proof {
        assert(args@ =~= seq![TYPE_MESSAGE, TYPE_MESSAGE, TYPE_MESSAGE]);
    }
    make_def("fn_concat_messages_3", &args, TYPE_MULTI_MESSAGE, DynamicFunction::ConcatMessages3)
}

/// Extend a transcript with one handshake message.
pub fn fn_append_transcript() -> (r: FunctionDefinition)
    ensures
        def_is(
            r@,
            "fn_append_transcript"@,
            seq![TYPE_HANDSHAKE_HASH, TYPE_MESSAGE],
            TYPE_HANDSHAKE_HASH,
            DynFnV::AppendTranscript,
        ),
{
    binary_def(
        "fn_append_transcript",
        TYPE_HANDSHAKE_HASH,
        TYPE_MESSAGE,
        TYPE_HANDSHAKE_HASH,
        DynamicFunction::AppendTranscript,
    )
}

/// Decode server Diffie-Hellman parameters from a key-exchange payload.
pub fn fn_decode_ecdh_params() -> (r: FunctionDefinition)
    ensures
        def_is(
            r@,
            "fn_decode_ecdh_params"@,
            seq![TYPE_PAYLOAD],
            TYPE_ECDH_PARAMS,
            DynFnV::DecodeEcdhParams,
        ),
{
    unary_def(
        "fn_decode_ecdh_params",
        TYPE_PAYLOAD,
        TYPE_ECDH_PARAMS,
        DynamicFunction::DecodeEcdhParams,
    )
}

/// Sign a transcript under the session parameters.
pub fn fn_sign_transcript() -> (r: FunctionDefinition)
    ensures
        def_is(
            r@,
            "fn_sign_transcript"@,
            seq![TYPE_RANDOM, TYPE_ECDH_PARAMS, TYPE_HANDSHAKE_HASH],
            TYPE_BYTES,
            DynFnV::SignTranscript,
        ),
{
    let mut args: Vec<u64> = Vec::new();
    args.push(TYPE_RANDOM);
    args.push(TYPE_ECDH_PARAMS);
    args.push(TYPE_HANDSHAKE_HASH);
    proof {
        assert(args@ =~= seq![TYPE_RANDOM, TYPE_ECDH_PARAMS, TYPE_HANDSHAKE_HASH]);
    }
    make_def("fn_sign_transcript", &args, TYPE_BYTES, DynamicFunction::SignTranscript)
}

/// Seal a message for the TLS 1.2 record layer.
pub fn fn_encrypt12() -> (r: FunctionDefinition)
    ensures
        def_is(
            r@,
            "fn_encrypt12"@,
            seq![TYPE_MESSAGE, TYPE_RANDOM, TYPE_ECDH_PARAMS, TYPE_U64],
            TYPE_MESSAGE,
            DynFnV::Encrypt12,
        ),
{
    let mut args: Vec<u64> = Vec::new();
    args.push(TYPE_MESSAGE);
    args.push(TYPE_RANDOM);
    args.push(TYPE_ECDH_PARAMS);
    args.push(TYPE_U64);
    proof {
        assert(args@ =~= seq![TYPE_MESSAGE, TYPE_RANDOM, TYPE_ECDH_PARAMS, TYPE_U64]);
    }
    make_def("fn_encrypt12", &args, TYPE_MESSAGE, DynamicFunction::Encrypt12)
}

/// Turn arbitrary bytes into a MAC key.
pub fn op_arbitrary_to_key() -> (r: FunctionDefinition)
    ensures
        def_is(
            r@,
            "op_arbitrary_to_key"@,
            seq![TYPE_BYTES],
            TYPE_KEY,
            DynFnV::ArbitraryToKey,
        ),
{
    unary_def("op_arbitrary_to_key", TYPE_BYTES, TYPE_KEY, DynamicFunction::ArbitraryToKey)
}

/// The keyed digest symbol.
pub fn op_hmac256() -> (r: FunctionDefinition)
    ensures
        def_is(r@, "op_hmac256"@, seq![TYPE_KEY, TYPE_BYTES], TYPE_BYTES, DynFnV::Hmac256),
{
    binary_def("op_hmac256", TYPE_KEY, TYPE_BYTES, TYPE_BYTES, DynamicFunction::Hmac256)
}

/// A sequence-number constant symbol.
fn seq_def(name: &str, n: u64) -> (r: FunctionDefinition)
    ensures
        def_is(r@, name@, Seq::<u64>::empty(), TYPE_U64, DynFnV::Const(TypedValueV::U64(n))),
{
    const_def(name, TYPE_U64, TypedValue::U64(n))
}

/// The sequence-number constant for one of the first six record
/// sequence numbers.
pub fn fn_seq_number(n: u64) -> (r: FunctionDefinition)
    requires
        n <= 5,
    ensures
        r@ == fn_seq_def(n),
{
    if n == 0 {
        seq_def("fn_seq_0", op_seq_0())
    } else if n == 1 {
        seq_def("fn_seq_1", op_seq_1())
    } else if n == 2 {
        seq_def("fn_seq_2", op_seq_2())
    } else if n == 3 {
        seq_def("fn_seq_3", op_seq_3())
    } else if n == 4 {
        seq_def("fn_seq_4", op_seq_4())
    } else {
        seq_def("fn_seq_5", op_seq_5())
    }
}


/// The catalog's definitions as specification values, for contracts
/// that pin a term or a trace exactly.
pub open spec fn fn_protocol_version12_def() -> crate::term::FunctionV {
    def_of(
        "fn_protocol_version12"@,
        Seq::<u64>::empty(),
        TYPE_PROTOCOL_VERSION,
        DynFnV::Const(TypedValueV::ProtocolVersion(VERSION_TLS12)),
    )
}

pub open spec fn fn_new_random_def() -> crate::term::FunctionV {
    def_of(
        "fn_new_random"@,
        Seq::<u64>::empty(),
        TYPE_RANDOM,
        DynFnV::Const(TypedValueV::Random(fixed_random_bytes())),
    )
}

pub open spec fn fn_new_session_id_def() -> crate::term::FunctionV {
    def_of(
        "fn_new_session_id"@,
        Seq::<u64>::empty(),
        TYPE_SESSION_ID,
        DynFnV::Const(TypedValueV::SessionId(Seq::<u8>::empty())),
    )
}

pub open spec fn fn_new_cipher_suites_def() -> crate::term::FunctionV {
    def_of(
        "fn_new_cipher_suites"@,
        Seq::<u64>::empty(),
        TYPE_CIPHER_SUITES,
        DynFnV::Const(TypedValueV::CipherSuites(Seq::<u16>::empty())),
    )
}

pub open spec fn fn_cipher_suite12_def() -> crate::term::FunctionV {
    def_of(
        "fn_cipher_suite12"@,
        Seq::<u64>::empty(),
        TYPE_CIPHER_SUITE,
        DynFnV::Const(TypedValueV::CipherSuite(SUITE_ECDHE_RSA_AES128_GCM)),
    )
}

pub open spec fn fn_append_cipher_suite_def() -> crate::term::FunctionV {
    def_of(
        "fn_append_cipher_suite"@,
        seq![TYPE_CIPHER_SUITES, TYPE_CIPHER_SUITE],
        TYPE_CIPHER_SUITES,
        DynFnV::AppendCipherSuite,
    )
}

pub open spec fn fn_compressions_def() -> crate::term::FunctionV {
    def_of(
        "fn_compressions"@,
        Seq::<u64>::empty(),
        TYPE_COMPRESSIONS,
        DynFnV::Const(TypedValueV::Compressions(seq![0u8])),
    )
}

pub open spec fn fn_client_extensions_new_def() -> crate::term::FunctionV {
    def_of(
        "fn_client_extensions_new"@,
        Seq::<u64>::empty(),
        TYPE_CLIENT_EXTENSIONS,
        DynFnV::Const(TypedValueV::ClientExtensions(Seq::<ClientExtensionV>::empty())),
    )
}

pub open spec fn fn_client_extensions_append_def() -> crate::term::FunctionV {
    def_of(
        "fn_client_extensions_append"@,
        seq![TYPE_CLIENT_EXTENSIONS, TYPE_CLIENT_EXTENSION],
        TYPE_CLIENT_EXTENSIONS,
        DynFnV::ClientExtensionsAppend,
    )
}

pub open spec fn fn_secp384r1_support_group_extension_def() -> crate::term::FunctionV {
    def_of(
        "fn_secp384r1_support_group_extension"@,
        Seq::<u64>::empty(),
        TYPE_CLIENT_EXTENSION,
        DynFnV::Const(
            TypedValueV::ClientExtension(
                ClientExtensionV {
                    ext_type: EXT_SUPPORTED_GROUPS,
                    body: seq![0u8, 2u8, 0u8, 0x18u8],
                },
            ),
        ),
    )
}

pub open spec fn fn_signature_algorithm_extension_def() -> crate::term::FunctionV {
    def_of(
        "fn_signature_algorithm_extension"@,
        Seq::<u64>::empty(),
        TYPE_CLIENT_EXTENSION,
        DynFnV::Const(
            TypedValueV::ClientExtension(
                ClientExtensionV {
                    ext_type: EXT_SIGNATURE_ALGORITHMS,
                    body: seq![0u8, 4u8, 4u8, 1u8, 8u8, 4u8],
                },
            ),
        ),
    )
}

pub open spec fn fn_ec_point_formats_extension_def() -> crate::term::FunctionV {
    def_of(
        "fn_ec_point_formats_extension"@,
        Seq::<u64>::empty(),
        TYPE_CLIENT_EXTENSION,
        DynFnV::Const(
            TypedValueV::ClientExtension(
                ClientExtensionV { ext_type: EXT_EC_POINT_FORMATS, body: seq![1u8, 0u8] },
            ),
        ),
    )
}

pub open spec fn fn_signed_certificate_timestamp_extension_def() -> crate::term::FunctionV {
    def_of(
        "fn_signed_certificate_timestamp_extension"@,
        Seq::<u64>::empty(),
        TYPE_CLIENT_EXTENSION,
        DynFnV::Const(
            TypedValueV::ClientExtension(
                ClientExtensionV {
                    ext_type: EXT_SIGNED_CERTIFICATE_TIMESTAMP,
                    body: Seq::<u8>::empty(),
                },
            ),
        ),
    )
}

pub open spec fn fn_client_hello_def() -> crate::term::FunctionV {
    def_of(
        "fn_client_hello"@,
        seq![
            TYPE_PROTOCOL_VERSION,
            TYPE_RANDOM,
            TYPE_SESSION_ID,
            TYPE_CIPHER_SUITES,
            TYPE_COMPRESSIONS,
            TYPE_CLIENT_EXTENSIONS,
        ],
        TYPE_MESSAGE,
        DynFnV::ClientHello,
    )
}

pub open spec fn fn_server_hello_def() -> crate::term::FunctionV {
    def_of(
        "fn_server_hello"@,
        seq![
            TYPE_PROTOCOL_VERSION,
            TYPE_RANDOM,
            TYPE_SESSION_ID,
            TYPE_CIPHER_SUITE,
            TYPE_COMPRESSION,
            TYPE_SERVER_EXTENSIONS,
        ],
        TYPE_MESSAGE,
        DynFnV::ServerHello,
    )
}

pub open spec fn fn_change_cipher_spec_def() -> crate::term::FunctionV {
    def_of(
        "fn_change_cipher_spec"@,
        Seq::<u64>::empty(),
        TYPE_MESSAGE,
        DynFnV::Const(
            TypedValueV::Message(
                MessageV { version: VERSION_TLS12, payload: MessagePayloadV::ChangeCipherSpec },
            ),
        ),
    )
}

pub open spec fn fn_server_hello_done_def() -> crate::term::FunctionV {
    def_of(
        "fn_server_hello_done"@,
        Seq::<u64>::empty(),
        TYPE_MESSAGE,
        DynFnV::Const(
            TypedValueV::Message(
                MessageV {
                    version: VERSION_TLS12,
                    payload: MessagePayloadV::Handshake(HandshakePayloadDataV::ServerHelloDone),
                },
            ),
        ),
    )
}

pub open spec fn fn_application_data_def() -> crate::term::FunctionV {
    def_of("fn_application_data"@, seq![TYPE_PAYLOAD], TYPE_MESSAGE, DynFnV::ApplicationData)
}

pub open spec fn fn_certificate_def() -> crate::term::FunctionV {
    def_of("fn_certificate"@, seq![TYPE_CERTIFICATE], TYPE_MESSAGE, DynFnV::Certificate)
}

pub open spec fn fn_server_key_exchange_def() -> crate::term::FunctionV {
    def_of("fn_server_key_exchange"@, seq![TYPE_PAYLOAD], TYPE_MESSAGE, DynFnV::ServerKeyExchange)
}

pub open spec fn fn_client_key_exchange_def() -> crate::term::FunctionV {
    def_of("fn_client_key_exchange"@, seq![TYPE_PAYLOAD], TYPE_MESSAGE, DynFnV::ClientKeyExchange)
}

pub open spec fn fn_finished_def() -> crate::term::FunctionV {
    def_of("fn_finished"@, seq![TYPE_BYTES], TYPE_MESSAGE, DynFnV::Finished)
}

pub open spec fn fn_new_pubkey12_def() -> crate::term::FunctionV {
    def_of(
        "fn_new_pubkey12"@,
        Seq::<u64>::empty(),
        TYPE_PAYLOAD,
        DynFnV::Const(TypedValueV::Payload(fixed_pubkey_bytes())),
    )
}

pub open spec fn fn_decode_ecdh_params_def() -> crate::term::FunctionV {
    def_of(
        "fn_decode_ecdh_params"@,
        seq![TYPE_PAYLOAD],
        TYPE_ECDH_PARAMS,
        DynFnV::DecodeEcdhParams,
    )
}

pub open spec fn fn_new_transcript12_def() -> crate::term::FunctionV {
    def_of(
        "fn_new_transcript12"@,
        Seq::<u64>::empty(),
        TYPE_HANDSHAKE_HASH,
        DynFnV::Const(TypedValueV::HandshakeHash(Seq::<u8>::empty())),
    )
}

pub open spec fn fn_append_transcript_def() -> crate::term::FunctionV {
    def_of(
        "fn_append_transcript"@,
        seq![TYPE_HANDSHAKE_HASH, TYPE_MESSAGE],
        TYPE_HANDSHAKE_HASH,
        DynFnV::AppendTranscript,
    )
}

pub open spec fn fn_sign_transcript_def() -> crate::term::FunctionV {
    def_of(
        "fn_sign_transcript"@,
        seq![TYPE_RANDOM, TYPE_ECDH_PARAMS, TYPE_HANDSHAKE_HASH],
        TYPE_BYTES,
        DynFnV::SignTranscript,
    )
}

pub open spec fn fn_encrypt12_def() -> crate::term::FunctionV {
    def_of(
        "fn_encrypt12"@,
        seq![TYPE_MESSAGE, TYPE_RANDOM, TYPE_ECDH_PARAMS, TYPE_U64],
        TYPE_MESSAGE,
        DynFnV::Encrypt12,
    )
}

pub open spec fn fn_attack_cve_2021_3449_def() -> crate::term::FunctionV {
    def_of(
        "fn_attack_cve_2021_3449"@,
        seq![TYPE_CLIENT_EXTENSIONS],
        TYPE_CLIENT_EXTENSIONS,
        DynFnV::AttackCve20213449,
    )
}

pub open spec fn fn_seq_def(n: u64) -> crate::term::FunctionV {
    def_of(
        if n == 0 {
            "fn_seq_0"@
        } else if n == 1 {
            "fn_seq_1"@
        } else if n == 2 {
            "fn_seq_2"@
        } else if n == 3 {
            "fn_seq_3"@
        } else if n == 4 {
            "fn_seq_4"@
        } else {
            "fn_seq_5"@
        },
        Seq::<u64>::empty(),
        TYPE_U64,
        DynFnV::Const(TypedValueV::U64(n)),
    )
}

/// The number of symbols in the catalog.
pub const CATALOG_LEN: usize = 53;


/// The whole catalog, entry by entry, in registration order.
pub open spec fn catalog_spec() -> Seq<crate::term::FunctionV> {
    seq![
        fn_protocol_version12_def(),
        fn_new_random_def(),
        fn_new_session_id_def(),
        fn_new_cipher_suites_def(),
        def_of(
            "fn_cipher_suites12"@,
            Seq::<u64>::empty(),
            TYPE_CIPHER_SUITES,
            DynFnV::Const(TypedValueV::CipherSuites(seq![SUITE_ECDHE_RSA_AES128_GCM])),
        ),
        def_of(
            "fn_cipher_suites"@,
            Seq::<u64>::empty(),
            TYPE_CIPHER_SUITES,
            DynFnV::Const(TypedValueV::CipherSuites(seq![SUITE_TLS13_AES128_GCM])),
        ),
        fn_cipher_suite12_def(),
        def_of(
            "fn_weak_export_cipher_suite"@,
            Seq::<u64>::empty(),
            TYPE_CIPHER_SUITE,
            DynFnV::Const(TypedValueV::CipherSuite(SUITE_RSA_EXPORT_RC4_40)),
        ),
        fn_compressions_def(),
        def_of(
            "fn_compression"@,
            Seq::<u64>::empty(),
            TYPE_COMPRESSION,
            DynFnV::Const(TypedValueV::Compression(0)),
        ),
        fn_client_extensions_new_def(),
        def_of(
            "fn_server_extensions_new"@,
            Seq::<u64>::empty(),
            TYPE_SERVER_EXTENSIONS,
            DynFnV::Const(
                TypedValueV::ServerExtensions(Seq::<crate::msgs::ServerExtensionV>::empty()),
            ),
        ),
        def_of(
            "fn_empty_bytes_vec"@,
            Seq::<u64>::empty(),
            TYPE_BYTES,
            DynFnV::Const(TypedValueV::Bytes(Seq::<u8>::empty())),
        ),
        fn_new_transcript12_def(),
        fn_new_pubkey12_def(),
        def_of(
            "fn_server_name_extension"@,
            Seq::<u64>::empty(),
            TYPE_CLIENT_EXTENSION,
            DynFnV::Const(
                TypedValueV::ClientExtension(
                    ClientExtensionV { ext_type: EXT_SERVER_NAME, body: server_name_ext_body() },
                ),
            ),
        ),
        def_of(
            "fn_x25519_support_group_extension"@,
            Seq::<u64>::empty(),
            TYPE_CLIENT_EXTENSION,
            DynFnV::Const(
                TypedValueV::ClientExtension(
                    ClientExtensionV {
                        ext_type: EXT_SUPPORTED_GROUPS,
                        body: seq![0u8, 2u8, 0u8, 0x1du8],
                    },
                ),
            ),
        ),
        fn_secp384r1_support_group_extension_def(),
        fn_signature_algorithm_extension_def(),
        fn_ec_point_formats_extension_def(),
        fn_signed_certificate_timestamp_extension_def(),
        def_of(
            "fn_signature_algorithm_cert_extension"@,
            Seq::<u64>::empty(),
            TYPE_CLIENT_EXTENSION,
            DynFnV::Const(
                TypedValueV::ClientExtension(
                    ClientExtensionV {
                        ext_type: EXT_SIGNATURE_ALGORITHMS_CERT,
                        body: seq![0u8, 2u8, 4u8, 1u8],
                    },
                ),
            ),
        ),
        def_of(
            "fn_key_share_extension"@,
            Seq::<u64>::empty(),
            TYPE_CLIENT_EXTENSION,
            DynFnV::Const(
                TypedValueV::ClientExtension(
                    ClientExtensionV { ext_type: EXT_KEY_SHARE, body: key_share_ext_body() },
                ),
            ),
        ),
        def_of(
            "fn_supported_versions13_extension"@,
            Seq::<u64>::empty(),
            TYPE_CLIENT_EXTENSION,
            DynFnV::Const(
                TypedValueV::ClientExtension(
                    ClientExtensionV {
                        ext_type: EXT_SUPPORTED_VERSIONS,
                        body: seq![2u8, 3u8, 4u8],
                    },
                ),
            ),
        ),
        def_of(
            "fn_renegotiation_info_extension"@,
            seq![TYPE_BYTES],
            TYPE_CLIENT_EXTENSION,
            DynFnV::RenegotiationInfoExtension,
        ),
        fn_attack_cve_2021_3449_def(),
        fn_append_cipher_suite_def(),
        fn_client_extensions_append_def(),
        def_of(
            "fn_server_extensions_append"@,
            seq![TYPE_SERVER_EXTENSIONS, TYPE_SERVER_EXTENSION],
            TYPE_SERVER_EXTENSIONS,
            DynFnV::ServerExtensionsAppend,
        ),
        fn_client_hello_def(),
        fn_server_hello_def(),
        fn_change_cipher_spec_def(),
        fn_server_hello_done_def(),
        fn_application_data_def(),
        fn_certificate_def(),
        fn_server_key_exchange_def(),
        fn_client_key_exchange_def(),
        fn_finished_def(),
        def_of(
            "fn_concat_messages_2"@,
            seq![TYPE_MESSAGE, TYPE_MESSAGE],
            TYPE_MULTI_MESSAGE,
            DynFnV::ConcatMessages2,
        ),
        def_of(
            "fn_concat_messages_3"@,
            seq![TYPE_MESSAGE, TYPE_MESSAGE, TYPE_MESSAGE],
            TYPE_MULTI_MESSAGE,
            DynFnV::ConcatMessages3,
        ),
        fn_append_transcript_def(),
        fn_decode_ecdh_params_def(),
        fn_sign_transcript_def(),
        fn_encrypt12_def(),
        def_of("op_arbitrary_to_key"@, seq![TYPE_BYTES], TYPE_KEY, DynFnV::ArbitraryToKey),
        def_of("op_hmac256"@, seq![TYPE_KEY, TYPE_BYTES], TYPE_BYTES, DynFnV::Hmac256),
        def_of(
            "op_hmac256_new_key"@,
            Seq::<u64>::empty(),
            TYPE_KEY,
            DynFnV::Const(TypedValueV::Key(fixed_key_bytes())),
        ),
        fn_seq_def(0),
        fn_seq_def(1),
        fn_seq_def(2),
        fn_seq_def(3),
        fn_seq_def(4),
        fn_seq_def(5),
    ]
}

/// The process-wide catalog: every function symbol the fuzzer may use.
#[verifier::rlimit(50)]
pub fn tls_signature() -> (r: Signature)
    ensures
        r@.functions == catalog_spec(),
        r@.functions.len() == CATALOG_LEN,
        forall|i: int|
            0 <= i < r@.functions.len() ==> crate::signature::shape_types_in(
                #[trigger] r@.functions[i],
                r@.types_by_name,
            ),
{
    let mut defs: Vec<FunctionDefinition> = Vec::new();
    defs.push(fn_protocol_version12());
    defs.push(fn_new_random());
    defs.push(fn_new_session_id());
    defs.push(fn_new_cipher_suites());
    defs.push(fn_cipher_suites12());
    defs.push(fn_cipher_suites());
    defs.push(fn_cipher_suite12());
    defs.push(fn_weak_export_cipher_suite());
    defs.push(fn_compressions());
    defs.push(fn_compression());
    defs.push(fn_client_extensions_new());
    defs.push(fn_server_extensions_new());
    defs.push(fn_empty_bytes_vec());
    defs.push(fn_new_transcript12());
    defs.push(fn_new_pubkey12());
    defs.push(fn_server_name_extension());
    defs.push(fn_x25519_support_group_extension());
    defs.push(fn_secp384r1_support_group_extension());
    defs.push(fn_signature_algorithm_extension());
    defs.push(fn_ec_point_formats_extension());
    defs.push(fn_signed_certificate_timestamp_extension());
    defs.push(fn_signature_algorithm_cert_extension());
    defs.push(fn_key_share_extension());
    defs.push(fn_supported_versions13_extension());
    defs.push(fn_renegotiation_info_extension());
    defs.push(fn_attack_cve_2021_3449());
    defs.push(fn_append_cipher_suite());
    defs.push(fn_client_extensions_append());
    defs.push(fn_server_extensions_append());
    defs.push(fn_client_hello());
    defs.push(fn_server_hello());
    defs.push(fn_change_cipher_spec());
    defs.push(fn_server_hello_done());
    defs.push(fn_application_data());
    defs.push(fn_certificate());
    defs.push(fn_server_key_exchange());
    defs.push(fn_client_key_exchange());
    defs.push(fn_finished());
    defs.push(fn_concat_messages_2());
    defs.push(fn_concat_messages_3());
    defs.push(fn_append_transcript());
    defs.push(fn_decode_ecdh_params());
    defs.push(fn_sign_transcript());
    defs.push(fn_encrypt12());
    defs.push(op_arbitrary_to_key());
    defs.push(op_hmac256());
    defs.push(op_hmac256_new_key());
    defs.push(seq_def("fn_seq_0", op_seq_0()));
    defs.push(seq_def("fn_seq_1", op_seq_1()));
    defs.push(seq_def("fn_seq_2", op_seq_2()));
    defs.push(seq_def("fn_seq_3", op_seq_3()));
    defs.push(seq_def("fn_seq_4", op_seq_4()));
    defs.push(seq_def("fn_seq_5", op_seq_5()));
    proof {
        assert(crate::signature::functions_view(defs@) =~= catalog_spec());
    }
    Signature::new(defs)
}

} // verus!
