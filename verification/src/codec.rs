//! Wire codec for the message model.
//!
//! Encoding turns a structured [`Message`] into record bytes; the
//! deframer splits an inbound byte stream into raw records; parsing turns
//! a raw record back into a structured message.  Every executable
//! function is pinned to a specification function over the views, so two
//! runs over the same bytes produce the same structures.

use vstd::prelude::*;
use crate::error::Error;
use crate::msgs::ClientExtension;
use crate::msgs::ClientExtensionV;
use crate::msgs::ClientHelloData;
use crate::msgs::ClientHelloDataV;
use crate::msgs::HandshakePayloadData;
use crate::msgs::HandshakePayloadDataV;
use crate::msgs::Message;
use crate::msgs::MessageV;
use crate::msgs::MessagePayload;
use crate::msgs::MessagePayloadV;
use crate::msgs::OpaqueMessage;
use crate::msgs::OpaqueMessageV;
use crate::msgs::ServerExtension;
use crate::msgs::ServerExtensionV;
use crate::msgs::ServerHelloData;
use crate::msgs::ServerHelloDataV;
use crate::msgs::chain_view;
use crate::msgs::client_extensions_view;
use crate::msgs::server_extensions_view;
use crate::msgs::handshake_type_of;
use crate::msgs::CONTENT_ALERT;
use crate::msgs::HS_CLIENT_HELLO;
use crate::msgs::HS_SERVER_HELLO;
use crate::msgs::HS_CERTIFICATE;
use crate::msgs::HS_SERVER_KEY_EXCHANGE;
use crate::msgs::HS_SERVER_HELLO_DONE;
use crate::msgs::HS_CLIENT_KEY_EXCHANGE;
use crate::msgs::HS_FINISHED;
use crate::msgs::HS_ENCRYPTED_EXTENSIONS;
use crate::msgs::CONTENT_APPLICATION_DATA;
use crate::msgs::CONTENT_CHANGE_CIPHER_SPEC;
use crate::msgs::CONTENT_HANDSHAKE;
use crate::util::clone_copy_vec;

verus! {

/// Big-endian bytes of a 16-bit quantity given as a mathematical integer.
pub open spec fn be16n(n: int) -> Seq<u8> {
    seq![(((n / 256) % 256) as u8), ((n % 256) as u8)]
}

/// Big-endian bytes of a 24-bit quantity given as a mathematical integer.
pub open spec fn be24n(n: int) -> Seq<u8> {
    seq![(((n / 65536) % 256) as u8), (((n / 256) % 256) as u8), ((n % 256) as u8)]
}

/// Append the big-endian bytes of a 16-bit value.
pub fn push_u16(out: &mut Vec<u8>, x: u16)
    ensures
        final(out)@ == old(out)@ + be16n(x as int),
{
    out.push((x / 256) as u8);
    out.push((x % 256) as u8);
    proof {
        assert(out@ =~= old(out)@ + be16n(x as int));
    }
}

/// Append the big-endian bytes of a 24-bit value.
pub fn push_u24(out: &mut Vec<u8>, x: u32)
    requires
        x < 0x1000000,
    ensures
        final(out)@ == old(out)@ + be24n(x as int),
{
    out.push(((x / 65536) % 256) as u8);
    out.push(((x / 256) % 256) as u8);
    out.push((x % 256) as u8);
    proof {
        assert(out@ =~= old(out)@ + be24n(x as int));
    }
}

/// Append a copy of the given bytes.
pub fn extend_bytes(out: &mut Vec<u8>, b: &Vec<u8>)
    ensures
        final(out)@ == old(out)@ + b@,
{
    let mut i: usize = 0;
    while i < b.len()
        invariant
            i <= b.len(),
            out@ == old(out)@ + b@.subrange(0, i as int),
        decreases b.len() - i,
    {
        out.push(b[i]);
        proof {
            assert(out@ =~= old(out)@ + b@.subrange(0, i + 1 as int));
        }
        i += 1;
    }
    proof {
        assert(out@ =~= old(out)@ + b@);
    }
}

/// Bytes of a cipher-suite list: two bytes for each suite, in order.
pub open spec fn suites_bytes(s: Seq<u16>) -> Seq<u8>
    decreases s.len(),
{
    if s.len() == 0 {
        Seq::empty()
    } else {
        be16n(s[0] as int) + suites_bytes(s.drop_first())
    }
}

proof fn lemma_suites_bytes_snoc(s: Seq<u16>, i: int)
    requires
        0 <= i < s.len(),
    ensures
        suites_bytes(s.subrange(0, i + 1)) == suites_bytes(s.subrange(0, i)) + be16n(s[i] as int),
    decreases i,
{
    let a = s.subrange(0, i + 1);
    let b = s.subrange(0, i);
    if i == 0 {
        assert(a.drop_first() =~= Seq::<u16>::empty());
        assert(b =~= Seq::<u16>::empty());
        assert(suites_bytes(a) =~= suites_bytes(b) + be16n(s[0] as int));
    } else {
        lemma_suites_bytes_snoc(s.drop_first(), i - 1);
        assert(a.drop_first() =~= s.drop_first().subrange(0, i));
        assert(b.drop_first() =~= s.drop_first().subrange(0, i - 1));
        assert(suites_bytes(a) =~= suites_bytes(b) + be16n(s[i] as int));
    }
}

proof fn lemma_suites_bytes_len(s: Seq<u16>)
    ensures
        suites_bytes(s).len() == 2 * s.len(),
    decreases s.len(),
{
    if s.len() > 0 {
        lemma_suites_bytes_len(s.drop_first());
    }
}

/// Bytes of one client extension: type, body length, body.
pub open spec fn client_extension_bytes(e: ClientExtensionV) -> Seq<u8> {
    be16n(e.ext_type as int) + be16n(e.body.len() as int) + e.body
}

/// Bytes of a client extension block, extension after extension.
pub open spec fn client_extensions_bytes(s: Seq<ClientExtensionV>) -> Seq<u8>
    decreases s.len(),
{
    if s.len() == 0 {
        Seq::empty()
    } else {
        client_extension_bytes(s[0]) + client_extensions_bytes(s.drop_first())
    }
}

proof fn lemma_client_extensions_bytes_snoc(s: Seq<ClientExtensionV>, i: int)
    requires
        0 <= i < s.len(),
    ensures
        client_extensions_bytes(s.subrange(0, i + 1)) == client_extensions_bytes(
            s.subrange(0, i),
        ) + client_extension_bytes(s[i]),
    decreases i,
{
    let a = s.subrange(0, i + 1);
    let b = s.subrange(0, i);
    if i == 0 {
        assert(a.drop_first() =~= Seq::<ClientExtensionV>::empty());
        assert(b =~= Seq::<ClientExtensionV>::empty());
        assert(client_extensions_bytes(a) =~= client_extensions_bytes(b)
            + client_extension_bytes(s[0]));
    } else {
        lemma_client_extensions_bytes_snoc(s.drop_first(), i - 1);
        assert(a.drop_first() =~= s.drop_first().subrange(0, i));
        assert(b.drop_first() =~= s.drop_first().subrange(0, i - 1));
        assert(client_extensions_bytes(a) =~= client_extensions_bytes(b)
            + client_extension_bytes(s[i]));
    }
}

/// Bytes of one server extension: type, body length, body.
pub open spec fn server_extension_bytes(e: ServerExtensionV) -> Seq<u8> {
    be16n(e.ext_type as int) + be16n(e.body.len() as int) + e.body
}

/// Bytes of a server extension block, extension after extension.
pub open spec fn server_extensions_bytes(s: Seq<ServerExtensionV>) -> Seq<u8>
    decreases s.len(),
{
    if s.len() == 0 {
        Seq::empty()
    } else {
        server_extension_bytes(s[0]) + server_extensions_bytes(s.drop_first())
    }
}

proof fn lemma_server_extensions_bytes_snoc(s: Seq<ServerExtensionV>, i: int)
    requires
        0 <= i < s.len(),
    ensures
        server_extensions_bytes(s.subrange(0, i + 1)) == server_extensions_bytes(
            s.subrange(0, i),
        ) + server_extension_bytes(s[i]),
    decreases i,
{
    let a = s.subrange(0, i + 1);
    let b = s.subrange(0, i);
    if i == 0 {
        assert(a.drop_first() =~= Seq::<ServerExtensionV>::empty());
        assert(b =~= Seq::<ServerExtensionV>::empty());
        assert(server_extensions_bytes(a) =~= server_extensions_bytes(b)
            + server_extension_bytes(s[0]));
    } else {
        lemma_server_extensions_bytes_snoc(s.drop_first(), i - 1);
        assert(a.drop_first() =~= s.drop_first().subrange(0, i));
        assert(b.drop_first() =~= s.drop_first().subrange(0, i - 1));
        assert(server_extensions_bytes(a) =~= server_extensions_bytes(b)
            + server_extension_bytes(s[i]));
    }
}

/// Bytes of a certificate chain: each certificate with a 24-bit length.
pub open spec fn chain_bytes(s: Seq<Seq<u8>>) -> Seq<u8>
    decreases s.len(),
{
    if s.len() == 0 {
        Seq::empty()
    } else {
        be24n(s[0].len() as int) + s[0] + chain_bytes(s.drop_first())
    }
}

proof fn lemma_chain_bytes_snoc(s: Seq<Seq<u8>>, i: int)
    requires
        0 <= i < s.len(),
    ensures
        chain_bytes(s.subrange(0, i + 1)) == chain_bytes(s.subrange(0, i)) + be24n(
            s[i].len() as int,
        ) + s[i],
    decreases i,
{
    let a = s.subrange(0, i + 1);
    let b = s.subrange(0, i);
    if i == 0 {
        assert(a.drop_first() =~= Seq::<Seq<u8>>::empty());
        assert(b =~= Seq::<Seq<u8>>::empty());
        assert(chain_bytes(a) =~= chain_bytes(b) + be24n(s[0].len() as int) + s[0]);
    } else {
        lemma_chain_bytes_snoc(s.drop_first(), i - 1);
        assert(a.drop_first() =~= s.drop_first().subrange(0, i));
        assert(b.drop_first() =~= s.drop_first().subrange(0, i - 1));
        assert(chain_bytes(a) =~= chain_bytes(b) + be24n(s[i].len() as int) + s[i]);
    }
}

/// Well-formedness bounds under which a ClientHello encodes faithfully.
pub open spec fn wf_client_hello(ch: ClientHelloDataV) -> bool {
    &&& ch.random.len() == 32
    &&& ch.session_id.len() <= 32
    &&& ch.cipher_suites.len() <= 0x3fff
    &&& ch.compression_methods.len() <= 0xff
    &&& ch.extensions.len() <= 0xffff
    &&& (forall|i: int| 0 <= i < ch.extensions.len() ==> #[trigger] ch.extensions[i].body.len()
        <= 0xff00)
    &&& client_extensions_bytes(ch.extensions).len() <= 0xffff
}

/// Well-formedness bounds under which a ServerHello encodes faithfully.
pub open spec fn wf_server_hello(sh: ServerHelloDataV) -> bool {
    &&& sh.random.len() == 32
    &&& sh.session_id.len() <= 32
    &&& (forall|i: int| 0 <= i < sh.extensions.len() ==> #[trigger] sh.extensions[i].body.len()
        <= 0xff00)
    &&& server_extensions_bytes(sh.extensions).len() <= 0xffff
}

/// Body bytes of a ClientHello.
pub open spec fn client_hello_body(ch: ClientHelloDataV) -> Seq<u8> {
    be16n(ch.client_version as int) + ch.random + seq![(ch.session_id.len() as u8)]
        + ch.session_id + be16n(2 * ch.cipher_suites.len() as int) + suites_bytes(
        ch.cipher_suites,
    )
        + seq![(ch.compression_methods.len() as u8)] + ch.compression_methods + be16n(
        client_extensions_bytes(ch.extensions).len() as int,
    ) + client_extensions_bytes(ch.extensions)
}

/// Body bytes of a ServerHello.
pub open spec fn server_hello_body(sh: ServerHelloDataV) -> Seq<u8> {
    be16n(sh.legacy_version as int) + sh.random + seq![(sh.session_id.len() as u8)]
        + sh.session_id + be16n(sh.cipher_suite as int) + seq![sh.compression_method] + be16n(
        server_extensions_bytes(sh.extensions).len() as int,
    ) + server_extensions_bytes(sh.extensions)
}

/// Body bytes of one handshake payload, without the handshake header.
pub open spec fn handshake_body(h: HandshakePayloadDataV) -> Seq<u8> {
    match h {
        HandshakePayloadDataV::ClientHello(ch) => client_hello_body(ch),
        HandshakePayloadDataV::ServerHello(sh) => server_hello_body(sh),
        HandshakePayloadDataV::Certificate(c) => be24n(chain_bytes(c).len() as int) + chain_bytes(
            c,
        ),
        HandshakePayloadDataV::ServerKeyExchange(b) => b,
        HandshakePayloadDataV::ServerHelloDone => Seq::empty(),
        HandshakePayloadDataV::ClientKeyExchange(b) => b,
        HandshakePayloadDataV::Finished(b) => b,
        HandshakePayloadDataV::EncryptedExtensions(e) => be16n(
            server_extensions_bytes(e).len() as int,
        ) + server_extensions_bytes(e),
        HandshakePayloadDataV::Opaque(_, b) => b,
    }
}

/// Bounds on the fields of a handshake payload, under which each field
/// encodes faithfully.
pub open spec fn wf_handshake_inner(h: HandshakePayloadDataV) -> bool {
    match h {
        HandshakePayloadDataV::ClientHello(ch) => wf_client_hello(ch),
        HandshakePayloadDataV::ServerHello(sh) => wf_server_hello(sh),
        HandshakePayloadDataV::Certificate(c) => {
            &&& chain_bytes(c).len() < 0x1000000
            &&& (forall|i: int| 0 <= i < c.len() ==> #[trigger] c[i].len() < 0x1000000)
        },
        HandshakePayloadDataV::EncryptedExtensions(e) => {
            &&& (forall|i: int| 0 <= i < e.len() ==> #[trigger] e[i].body.len() <= 0xff00)
            &&& server_extensions_bytes(e).len() <= 0xffff
        },
        _ => true,
    }
}

/// Well-formedness bounds under which a handshake payload encodes
/// faithfully.
pub open spec fn wf_handshake(h: HandshakePayloadDataV) -> bool {
    &&& wf_handshake_inner(h)
    &&& handshake_body(h).len() < 0x1000000
}

/// Record payload bytes of a structured message.
pub open spec fn message_payload_bytes(p: MessagePayloadV) -> Seq<u8> {
    match p {
        MessagePayloadV::Handshake(h) => seq![handshake_type_of(h)] + be24n(
            handshake_body(h).len() as int,
        ) + handshake_body(h),
        MessagePayloadV::ChangeCipherSpec => seq![1u8],
        MessagePayloadV::Alert(level, desc) => seq![level, desc],
        MessagePayloadV::ApplicationData(b) => b,
    }
}

/// Well-formedness bounds under which a whole message encodes faithfully
/// into one record.
pub open spec fn wf_message(m: MessageV) -> bool {
    &&& message_payload_bytes(m.payload).len() <= 0xffff
    &&& match m.payload {
        MessagePayloadV::Handshake(h) => wf_handshake(h),
        _ => true,
    }
}

/// The raw record carrying a structured message.
pub open spec fn message_to_opaque_spec(m: MessageV) -> OpaqueMessageV {
    OpaqueMessageV {
        typ: match m.payload {
            MessagePayloadV::Handshake(_) => CONTENT_HANDSHAKE,
            MessagePayloadV::ChangeCipherSpec => CONTENT_CHANGE_CIPHER_SPEC,
            MessagePayloadV::Alert(_, _) => CONTENT_ALERT,
            MessagePayloadV::ApplicationData(_) => CONTENT_APPLICATION_DATA,
        },
        version: m.version,
        payload: message_payload_bytes(m.payload),
    }
}

/// Full wire bytes of a raw record: type, version, length, payload.
pub open spec fn opaque_bytes(om: OpaqueMessageV) -> Seq<u8> {
    seq![om.typ] + be16n(om.version as int) + be16n(om.payload.len() as int) + om.payload
}

/// Encode the body of a ClientHello.
fn encode_client_hello_body(ch: &ClientHelloData) -> (r: Vec<u8>)
    requires
        wf_client_hello(ch@),
    ensures
        r@ == client_hello_body(ch@),
{
    let ghost chv = ch@;
    let mut out: Vec<u8> = Vec::new();
    push_u16(&mut out, ch.client_version);
    extend_bytes(&mut out, &ch.random);
    out.push(ch.session_id.len() as u8);
    extend_bytes(&mut out, &ch.session_id);
    proof {
        lemma_suites_bytes_len(chv.cipher_suites);
    }
    push_u16(&mut out, (2 * ch.cipher_suites.len()) as u16);
    let ghost before_suites = out@;
    let mut i: usize = 0;
    while i < ch.cipher_suites.len()
        invariant
            i <= ch.cipher_suites.len(),
            chv == ch@,
            out@ == before_suites + suites_bytes(chv.cipher_suites.subrange(0, i as int)),
        decreases ch.cipher_suites.len() - i,
    {
        push_u16(&mut out, ch.cipher_suites[i]);
        proof {
            lemma_suites_bytes_snoc(chv.cipher_suites, i as int);
        }
        i += 1;
    }
    proof {
        assert(chv.cipher_suites.subrange(0, chv.cipher_suites.len() as int)
            =~= chv.cipher_suites);
    }
    out.push(ch.compression_methods.len() as u8);
    extend_bytes(&mut out, &ch.compression_methods);
    let ext_block_len = client_extensions_block_len(&ch.extensions);
    push_u16(&mut out, ext_block_len);
    let ghost before_exts = out@;
    let mut j: usize = 0;
    while j < ch.extensions.len()
        invariant
            j <= ch.extensions.len(),
            chv == ch@,
            out@ == before_exts + client_extensions_bytes(chv.extensions.subrange(0, j as int)),
            forall|k: int| 0 <= k < chv.extensions.len() ==> #[trigger] chv.extensions[k].body.len()
                <= 0xff00,
        decreases ch.extensions.len() - j,
    {
        proof {
            assert(chv.extensions[j as int] == ch.extensions@[j as int]@);
        }
        push_u16(&mut out, ch.extensions[j].ext_type);
        push_u16(&mut out, ch.extensions[j].body.len() as u16);
        extend_bytes(&mut out, &ch.extensions[j].body);
        proof {
            lemma_client_extensions_bytes_snoc(chv.extensions, j as int);
            assert(out@ =~= before_exts + client_extensions_bytes(
                chv.extensions.subrange(0, j + 1 as int),
            ));
        }
        j += 1;
    }
    proof {
        assert(chv.extensions.subrange(0, chv.extensions.len() as int) =~= chv.extensions);
        assert(out@ =~= client_hello_body(chv));
    }
    out
}

/// The total byte length of a client extension block, as a 16-bit value.
fn client_extensions_block_len(exts: &Vec<ClientExtension>) -> (r: u16)
    requires
        client_extensions_bytes(client_extensions_view(exts@)).len() <= 0xffff,
    ensures
        r as int == client_extensions_bytes(client_extensions_view(exts@)).len(),
{
    let ghost full = client_extensions_view(exts@);
    let mut total: usize = 0;
    let mut i: usize = 0;
    while i < exts.len()
        invariant
            i <= exts.len(),
            full == client_extensions_view(exts@),
            total == client_extensions_bytes(full.subrange(0, i as int)).len(),
            client_extensions_bytes(full).len() <= 0xffff,
        decreases exts.len() - i,
    {
        proof {
            lemma_client_extensions_bytes_snoc(full, i as int);
            lemma_client_extensions_bytes_prefix_len(full, i + 1 as int);
        }
        total = total + 4 + exts[i].body.len();
        i += 1;
    }
    proof {
        assert(full.subrange(0, full.len() as int) =~= full);
    }
    total as u16
}

/// The bytes of a prefix of an extension block are a prefix of the bytes
/// of the whole block.
proof fn lemma_client_extensions_bytes_prefix_len(s: Seq<ClientExtensionV>, i: int)
    requires
        0 <= i <= s.len(),
    ensures
        client_extensions_bytes(s.subrange(0, i)).len() <= client_extensions_bytes(s).len(),
    decreases s.len() - i,
{
    if i == s.len() {
        assert(s.subrange(0, i) =~= s);
    } else {
        lemma_client_extensions_bytes_snoc(s, i);
        lemma_client_extensions_bytes_prefix_len(s, i + 1);
    }
}

proof fn lemma_server_extensions_bytes_prefix_len(s: Seq<ServerExtensionV>, i: int)
    requires
        0 <= i <= s.len(),
    ensures
        server_extensions_bytes(s.subrange(0, i)).len() <= server_extensions_bytes(s).len(),
    decreases s.len() - i,
{
    if i == s.len() {
        assert(s.subrange(0, i) =~= s);
    } else {
        lemma_server_extensions_bytes_snoc(s, i);
        lemma_server_extensions_bytes_prefix_len(s, i + 1);
    }
}

/// The total byte length of a server extension block, as a 16-bit value.
fn server_extensions_block_len(exts: &Vec<ServerExtension>) -> (r: u16)
    requires
        server_extensions_bytes(server_extensions_view(exts@)).len() <= 0xffff,
    ensures
        r as int == server_extensions_bytes(server_extensions_view(exts@)).len(),
{
    let ghost full = server_extensions_view(exts@);
    let mut total: usize = 0;
    let mut i: usize = 0;
    while i < exts.len()
        invariant
            i <= exts.len(),
            full == server_extensions_view(exts@),
            total == server_extensions_bytes(full.subrange(0, i as int)).len(),
            server_extensions_bytes(full).len() <= 0xffff,
        decreases exts.len() - i,
    {
        proof {
            lemma_server_extensions_bytes_snoc(full, i as int);
            lemma_server_extensions_bytes_prefix_len(full, i + 1 as int);
        }
        total = total + 4 + exts[i].body.len();
        i += 1;
    }
    proof {
        assert(full.subrange(0, full.len() as int) =~= full);
    }
    total as u16
}

/// Encode a server extension block, extension after extension.
fn encode_server_extensions(out: &mut Vec<u8>, exts: &Vec<ServerExtension>)
    requires
        forall|k: int|
            0 <= k < server_extensions_view(exts@).len() ==> #[trigger] server_extensions_view(
                exts@,
            )[k].body.len() <= 0xff00,
    ensures
        final(out)@ == old(out)@ + server_extensions_bytes(server_extensions_view(exts@)),
{
    let ghost full = server_extensions_view(exts@);
    let mut j: usize = 0;
    while j < exts.len()
        invariant
            j <= exts.len(),
            full == server_extensions_view(exts@),
            out@ == old(out)@ + server_extensions_bytes(full.subrange(0, j as int)),
            forall|k: int| 0 <= k < full.len() ==> #[trigger] full[k].body.len() <= 0xff00,
        decreases exts.len() - j,
    {
        proof {
            assert(full[j as int] == exts@[j as int]@);
        }
        push_u16(out, exts[j].ext_type);
        push_u16(out, exts[j].body.len() as u16);
        extend_bytes(out, &exts[j].body);
        proof {
            lemma_server_extensions_bytes_snoc(full, j as int);
            assert(out@ =~= old(out)@ + server_extensions_bytes(
                full.subrange(0, j + 1 as int),
            ));
        }
        j += 1;
    }
    proof {
        assert(full.subrange(0, full.len() as int) =~= full);
    }
}

/// Encode the body of a ServerHello.
fn encode_server_hello_body(sh: &ServerHelloData) -> (r: Vec<u8>)
    requires
        wf_server_hello(sh@),
    ensures
        r@ == server_hello_body(sh@),
{
    let mut out: Vec<u8> = Vec::new();
    push_u16(&mut out, sh.legacy_version);
    extend_bytes(&mut out, &sh.random);
    out.push(sh.session_id.len() as u8);
    extend_bytes(&mut out, &sh.session_id);
    push_u16(&mut out, sh.cipher_suite);
    out.push(sh.compression_method);
    let ext_block_len = server_extensions_block_len(&sh.extensions);
    push_u16(&mut out, ext_block_len);
    encode_server_extensions(&mut out, &sh.extensions);
    proof {
        assert(out@ =~= server_hello_body(sh@));
    }
    out
}

/// Encode the body of a handshake payload, without the handshake header.
fn encode_handshake_body(h: &HandshakePayloadData) -> (r: Vec<u8>)
    requires
        wf_handshake_inner(h@),
    ensures
        r@ == handshake_body(h@),
{
    match h {
        HandshakePayloadData::ClientHello(ch) => encode_client_hello_body(ch),
        HandshakePayloadData::ServerHello(sh) => encode_server_hello_body(sh),
        HandshakePayloadData::Certificate(c) => {
            let ghost chain = chain_view(c@);
            let mut total: usize = 0;
            let mut i: usize = 0;
            while i < c.len()
                invariant
                    i <= c.len(),
                    chain == chain_view(c@),
                    total == chain_bytes(chain.subrange(0, i as int)).len(),
                    chain_bytes(chain).len() < 0x1000000,
                decreases c.len() - i,
            {
                proof {
                    lemma_chain_bytes_snoc(chain, i as int);
                    lemma_chain_bytes_prefix_len(chain, i + 1 as int);
                }
                total = total + 3 + c[i].len();
                i += 1;
            }
            proof {
                assert(chain.subrange(0, chain.len() as int) =~= chain);
            }
            let mut out: Vec<u8> = Vec::new();
            push_u24(&mut out, total as u32);
            let mut j: usize = 0;
            while j < c.len()
                invariant
                    j <= c.len(),
                    chain == chain_view(c@),
                    out@ == be24n(chain_bytes(chain).len() as int) + chain_bytes(
                        chain.subrange(0, j as int),
                    ),
                    chain_bytes(chain).len() < 0x1000000,
                    forall|k: int| 0 <= k < chain.len() ==> #[trigger] chain[k].len() < 0x1000000,
                decreases c.len() - j,
            {
                proof {
                    assert(chain[j as int] == c@[j as int]@);
                }
                push_u24(&mut out, c[j].len() as u32);
                extend_bytes(&mut out, &c[j]);
                proof {
                    lemma_chain_bytes_snoc(chain, j as int);
                    assert(out@ =~= be24n(chain_bytes(chain).len() as int) + chain_bytes(
                        chain.subrange(0, j + 1 as int),
                    ));
                }
                j += 1;
            }
            proof {
                assert(chain.subrange(0, chain.len() as int) =~= chain);
                assert(out@ =~= handshake_body(h@));
            }
            out
        },
        HandshakePayloadData::ServerKeyExchange(b) => clone_copy_vec(b),
        HandshakePayloadData::ServerHelloDone => Vec::new(),
        HandshakePayloadData::ClientKeyExchange(b) => clone_copy_vec(b),
        HandshakePayloadData::Finished(b) => clone_copy_vec(b),
        HandshakePayloadData::EncryptedExtensions(e) => {
            let mut out: Vec<u8> = Vec::new();
            let ext_block_len = server_extensions_block_len(e);
            push_u16(&mut out, ext_block_len);
            encode_server_extensions(&mut out, e);
            proof {
                assert(out@ =~= handshake_body(h@));
            }
            out
        },
        HandshakePayloadData::Opaque(_, b) => clone_copy_vec(b),
    }
}

proof fn lemma_chain_bytes_prefix_len(s: Seq<Seq<u8>>, i: int)
    requires
        0 <= i <= s.len(),
    ensures
        chain_bytes(s.subrange(0, i)).len() <= chain_bytes(s).len(),
    decreases s.len() - i,
{
    if i == s.len() {
        assert(s.subrange(0, i) =~= s);
    } else {
        lemma_chain_bytes_snoc(s, i);
        lemma_chain_bytes_prefix_len(s, i + 1);
    }
}

/// Encode the record payload of a structured message.
fn encode_message_payload(p: &MessagePayload) -> (r: Vec<u8>)
    requires
        match p@ {
            MessagePayloadV::Handshake(h) => wf_handshake(h),
            _ => true,
        },
    ensures
        r@ == message_payload_bytes(p@),
{
    encode_message_payload_inner(p)
}

/// Encode the record payload, asking only for the field bounds; the
/// record-level length bound is checked by the caller.
fn encode_message_payload_inner(p: &MessagePayload) -> (r: Vec<u8>)
    requires
        match p@ {
            MessagePayloadV::Handshake(h) => wf_handshake_inner(h),
            _ => true,
        },
    ensures
        r@ == message_payload_bytes(p@),
{
    match p {
        MessagePayload::Handshake(h) => {
            let body = encode_handshake_body(h);
            let mut out: Vec<u8> = Vec::new();
            out.push(h.handshake_type());
            let len: u64 = body.len() as u64;
            out.push(((len / 65536) % 256) as u8);
            out.push(((len / 256) % 256) as u8);
            out.push((len % 256) as u8);
            extend_bytes(&mut out, &body);
            proof {
                assert(out@ =~= message_payload_bytes(p@));
            }
            out
        },
        MessagePayload::ChangeCipherSpec => {
            let mut out: Vec<u8> = Vec::new();
            out.push(1u8);
            proof {
                assert(out@ =~= message_payload_bytes(p@));
            }
            out
        },
        MessagePayload::Alert(level, desc) => {
            let mut out: Vec<u8> = Vec::new();
            out.push(*level);
            out.push(*desc);
            proof {
                assert(out@ =~= message_payload_bytes(p@));
            }
            out
        },
        MessagePayload::ApplicationData(b) => clone_copy_vec(b),
    }
}

/// Whether a message is within the bounds of faithful encoding.
pub fn check_wf_message(m: &Message) -> (r: bool)
    ensures
        r == wf_message(m@),
{
    let inner_ok: bool = match &m.payload {
        MessagePayload::Handshake(h) => check_wf_handshake_inner(h),
        _ => true,
    };
    if !inner_ok {
        return false;
    }
    let payload = encode_message_payload_inner(&m.payload);
    payload.len() <= 0xffff
}

/// Whether the fields of a handshake payload are within encoding bounds.
fn check_wf_handshake_inner(h: &HandshakePayloadData) -> (r: bool)
    ensures
        r == wf_handshake_inner(h@),
{
    match h {
        HandshakePayloadData::ClientHello(ch) => check_wf_client_hello(ch),
        HandshakePayloadData::ServerHello(sh) => check_wf_server_hello(sh),
        HandshakePayloadData::Certificate(c) => check_chain_bounds(c),
        HandshakePayloadData::EncryptedExtensions(e) => check_wf_server_extensions(e),
        _ => true,
    }
}

/// Whether a certificate chain is within encoding bounds.
fn check_chain_bounds(c: &Vec<Vec<u8>>) -> (r: bool)
    ensures
        r == (chain_bytes(chain_view(c@)).len() < 0x1000000 && (forall|i: int|
            0 <= i < c@.len() ==> #[trigger] chain_view(c@)[i].len() < 0x1000000)),
{
    let ghost chain = chain_view(c@);
    let mut total: u64 = 0;
    let mut i: usize = 0;
    while i < c.len()
        invariant
            i <= c.len(),
            chain == chain_view(c@),
            total == chain_bytes(chain.subrange(0, i as int)).len(),
            total < 0x1000000,
            forall|k: int| 0 <= k < i ==> #[trigger] chain[k].len() < 0x1000000,
        decreases c.len() - i,
    {
        if c[i].len() >= 0x1000000 {
            proof {
                assert(chain[i as int].len() >= 0x1000000);
            }
            return false;
        }
        proof {
            lemma_chain_bytes_snoc(chain, i as int);
        }
        let next: u64 = total + 3 + c[i].len() as u64;
        if next >= 0x1000000 {
            proof {
                lemma_chain_bytes_prefix_len(chain, i + 1 as int);
            }
            return false;
        }
        total = next;
        i += 1;
    }
    proof {
        assert(chain.subrange(0, chain.len() as int) =~= chain);
    }
    true
}

/// Whether every extension body is small and the block length fits.
fn check_wf_server_extensions(e: &Vec<ServerExtension>) -> (r: bool)
    ensures
        r == ((forall|k: int|
            0 <= k < server_extensions_view(e@).len() ==> #[trigger] server_extensions_view(
                e@,
            )[k].body.len() <= 0xff00) && server_extensions_bytes(server_extensions_view(e@)).len()
            <= 0xffff),
{
    let ghost full = server_extensions_view(e@);
    let mut total: u64 = 0;
    let mut i: usize = 0;
    while i < e.len()
        invariant
            i <= e.len(),
            full == server_extensions_view(e@),
            total == server_extensions_bytes(full.subrange(0, i as int)).len(),
            total <= 0xffff,
            forall|k: int| 0 <= k < i ==> #[trigger] full[k].body.len() <= 0xff00,
        decreases e.len() - i,
    {
        proof {
            assert(full[i as int] == e@[i as int]@);
        }
        if e[i].body.len() > 0xff00 {
            proof {
                assert(server_extensions_view(e@)[i as int].body.len() > 0xff00);
            }
            return false;
        }
        proof {
            lemma_server_extensions_bytes_snoc(full, i as int);
        }
        let next: u64 = total + 4 + e[i].body.len() as u64;
        if next > 0xffff {
            proof {
                lemma_server_extensions_bytes_prefix_len2(full, i + 1 as int);
            }
            return false;
        }
        total = next;
        i += 1;
    }
    proof {
        assert(full.subrange(0, full.len() as int) =~= full);
    }
    true
}

proof fn lemma_server_extensions_bytes_prefix_len2(s: Seq<ServerExtensionV>, i: int)
    requires
        0 <= i <= s.len(),
    ensures
        server_extensions_bytes(s).len() >= server_extensions_bytes(s.subrange(0, i)).len(),
{
    lemma_server_extensions_bytes_prefix_len(s, i);
}

/// Whether a ClientHello is within the bounds of faithful encoding.
fn check_wf_client_hello(ch: &ClientHelloData) -> (r: bool)
    ensures
        r == wf_client_hello(ch@),
{
    if ch.random.len() != 32 {
        return false;
    }
    if ch.session_id.len() > 32 {
        return false;
    }
    if ch.cipher_suites.len() > 0x3fff {
        return false;
    }
    if ch.compression_methods.len() > 0xff {
        return false;
    }
    if ch.extensions.len() > 0xffff {
        return false;
    }
    let ghost full = client_extensions_view(ch.extensions@);
    let mut total: u64 = 0;
    let mut i: usize = 0;
    while i < ch.extensions.len()
        invariant
            i <= ch.extensions.len(),
            full == client_extensions_view(ch.extensions@),
            total == client_extensions_bytes(full.subrange(0, i as int)).len(),
            total <= 0xffff,
            forall|k: int| 0 <= k < i ==> #[trigger] full[k].body.len() <= 0xff00,
        decreases ch.extensions.len() - i,
    {
        proof {
            assert(full[i as int] == ch.extensions@[i as int]@);
        }
        if ch.extensions[i].body.len() > 0xff00 {
            proof {
                assert(client_extensions_view(ch.extensions@)[i as int].body.len() > 0xff00);
            }
            return false;
        }
        proof {
            lemma_client_extensions_bytes_snoc(full, i as int);
        }
        let next: u64 = total + 4 + ch.extensions[i].body.len() as u64;
        if next > 0xffff {
            proof {
                lemma_client_extensions_bytes_prefix_len(full, i + 1 as int);
            }
            return false;
        }
        total = next;
        i += 1;
    }
    proof {
        assert(full.subrange(0, full.len() as int) =~= full);
    }
    true
}

/// Whether a ServerHello is within the bounds of faithful encoding.
fn check_wf_server_hello(sh: &ServerHelloData) -> (r: bool)
    ensures
        r == wf_server_hello(sh@),
{
    if sh.random.len() != 32 {
        return false;
    }
    if sh.session_id.len() > 32 {
        return false;
    }
    check_wf_server_extensions(&sh.extensions)
}

/// Turn a structured message into the raw record that carries it.
/// Fails with `Malformed` exactly when the message is out of bounds.
pub fn message_to_opaque(m: &Message) -> (r: Result<OpaqueMessage, Error>)
    ensures
        match r {
            Ok(om) => wf_message(m@) && om@ == message_to_opaque_spec(m@),
            Err(e) => !wf_message(m@) && e is Malformed,
        },
{
    if !check_wf_message(m) {
        return Err(Error::Malformed);
    }
    let payload = encode_message_payload(&m.payload);
    let typ: u8 = match &m.payload {
        MessagePayload::Handshake(_) => CONTENT_HANDSHAKE,
        MessagePayload::ChangeCipherSpec => CONTENT_CHANGE_CIPHER_SPEC,
        MessagePayload::Alert(_, _) => CONTENT_ALERT,
        MessagePayload::ApplicationData(_) => CONTENT_APPLICATION_DATA,
    };
    Ok(OpaqueMessage { typ, version: m.version, payload })
}

/// Full wire bytes of a raw record.
pub fn encode_opaque(om: &OpaqueMessage) -> (r: Result<Vec<u8>, Error>)
    ensures
        match r {
            Ok(b) => om@.payload.len() <= 0xffff && b@ == opaque_bytes(om@),
            Err(e) => om@.payload.len() > 0xffff && e is Malformed,
        },
{
    if om.payload.len() > 0xffff {
        return Err(Error::Malformed);
    }
    let mut out: Vec<u8> = Vec::new();
    out.push(om.typ);
    push_u16(&mut out, om.version);
    push_u16(&mut out, om.payload.len() as u16);
    extend_bytes(&mut out, &om.payload);
    proof {
        assert(out@ =~= opaque_bytes(om@));
    }
    Ok(out)
}

/// The 16-bit big-endian quantity at `pos`.
pub open spec fn rd16(b: Seq<u8>, pos: int) -> int {
    b[pos] * 256 + b[pos + 1]
}

/// The 24-bit big-endian quantity at `pos`.
pub open spec fn rd24(b: Seq<u8>, pos: int) -> int {
    b[pos] * 65536 + b[pos + 1] * 256 + b[pos + 2]
}

/// Read the 16-bit big-endian quantity at `pos`.
fn read_u16(b: &Vec<u8>, pos: usize) -> (r: u16)
    requires
        pos < b@.len(),
        b@.len() - pos >= 2,
    ensures
        r as int == rd16(b@, pos as int),
{
    let n: usize = b.len();
    (b[pos] as u16) * 256 + (b[pos + 1] as u16)
}

/// Read the 24-bit big-endian quantity at `pos`.
fn read_u24(b: &Vec<u8>, pos: usize) -> (r: u32)
    requires
        pos < b@.len(),
        b@.len() - pos >= 3,
    ensures
        r as int == rd24(b@, pos as int),
{
    let n: usize = b.len();
    (b[pos] as u32) * 65536 + (b[pos + 1] as u32) * 256 + (b[pos + 2] as u32)
}

/// Copy the byte range `[pos, end)`.
fn sub_bytes(b: &Vec<u8>, pos: usize, end: usize) -> (r: Vec<u8>)
    requires
        pos <= end <= b@.len(),
    ensures
        r@ == b@.subrange(pos as int, end as int),
{
    let mut out: Vec<u8> = Vec::new();
    let mut i: usize = pos;
    while i < end
        invariant
            pos <= i <= end <= b@.len(),
            out@ == b@.subrange(pos as int, i as int),
        decreases end - i,
    {
        out.push(b[i]);
        proof {
            assert(out@ =~= b@.subrange(pos as int, i + 1 as int));
        }
        i += 1;
    }
    out
}

/// Parsed client extensions of the byte range `[pos, end)`, or nothing
/// when the range is not an exact extension block.
pub open spec fn parse_client_extensions_spec(b: Seq<u8>, pos: int, end: int) -> Option<
    Seq<ClientExtensionV>,
>
    decreases end - pos,
{
    if pos == end {
        Some(Seq::empty())
    } else if end - pos >= 4 {
        let et = rd16(b, pos);
        let bl = rd16(b, pos + 2);
        if bl <= end - pos - 4 {
            match parse_client_extensions_spec(b, pos + 4 + bl, end) {
                None => None,
                Some(rest) => Some(
                    seq![
                        ClientExtensionV {
                            ext_type: et as u16,
                            body: b.subrange(pos + 4, pos + 4 + bl),
                        },
                    ] + rest,
                ),
            }
        } else {
            None
        }
    } else {
        None
    }
}

/// Parse a client extension block.
fn parse_client_extensions(b: &Vec<u8>, pos: usize, end: usize) -> (r: Option<
    Vec<ClientExtension>,
>)
    requires
        pos <= end <= b@.len(),
    ensures
        match r {
            Some(v) => parse_client_extensions_spec(b@, pos as int, end as int) == Some(
                client_extensions_view(v@),
            ),
            None => parse_client_extensions_spec(b@, pos as int, end as int) is None,
        },
    decreases end - pos,
{
    if pos == end {
        let v: Vec<ClientExtension> = Vec::new();
        proof {
            assert(client_extensions_view(v@) =~= Seq::<ClientExtensionV>::empty());
        }
        return Some(v);
    }
    if end - pos < 4 {
        return None;
    }
    let et = read_u16(b, pos);
    let bl = read_u16(b, pos + 2);
    if (bl as usize) > end - pos - 4 {
        return None;
    }
    let body_end = pos + 4 + (bl as usize);
    let rest = parse_client_extensions(b, body_end, end);
    match rest {
        None => None,
        Some(mut rest) => {
            let ext = ClientExtension { ext_type: et, body: sub_bytes(b, pos + 4, body_end) };
            let mut v: Vec<ClientExtension> = Vec::new();
            v.push(ext);
            let ghost rest_snap = rest@;
            v.append(&mut rest);
            proof {
                let sp = parse_client_extensions_spec(b@, pos as int, end as int);
                let spr = parse_client_extensions_spec(b@, body_end as int, end as int);
                assert(client_extensions_view(v@) =~= seq![
                    ClientExtensionV {
                        ext_type: et,
                        body: b@.subrange(pos + 4 as int, body_end as int),
                    },
                ] + client_extensions_view(rest_snap));
            }
            Some(v)
        },
    }
}

/// Parsed server extensions of the byte range `[pos, end)`.
pub open spec fn parse_server_extensions_spec(b: Seq<u8>, pos: int, end: int) -> Option<
    Seq<ServerExtensionV>,
>
    decreases end - pos,
{
    if pos == end {
        Some(Seq::empty())
    } else if end - pos >= 4 {
        let et = rd16(b, pos);
        let bl = rd16(b, pos + 2);
        if bl <= end - pos - 4 {
            match parse_server_extensions_spec(b, pos + 4 + bl, end) {
                None => None,
                Some(rest) => Some(
                    seq![
                        ServerExtensionV {
                            ext_type: et as u16,
                            body: b.subrange(pos + 4, pos + 4 + bl),
                        },
                    ] + rest,
                ),
            }
        } else {
            None
        }
    } else {
        None
    }
}

/// Parse a server extension block.
fn parse_server_extensions(b: &Vec<u8>, pos: usize, end: usize) -> (r: Option<
    Vec<ServerExtension>,
>)
    requires
        pos <= end <= b@.len(),
    ensures
        match r {
            Some(v) => parse_server_extensions_spec(b@, pos as int, end as int) == Some(
                server_extensions_view(v@),
            ),
            None => parse_server_extensions_spec(b@, pos as int, end as int) is None,
        },
    decreases end - pos,
{
    if pos == end {
        let v: Vec<ServerExtension> = Vec::new();
        proof {
            assert(server_extensions_view(v@) =~= Seq::<ServerExtensionV>::empty());
        }
        return Some(v);
    }
    if end - pos < 4 {
        return None;
    }
    let et = read_u16(b, pos);
    let bl = read_u16(b, pos + 2);
    if (bl as usize) > end - pos - 4 {
        return None;
    }
    let body_end = pos + 4 + (bl as usize);
    let rest = parse_server_extensions(b, body_end, end);
    match rest {
        None => None,
        Some(mut rest) => {
            let ext = ServerExtension { ext_type: et, body: sub_bytes(b, pos + 4, body_end) };
            let mut v: Vec<ServerExtension> = Vec::new();
            v.push(ext);
            let ghost rest_snap = rest@;
            v.append(&mut rest);
            proof {
                assert(server_extensions_view(v@) =~= seq![
                    ServerExtensionV {
                        ext_type: et,
                        body: b@.subrange(pos + 4 as int, body_end as int),
                    },
                ] + server_extensions_view(rest_snap));
            }
            Some(v)
        },
    }
}

/// Parsed cipher suites: `count` two-byte values starting at `pos`.
pub open spec fn parse_suites_spec(b: Seq<u8>, pos: int, count: int) -> Seq<u16>
    decreases count,
{
    if count <= 0 {
        Seq::empty()
    } else {
        seq![(rd16(b, pos) as u16)] + parse_suites_spec(b, pos + 2, count - 1)
    }
}

/// Parse `count` cipher suites starting at `pos`.
fn parse_suites(b: &Vec<u8>, pos: usize, count: usize) -> (r: Vec<u16>)
    requires
        pos + 2 * count <= b@.len(),
    ensures
        r@ == parse_suites_spec(b@, pos as int, count as int),
    decreases count,
{
    if count == 0 {
        let v: Vec<u16> = Vec::new();
        proof {
            assert(v@ =~= parse_suites_spec(b@, pos as int, 0));
        }
        return v;
    }
    let n: usize = b.len();
    let first = read_u16(b, pos);
    let mut rest = parse_suites(b, pos + 2, count - 1);
    let mut v: Vec<u16> = Vec::new();
    v.push(first);
    let ghost rest_snap = rest@;
    v.append(&mut rest);
    proof {
        assert(v@ =~= seq![first] + rest_snap);
    }
    v
}

/// Parsed certificate chain of `[pos, end)`: each certificate prefixed
/// with a 24-bit length.
pub open spec fn parse_chain_spec(b: Seq<u8>, pos: int, end: int) -> Option<Seq<Seq<u8>>>
    decreases end - pos,
{
    if pos == end {
        Some(Seq::empty())
    } else if end - pos >= 3 {
        let cl = rd24(b, pos);
        if cl <= end - pos - 3 {
            match parse_chain_spec(b, pos + 3 + cl, end) {
                None => None,
                Some(rest) => Some(seq![b.subrange(pos + 3, pos + 3 + cl)] + rest),
            }
        } else {
            None
        }
    } else {
        None
    }
}

/// Parse a certificate chain.
fn parse_chain(b: &Vec<u8>, pos: usize, end: usize) -> (r: Option<Vec<Vec<u8>>>)
    requires
        pos <= end <= b@.len(),
    ensures
        match r {
            Some(v) => parse_chain_spec(b@, pos as int, end as int) == Some(chain_view(v@)),
            None => parse_chain_spec(b@, pos as int, end as int) is None,
        },
    decreases end - pos,
{
    if pos == end {
        let v: Vec<Vec<u8>> = Vec::new();
        proof {
            assert(chain_view(v@) =~= Seq::<Seq<u8>>::empty());
        }
        return Some(v);
    }
    if end - pos < 3 {
        return None;
    }
    let cl = read_u24(b, pos);
    if (cl as usize) > end - pos - 3 {
        return None;
    }
    let body_end = pos + 3 + (cl as usize);
    let rest = parse_chain(b, body_end, end);
    match rest {
        None => None,
        Some(mut rest) => {
            let cert = sub_bytes(b, pos + 3, body_end);
            let mut v: Vec<Vec<u8>> = Vec::new();
            v.push(cert);
            let ghost rest_snap = rest@;
            v.append(&mut rest);
            proof {
                assert(chain_view(v@) =~= seq![b@.subrange(pos + 3 as int, body_end as int)]
                    + chain_view(rest_snap));
            }
            Some(v)
        },
    }
}

/// Parsed ClientHello body, or nothing when the bytes are not an exact
/// ClientHello.
pub open spec fn parse_client_hello_spec(b: Seq<u8>) -> Option<ClientHelloDataV> {
    if b.len() < 35 {
        None
    } else {
        let sid_len = b[34] as int;
        if b.len() - 35 < sid_len + 2 {
            None
        } else {
            let sl = rd16(b, 35 + sid_len);
            if sl % 2 != 0 || b.len() - 35 - sid_len - 2 < sl + 1 {
                None
            } else {
                let comp_pos = 35 + sid_len + 2 + sl;
                let comp_len = b[comp_pos] as int;
                if b.len() - comp_pos - 1 < comp_len + 2 {
                    None
                } else {
                    let ext_pos = comp_pos + 1 + comp_len;
                    let ext_len = rd16(b, ext_pos);
                    if ext_pos + 2 + ext_len != b.len() {
                        None
                    } else {
                        match parse_client_extensions_spec(b, ext_pos + 2, b.len() as int) {
                            None => None,
                            Some(exts) => Some(
                                ClientHelloDataV {
                                    client_version: rd16(b, 0) as u16,
                                    random: b.subrange(2, 34),
                                    session_id: b.subrange(35, 35 + sid_len),
                                    cipher_suites: parse_suites_spec(b, 35 + sid_len + 2, sl / 2),
                                    compression_methods: b.subrange(
                                        comp_pos + 1,
                                        comp_pos + 1 + comp_len,
                                    ),
                                    extensions: exts,
                                },
                            ),
                        }
                    }
                }
            }
        }
    }
}

/// Parse a ClientHello body.
fn parse_client_hello(b: &Vec<u8>) -> (r: Option<ClientHelloData>)
    ensures
        match r {
            Some(ch) => parse_client_hello_spec(b@) == Some(ch@),
            None => parse_client_hello_spec(b@) is None,
        },
{
    if b.len() < 35 {
        return None;
    }
    let sid_len = b[34] as usize;
    if b.len() - 35 < sid_len + 2 {
        return None;
    }
    let sl = read_u16(b, 35 + sid_len) as usize;
    if sl % 2 != 0 || b.len() - 35 - sid_len - 2 < sl + 1 {
        return None;
    }
    let comp_pos = 35 + sid_len + 2 + sl;
    let comp_len = b[comp_pos] as usize;
    if b.len() - comp_pos - 1 < comp_len + 2 {
        return None;
    }
    let ext_pos = comp_pos + 1 + comp_len;
    let ext_len = read_u16(b, ext_pos) as usize;
    if ext_pos + 2 + ext_len != b.len() {
        return None;
    }
    let exts = parse_client_extensions(b, ext_pos + 2, b.len());
    match exts {
        None => None,
        Some(exts) => {
            let ch = ClientHelloData {
                client_version: read_u16(b, 0),
                random: sub_bytes(b, 2, 34),
                session_id: sub_bytes(b, 35, 35 + sid_len),
                cipher_suites: parse_suites(b, 35 + sid_len + 2, sl / 2),
                compression_methods: sub_bytes(b, comp_pos + 1, comp_pos + 1 + comp_len),
                extensions: exts,
            };
            Some(ch)
        },
    }
}

/// Parsed ServerHello body.
pub open spec fn parse_server_hello_spec(b: Seq<u8>) -> Option<ServerHelloDataV> {
    if b.len() < 35 {
        None
    } else {
        let sid_len = b[34] as int;
        if b.len() - 35 < sid_len + 5 {
            None
        } else {
            let ext_pos = 35 + sid_len + 3;
            let ext_len = rd16(b, ext_pos);
            if ext_pos + 2 + ext_len != b.len() {
                None
            } else {
                match parse_server_extensions_spec(b, ext_pos + 2, b.len() as int) {
                    None => None,
                    Some(exts) => Some(
                        ServerHelloDataV {
                            legacy_version: rd16(b, 0) as u16,
                            random: b.subrange(2, 34),
                            session_id: b.subrange(35, 35 + sid_len),
                            cipher_suite: rd16(b, 35 + sid_len) as u16,
                            compression_method: b[35 + sid_len + 2],
                            extensions: exts,
                        },
                    ),
                }
            }
        }
    }
}

/// Parse a ServerHello body.
fn parse_server_hello(b: &Vec<u8>) -> (r: Option<ServerHelloData>)
    ensures
        match r {
            Some(sh) => parse_server_hello_spec(b@) == Some(sh@),
            None => parse_server_hello_spec(b@) is None,
        },
{
    if b.len() < 35 {
        return None;
    }
    let sid_len = b[34] as usize;
    if b.len() - 35 < sid_len + 5 {
        return None;
    }
    let ext_pos = 35 + sid_len + 3;
    let ext_len = read_u16(b, ext_pos) as usize;
    if ext_pos + 2 + ext_len != b.len() {
        return None;
    }
    let exts = parse_server_extensions(b, ext_pos + 2, b.len());
    match exts {
        None => None,
        Some(exts) => {
            let sh = ServerHelloData {
                legacy_version: read_u16(b, 0),
                random: sub_bytes(b, 2, 34),
                session_id: sub_bytes(b, 35, 35 + sid_len),
                cipher_suite: read_u16(b, 35 + sid_len),
                compression_method: b[35 + sid_len + 2],
                extensions: exts,
            };
            Some(sh)
        },
    }
}

/// Parsed handshake payload of one handshake record: type byte, 24-bit
/// length, body; the record must hold exactly one handshake message.
pub open spec fn parse_handshake_spec(b: Seq<u8>) -> Option<HandshakePayloadDataV> {
    if b.len() < 4 {
        None
    } else {
        let typ = b[0];
        let l = rd24(b, 1);
        if 4 + l != b.len() {
            None
        } else {
            let body = b.subrange(4, b.len() as int);
            if typ == HS_CLIENT_HELLO {
                match parse_client_hello_spec(body) {
                    None => None,
                    Some(ch) => Some(HandshakePayloadDataV::ClientHello(ch)),
                }
            } else if typ == HS_SERVER_HELLO {
                match parse_server_hello_spec(body) {
                    None => None,
                    Some(sh) => Some(HandshakePayloadDataV::ServerHello(sh)),
                }
            } else if typ == HS_CERTIFICATE {
                if body.len() < 3 {
                    None
                } else {
                    let total = rd24(body, 0);
                    if 3 + total != body.len() {
                        None
                    } else {
                        match parse_chain_spec(body, 3, body.len() as int) {
                            None => None,
                            Some(chain) => Some(HandshakePayloadDataV::Certificate(chain)),
                        }
                    }
                }
            } else if typ == HS_SERVER_KEY_EXCHANGE {
                Some(HandshakePayloadDataV::ServerKeyExchange(body))
            } else if typ == HS_SERVER_HELLO_DONE {
                if body.len() == 0 {
                    Some(HandshakePayloadDataV::ServerHelloDone)
                } else {
                    None
                }
            } else if typ == HS_CLIENT_KEY_EXCHANGE {
                Some(HandshakePayloadDataV::ClientKeyExchange(body))
            } else if typ == HS_FINISHED {
                Some(HandshakePayloadDataV::Finished(body))
            } else if typ == HS_ENCRYPTED_EXTENSIONS {
                if body.len() < 2 {
                    None
                } else {
                    let el = rd16(body, 0);
                    if 2 + el != body.len() {
                        None
                    } else {
                        match parse_server_extensions_spec(body, 2, body.len() as int) {
                            None => None,
                            Some(exts) => Some(HandshakePayloadDataV::EncryptedExtensions(exts)),
                        }
                    }
                }
            } else {
                Some(HandshakePayloadDataV::Opaque(typ, body))
            }
        }
    }
}

/// Parse one handshake record payload.
fn parse_handshake(b: &Vec<u8>) -> (r: Option<HandshakePayloadData>)
    ensures
        match r {
            Some(h) => parse_handshake_spec(b@) == Some(h@),
            None => parse_handshake_spec(b@) is None,
        },
{
    if b.len() < 4 {
        return None;
    }
    let typ = b[0];
    let l = read_u24(b, 1);
    if 4 + (l as usize) != b.len() {
        return None;
    }
    let body = sub_bytes(b, 4, b.len());
    let ghost bodyv = b@.subrange(4, b@.len() as int);
    if typ == HS_CLIENT_HELLO {
        match parse_client_hello(&body) {
            None => None,
            Some(ch) => Some(HandshakePayloadData::ClientHello(ch)),
        }
    } else if typ == HS_SERVER_HELLO {
        match parse_server_hello(&body) {
            None => None,
            Some(sh) => Some(HandshakePayloadData::ServerHello(sh)),
        }
    } else if typ == HS_CERTIFICATE {
        if body.len() < 3 {
            return None;
        }
        let total = read_u24(&body, 0);
        if 3 + (total as usize) != body.len() {
            return None;
        }
        match parse_chain(&body, 3, body.len()) {
            None => None,
            Some(chain) => Some(HandshakePayloadData::Certificate(chain)),
        }
    } else if typ == HS_SERVER_KEY_EXCHANGE {
        Some(HandshakePayloadData::ServerKeyExchange(body))
    } else if typ == HS_SERVER_HELLO_DONE {
        if body.len() == 0 {
            Some(HandshakePayloadData::ServerHelloDone)
        } else {
            None
        }
    } else if typ == HS_CLIENT_KEY_EXCHANGE {
        Some(HandshakePayloadData::ClientKeyExchange(body))
    } else if typ == HS_FINISHED {
        Some(HandshakePayloadData::Finished(body))
    } else if typ == HS_ENCRYPTED_EXTENSIONS {
        if body.len() < 2 {
            return None;
        }
        let el = read_u16(&body, 0);
        if 2 + (el as usize) != body.len() {
            return None;
        }
        match parse_server_extensions(&body, 2, body.len()) {
            None => None,
            Some(exts) => Some(HandshakePayloadData::EncryptedExtensions(exts)),
        }
    } else {
        Some(HandshakePayloadData::Opaque(typ, body))
    }
}

/// Parsed structured message of a raw record.
pub open spec fn parse_message_spec(om: OpaqueMessageV) -> Option<MessageV> {
    if om.typ == CONTENT_CHANGE_CIPHER_SPEC {
        if om.payload.len() == 1 && om.payload[0] == 1 {
            Some(MessageV { version: om.version, payload: MessagePayloadV::ChangeCipherSpec })
        } else {
            None
        }
    } else if om.typ == CONTENT_ALERT {
        if om.payload.len() == 2 {
            Some(
                MessageV {
                    version: om.version,
                    payload: MessagePayloadV::Alert(om.payload[0], om.payload[1]),
                },
            )
        } else {
            None
        }
    } else if om.typ == CONTENT_APPLICATION_DATA {
        Some(
            MessageV {
                version: om.version,
                payload: MessagePayloadV::ApplicationData(om.payload),
            },
        )
    } else if om.typ == CONTENT_HANDSHAKE {
        match parse_handshake_spec(om.payload) {
            None => None,
            Some(h) => Some(
                MessageV { version: om.version, payload: MessagePayloadV::Handshake(h) },
            ),
        }
    } else {
        None
    }
}

/// Parse a raw record into a structured message.  Fails with `Stream`
/// exactly when the record is not parsable.
pub fn parse_message(om: &OpaqueMessage) -> (r: Result<Message, Error>)
    ensures
        match r {
            Ok(m) => parse_message_spec(om@) == Some(m@),
            Err(e) => parse_message_spec(om@) is None && e is Stream,
        },
{
    if om.typ == CONTENT_CHANGE_CIPHER_SPEC {
        if om.payload.len() == 1 && om.payload[0] == 1 {
            Ok(Message { version: om.version, payload: MessagePayload::ChangeCipherSpec })
        } else {
            Err(Error::Stream("malformed change cipher spec record".to_owned()))
        }
    } else if om.typ == CONTENT_ALERT {
        if om.payload.len() == 2 {
            Ok(
                Message {
                    version: om.version,
                    payload: MessagePayload::Alert(om.payload[0], om.payload[1]),
                },
            )
        } else {
            Err(Error::Stream("malformed alert record".to_owned()))
        }
    } else if om.typ == CONTENT_APPLICATION_DATA {
        Ok(
            Message {
                version: om.version,
                payload: MessagePayload::ApplicationData(clone_copy_vec(&om.payload)),
            },
        )
    } else if om.typ == CONTENT_HANDSHAKE {
        match parse_handshake(&om.payload) {
            None => Err(Error::Stream("malformed handshake record".to_owned())),
            Some(h) => Ok(
                Message { version: om.version, payload: MessagePayload::Handshake(h) },
            ),
        }
    } else {
        Err(Error::Stream("unknown content type".to_owned()))
    }
}

/// The records deframed from a byte stream, and the unconsumed rest.
pub open spec fn deframe_spec(buf: Seq<u8>) -> (Seq<OpaqueMessageV>, Seq<u8>)
    decreases buf.len(),
{
    if buf.len() < 5 {
        (Seq::empty(), buf)
    } else {
        let l = rd16(buf, 3);
        if buf.len() - 5 < l {
            (Seq::empty(), buf)
        } else {
            let om = OpaqueMessageV {
                typ: buf[0],
                version: rd16(buf, 1) as u16,
                payload: buf.subrange(5, 5 + l),
            };
            let (rest_frames, rest) = deframe_spec(buf.subrange(5 + l, buf.len() as int));
            (seq![om] + rest_frames, rest)
        }
    }
}

/// The views of a list of raw records.
pub open spec fn opaques_view(v: Seq<OpaqueMessage>) -> Seq<OpaqueMessageV> {
    Seq::new(v.len(), |i: int| v[i]@)
}

/// Splits an inbound byte stream into raw records.  Bytes of records not
/// yet complete stay in the buffer.
#[derive(Debug)]
pub struct MessageDeframer {
    pub frames: Vec<OpaqueMessage>,
    pub buffer: Vec<u8>,
}

impl MessageDeframer {
    /// A deframer with nothing buffered.
    pub fn new() -> (r: MessageDeframer)
        ensures
            r.frames@.len() == 0,
            r.buffer@.len() == 0,
    {
        MessageDeframer { frames: Vec::new(), buffer: Vec::new() }
    }

    /// Feed bytes; every record completed by them is appended to
    /// `frames`, in order, and the unconsumed rest stays buffered.
    pub fn read(&mut self, bytes: &Vec<u8>)
        ensures
            opaques_view(final(self).frames@) == opaques_view(old(self).frames@) + deframe_spec(
                old(self).buffer@ + bytes@,
            ).0,
            final(self).buffer@ == deframe_spec(old(self).buffer@ + bytes@).1,
    {
        extend_bytes(&mut self.buffer, bytes);
        loop
            invariant
                opaques_view(self.frames@) + deframe_spec(self.buffer@).0 == opaques_view(
                    old(self).frames@,
                ) + deframe_spec(old(self).buffer@ + bytes@).0,
                deframe_spec(self.buffer@).1 == deframe_spec(old(self).buffer@ + bytes@).1,
            ensures
                opaques_view(self.frames@) + deframe_spec(self.buffer@).0 == opaques_view(
                    old(self).frames@,
                ) + deframe_spec(old(self).buffer@ + bytes@).0,
                deframe_spec(self.buffer@).1 == deframe_spec(old(self).buffer@ + bytes@).1,
                deframe_spec(self.buffer@).0 == Seq::<OpaqueMessageV>::empty(),
            decreases self.buffer@.len(),
        {
            if self.buffer.len() < 5 {
                break ;
            }
            let l = read_u16(&self.buffer, 3) as usize;
            if self.buffer.len() - 5 < l {
                break ;
            }
            let om = OpaqueMessage {
                typ: self.buffer[0],
                version: read_u16(&self.buffer, 1),
                payload: sub_bytes(&self.buffer, 5, 5 + l),
            };
            let ghost pre_frames = self.frames@;
            let ghost pre_buf = self.buffer@;
            self.frames.push(om);
            let rest = sub_bytes(&self.buffer, 5 + l, self.buffer.len());
            self.buffer = rest;
            proof {
                assert(opaques_view(self.frames@) =~= opaques_view(pre_frames) + seq![
                    OpaqueMessageV {
                        typ: pre_buf[0],
                        version: rd16(pre_buf, 1) as u16,
                        payload: pre_buf.subrange(5, 5 + rd16(pre_buf, 3)),
                    },
                ]);
                assert(opaques_view(self.frames@) + deframe_spec(self.buffer@).0 =~= opaques_view(
                    old(self).frames@,
                ) + deframe_spec(old(self).buffer@ + bytes@).0);
            }
        }
        proof {
            assert(opaques_view(self.frames@) =~= opaques_view(self.frames@) + deframe_spec(
                self.buffer@,
            ).0);
        }
    }

    /// Take the oldest complete record, if any.
    pub fn pop_frame(&mut self) -> (r: Option<OpaqueMessage>)
        ensures
            match r {
                Some(om) => {
                    &&& old(self).frames@.len() > 0
                    &&& om == old(self).frames@[0]
                    &&& final(self).frames@ == old(self).frames@.drop_first()
                },
                None => {
                    &&& old(self).frames@.len() == 0
                    &&& final(self).frames@ == old(self).frames@
                },
            },
            final(self).buffer@ == old(self).buffer@,
    {
        if self.frames.len() == 0 {
            return None;
        }
        let om = self.frames.remove(0);
        proof {
            assert(self.frames@ =~= old(self).frames@.drop_first());
        }
        Some(om)
    }

    /// The wire bytes of every buffered record, concatenated in order.
    /// Fails with `Malformed` when a record payload exceeds a record's
    /// length field.
    pub fn encode(&self) -> (r: Result<Vec<u8>, Error>)
        ensures
            match r {
                Ok(b) => b@ == frames_bytes(opaques_view(self.frames@)),
                Err(e) => e is Malformed,
            },
    {
        let mut out: Vec<u8> = Vec::new();
        let mut i: usize = 0;
        while i < self.frames.len()
            invariant
                i <= self.frames.len(),
                out@ == frames_bytes(opaques_view(self.frames@).subrange(0, i as int)),
            decreases self.frames.len() - i,
        {
            let encoded = encode_opaque(&self.frames[i]);
            match encoded {
                Ok(b) => {
                    extend_bytes(&mut out, &b);
                },
                Err(e) => {
                    return Err(Error::Malformed);
                },
            }
            proof {
                lemma_frames_bytes_snoc(opaques_view(self.frames@), i as int);
                assert(out@ =~= frames_bytes(
                    opaques_view(self.frames@).subrange(0, i + 1 as int),
                ));
            }
            i += 1;
        }
        proof {
            assert(opaques_view(self.frames@).subrange(
                0,
                opaques_view(self.frames@).len() as int,
            ) =~= opaques_view(self.frames@));
        }
        Ok(out)
    }
}

/// Wire bytes of a list of records, record after record.
pub open spec fn frames_bytes(s: Seq<OpaqueMessageV>) -> Seq<u8>
    decreases s.len(),
{
    if s.len() == 0 {
        Seq::empty()
    } else {
        opaque_bytes(s[0]) + frames_bytes(s.drop_first())
    }
}

proof fn lemma_frames_bytes_snoc(s: Seq<OpaqueMessageV>, i: int)
    requires
        0 <= i < s.len(),
    ensures
        frames_bytes(s.subrange(0, i + 1)) == frames_bytes(s.subrange(0, i)) + opaque_bytes(
            s[i],
        ),
    decreases i,
{
    let a = s.subrange(0, i + 1);
    let b = s.subrange(0, i);
    if i == 0 {
        assert(a.drop_first() =~= Seq::<OpaqueMessageV>::empty());
        assert(b =~= Seq::<OpaqueMessageV>::empty());
        assert(frames_bytes(a) =~= frames_bytes(b) + opaque_bytes(s[0]));
    } else {
        lemma_frames_bytes_snoc(s.drop_first(), i - 1);
        assert(a.drop_first() =~= s.drop_first().subrange(0, i));
        assert(b.drop_first() =~= s.drop_first().subrange(0, i - 1));
        assert(frames_bytes(a) =~= frames_bytes(b) + opaque_bytes(s[i]));
    }
}


} // verus!
