//! Security claims: instrumentation records delivered by the library
//! behind an agent, accumulated per trace and handed to a policy.
//!
//! A raw claim is the plain-value form of what the instrumentation
//! callback reports; [`to_claim_data`] classifies it into the data the
//! core keeps, exactly as specified by [`to_claim_data_spec`].

use vstd::prelude::*;
use crate::agent::AgentName;
use crate::agent::AgentType;
use crate::agent::TLSVersion;
use crate::util::clone_copy_vec;

verus! {

/// The kind of event an instrumentation claim reports.
#[derive(Clone, Copy, PartialEq, Eq, Structural, Debug)]
pub enum ClaimType {
    TranscriptClientHello,
    TranscriptPartialClientHello,
    TranscriptServerHello,
    TranscriptServerFinished,
    TranscriptClientFinished,
    TranscriptCertificate,
    Finished,
    ClientHello,
    ChangeCipherSpec,
    EndOfEarlyData,
    Certificate,
    KeyExchange,
    CertificateVerify,
    KeyUpdate,
    HelloRequest,
    ServerHello,
    CertificateRequest,
    ServerDone,
    SessionTicket,
    CertificateStatus,
    EarlyData,
    EncryptedExtensions,
    Unknown,
}

/// Which transcript a transcript claim carries.
#[derive(Clone, Copy, PartialEq, Eq, Structural, Debug)]
pub enum TranscriptKind {
    ClientHello,
    PartialClientHello,
    ServerHello,
    ServerFinished,
    ClientFinished,
    Certificate,
}

/// Model of a [`RawClaim`].
pub struct RawClaimV {
    pub typ: ClaimType,
    pub outbound: bool,
    pub transcript: Seq<u8>,
    pub client_random: Seq<u8>,
    pub server_random: Seq<u8>,
    pub session_id: Seq<u8>,
    pub master_secret: Seq<u8>,
    pub master_secret_12: Seq<u8>,
    pub chosen_cipher: u16,
    pub available_ciphers: Seq<u16>,
    pub signature_algorithm: u16,
    pub peer_signature_algorithm: u16,
}

/// What the instrumentation callback reports, as plain values.
#[derive(Debug)]
pub struct RawClaim {
    pub typ: ClaimType,
    pub outbound: bool,
    pub transcript: Vec<u8>,
    pub client_random: Vec<u8>,
    pub server_random: Vec<u8>,
    pub session_id: Vec<u8>,
    pub master_secret: Vec<u8>,
    pub master_secret_12: Vec<u8>,
    pub chosen_cipher: u16,
    pub available_ciphers: Vec<u16>,
    pub signature_algorithm: u16,
    pub peer_signature_algorithm: u16,
}

impl View for RawClaim {
    type V = RawClaimV;

    open spec fn view(&self) -> RawClaimV {
        RawClaimV {
            typ: self.typ,
            outbound: self.outbound,
            transcript: self.transcript@,
            client_random: self.client_random@,
            server_random: self.server_random@,
            session_id: self.session_id@,
            master_secret: self.master_secret@,
            master_secret_12: self.master_secret_12@,
            chosen_cipher: self.chosen_cipher,
            available_ciphers: self.available_ciphers@,
            signature_algorithm: self.signature_algorithm,
            peer_signature_algorithm: self.peer_signature_algorithm,
        }
    }
}

/// Model of a [`FinishedData`].
pub struct FinishedDataV {
    pub outbound: bool,
    pub client_random: Seq<u8>,
    pub server_random: Seq<u8>,
    pub session_id: Seq<u8>,
    pub master_secret: Seq<u8>,
    pub chosen_cipher: u16,
    pub available_ciphers: Seq<u16>,
    pub signature_algorithm: u16,
    pub peer_signature_algorithm: u16,
}

/// The fields of a Finished claim.
#[derive(Debug)]
pub struct FinishedData {
    pub outbound: bool,
    pub client_random: Vec<u8>,
    pub server_random: Vec<u8>,
    pub session_id: Vec<u8>,
    pub master_secret: Vec<u8>,
    pub chosen_cipher: u16,
    pub available_ciphers: Vec<u16>,
    pub signature_algorithm: u16,
    pub peer_signature_algorithm: u16,
}

impl View for FinishedData {
    type V = FinishedDataV;

    open spec fn view(&self) -> FinishedDataV {
        FinishedDataV {
            outbound: self.outbound,
            client_random: self.client_random@,
            server_random: self.server_random@,
            session_id: self.session_id@,
            master_secret: self.master_secret@,
            chosen_cipher: self.chosen_cipher,
            available_ciphers: self.available_ciphers@,
            signature_algorithm: self.signature_algorithm,
            peer_signature_algorithm: self.peer_signature_algorithm,
        }
    }
}

/// Model of a [`ClaimData`].
pub enum ClaimDataV {
    Transcript(TranscriptKind, Seq<u8>),
    Message(FinishedDataV),
}

/// What the core keeps of a claim: a transcript, or a Finished record.
#[derive(Debug)]
pub enum ClaimData {
    Transcript(TranscriptKind, Vec<u8>),
    Message(FinishedData),
}

impl View for ClaimData {
    type V = ClaimDataV;

    open spec fn view(&self) -> ClaimDataV {
        match self {
            ClaimData::Transcript(k, b) => ClaimDataV::Transcript(*k, b@),
            ClaimData::Message(f) => ClaimDataV::Message(f@),
        }
    }
}

/// Model of a [`Claim`].
pub struct ClaimV {
    pub agent_name: AgentName,
    pub origin: AgentType,
    pub protocol_version: TLSVersion,
    pub data: ClaimDataV,
}

/// One accumulated claim: who reported it, and what it carries.
#[derive(Debug)]
pub struct Claim {
    pub agent_name: AgentName,
    pub origin: AgentType,
    pub protocol_version: TLSVersion,
    pub data: ClaimData,
}

impl View for Claim {
    type V = ClaimV;

    open spec fn view(&self) -> ClaimV {
        ClaimV {
            agent_name: self.agent_name,
            origin: self.origin,
            protocol_version: self.protocol_version,
            data: self.data@,
        }
    }
}

/// The views of a list of claims, in order.
pub open spec fn claims_view(s: Seq<Claim>) -> Seq<ClaimV> {
    Seq::new(s.len(), |i: int| s[i]@)
}

/// The transcript kind a transcript claim maps to, if any.
pub open spec fn transcript_kind_of(typ: ClaimType) -> Option<TranscriptKind> {
    match typ {
        ClaimType::TranscriptClientHello => Some(TranscriptKind::ClientHello),
        ClaimType::TranscriptPartialClientHello => Some(TranscriptKind::PartialClientHello),
        ClaimType::TranscriptServerHello => Some(TranscriptKind::ServerHello),
        ClaimType::TranscriptServerFinished => Some(TranscriptKind::ServerFinished),
        ClaimType::TranscriptClientFinished => Some(TranscriptKind::ClientFinished),
        ClaimType::TranscriptCertificate => Some(TranscriptKind::Certificate),
        _ => None,
    }
}

/// What the core keeps of a raw claim.  Transcript claims keep their
/// transcript; a Finished claim keeps the session fields, taking the
/// master secret matching the negotiated version; an inbound
/// CertificateVerify stands for the server-finished transcript; all
/// other claim kinds are dropped.
pub open spec fn to_claim_data_spec(protocol_version: TLSVersion, claim: RawClaimV) -> Option<
    ClaimDataV,
> {
    match transcript_kind_of(claim.typ) {
        Some(kind) => Some(ClaimDataV::Transcript(kind, claim.transcript)),
        None => match claim.typ {
            ClaimType::Finished => Some(
                ClaimDataV::Message(
                    FinishedDataV {
                        outbound: claim.outbound,
                        client_random: claim.client_random,
                        server_random: claim.server_random,
                        session_id: claim.session_id,
                        master_secret: match protocol_version {
                            TLSVersion::V1_3 => claim.master_secret,
                            TLSVersion::V1_2 => claim.master_secret_12,
                        },
                        chosen_cipher: claim.chosen_cipher,
                        available_ciphers: claim.available_ciphers,
                        signature_algorithm: claim.signature_algorithm,
                        peer_signature_algorithm: claim.peer_signature_algorithm,
                    },
                ),
            ),
            ClaimType::CertificateVerify => if !claim.outbound {
                Some(
                    ClaimDataV::Transcript(TranscriptKind::ServerFinished, claim.transcript),
                )
            } else {
                None
            },
            _ => None,
        },
    }
}

/// Classify a raw claim into the data the core keeps.
pub fn to_claim_data(protocol_version: TLSVersion, claim: &RawClaim) -> (r: Option<ClaimData>)
    ensures
        match r {
            Some(d) => to_claim_data_spec(protocol_version, claim@) == Some(d@),
            None => to_claim_data_spec(protocol_version, claim@) is None,
        },
{
    let kind: Option<TranscriptKind> = match claim.typ {
        ClaimType::TranscriptClientHello => Some(TranscriptKind::ClientHello),
        ClaimType::TranscriptPartialClientHello => Some(TranscriptKind::PartialClientHello),
        ClaimType::TranscriptServerHello => Some(TranscriptKind::ServerHello),
        ClaimType::TranscriptServerFinished => Some(TranscriptKind::ServerFinished),
        ClaimType::TranscriptClientFinished => Some(TranscriptKind::ClientFinished),
        ClaimType::TranscriptCertificate => Some(TranscriptKind::Certificate),
        _ => None,
    };
    match kind {
        Some(kind) => Some(ClaimData::Transcript(kind, clone_copy_vec(&claim.transcript))),
        None => match claim.typ {
            ClaimType::Finished => Some(
                ClaimData::Message(
                    FinishedData {
                        outbound: claim.outbound,
                        client_random: clone_copy_vec(&claim.client_random),
                        server_random: clone_copy_vec(&claim.server_random),
                        session_id: clone_copy_vec(&claim.session_id),
                        master_secret: match protocol_version {
                            TLSVersion::V1_3 => clone_copy_vec(&claim.master_secret),
                            TLSVersion::V1_2 => clone_copy_vec(&claim.master_secret_12),
                        },
                        chosen_cipher: claim.chosen_cipher,
                        available_ciphers: clone_copy_vec(&claim.available_ciphers),
                        signature_algorithm: claim.signature_algorithm,
                        peer_signature_algorithm: claim.peer_signature_algorithm,
                    },
                ),
            ),
            ClaimType::CertificateVerify => {
                if !claim.outbound {
                    Some(
                        ClaimData::Transcript(
                            TranscriptKind::ServerFinished,
                            clone_copy_vec(&claim.transcript),
                        ),
                    )
                } else {
                    None
                }
            },
            _ => None,
        },
    }
}

} // verus!
