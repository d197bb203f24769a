//! Client extensions, every one built as a generic type-plus-payload record.
use vstd::prelude::*;
use crate::grease::{grease_value, is_grease, SecureRandom};
use crate::ids::ExtensionType;

verus! {

/// An owned byte payload.
#[derive(Debug, Clone, PartialEq, Eq)]
pub struct Payload(pub Vec<u8>);

impl View for Payload {
    type V = Seq<u8>;

    open spec fn view(&self) -> Seq<u8> {
        self.0@
    }
}

impl Payload {
    /// An empty payload.
    pub fn empty() -> (r: Self)
        ensures
            r@ == Seq::<u8>::empty(),
    {
        Payload(Vec::new())
    }

    /// A payload holding exactly `bytes`.
    pub fn new(bytes: Vec<u8>) -> (r: Self)
        ensures
            r@ == bytes@,
    {
        Payload(bytes)
    }
}

/// An extension given by its type and its raw payload.
#[derive(Debug, Clone, PartialEq, Eq)]
pub struct UnknownExtension {
    pub typ: ExtensionType,
    pub payload: Payload,
}

/// An extension of a ClientHello.
#[derive(Debug, Clone, PartialEq, Eq)]
pub enum ClientExtension {
    Unknown(UnknownExtension),
}

/// A certificate compression algorithm (RFC 8879).
#[derive(Debug, Clone, Copy, PartialEq, Eq, Structural)]
pub enum CompressCertificateOptions {
    /// Reserved (0x00)
    Reserved,
    /// zlib (0x01)
    Zlib,
    /// brotli (0x02)
    Brotli,
    /// zstd (0x03)
    Zstd,
}

impl CompressCertificateOptions {
    /// The one-byte wire code.
    pub open spec fn code(self) -> u8 {
        match self {
            CompressCertificateOptions::Reserved => 0x00,
            CompressCertificateOptions::Zlib => 0x01,
            CompressCertificateOptions::Brotli => 0x02,
            CompressCertificateOptions::Zstd => 0x03,
        }
    }
}

/// The certificate-compression payload for `list`: the list's length
/// truncated to one byte, a zero byte, then each option's code in order.
pub open spec fn compress_certificate_payload(list: Seq<CompressCertificateOptions>) -> Seq<u8> {
    seq![(list.len() % 256) as u8, 0x00u8] + list.map_values(|o: CompressCertificateOptions| o.code())
}

impl ClientExtension {
    /// The extension's type.
    pub open spec fn ext_type(self) -> ExtensionType {
        match self {
            ClientExtension::Unknown(u) => u.typ,
        }
    }

    /// The extension's payload bytes.
    pub open spec fn payload_bytes(self) -> Seq<u8> {
        match self {
            ClientExtension::Unknown(u) => u.payload@,
        }
    }

    /// Returns the extension's type.
    pub fn get_ext_type(&self) -> (r: ExtensionType)
        ensures
            r == self.ext_type(),
    {
        match self {
            ClientExtension::Unknown(u) => u.typ,
        }
    }

    /// A GREASE extension: a type code drawn once from `rng`, empty payload.
    pub fn grease<R: SecureRandom>(rng: &R) -> (r: Self)
        ensures
            r.ext_type() is Unknown,
            is_grease(r.ext_type().code()),
            r.payload_bytes() == Seq::<u8>::empty(),
    {
        ClientExtension::Unknown(
            UnknownExtension { typ: ExtensionType::Unknown(grease_value(rng)), payload: Payload::empty() },
        )
    }

    /// The extended-master-secret request: empty payload.
    pub fn extended_master_secret_request() -> (r: Self)
        ensures
            r.ext_type() == ExtensionType::ExtendedMasterSecret,
            r.payload_bytes() == Seq::<u8>::empty(),
    {
        ClientExtension::Unknown(
            UnknownExtension { typ: ExtensionType::ExtendedMasterSecret, payload: Payload::empty() },
        )
    }

    /// Renegotiation info with an empty renegotiated connection: payload `[0x00]`.
    pub fn renegotiation_info() -> (r: Self)
        ensures
            r.ext_type() == ExtensionType::RenegotiationInfo,
            r.payload_bytes() == seq![0x00u8],
    {
        ClientExtension::Unknown(
            UnknownExtension { typ: ExtensionType::RenegotiationInfo, payload: Payload::new(vec![0x00u8]) },
        )
    }

    /// An OCSP status request with no responder ids and no extensions:
    /// payload `[0x01, 0x00, 0x00, 0x00, 0x00]`.
    pub fn status_request() -> (r: Self)
        ensures
            r.ext_type() == ExtensionType::StatusRequest,
            r.payload_bytes() == seq![0x01u8, 0x00u8, 0x00u8, 0x00u8, 0x00u8],
    {
        let bytes = vec![0x01u8, 0x00u8, 0x00u8, 0x00u8, 0x00u8];
        ClientExtension::Unknown(
            UnknownExtension { typ: ExtensionType::StatusRequest, payload: Payload::new(bytes) },
        )
    }

    /// The signed-certificate-timestamp request: empty payload.
    pub fn signed_certificate_timestamp() -> (r: Self)
        ensures
            r.ext_type() == ExtensionType::SCT,
            r.payload_bytes() == Seq::<u8>::empty(),
    {
        ClientExtension::Unknown(UnknownExtension { typ: ExtensionType::SCT, payload: Payload::empty() })
    }

    /// Certificate compression (RFC 8879, type 27) offering `list` in order,
    /// duplicates included.
    pub fn compress_certificate(list: &[CompressCertificateOptions]) -> (r: Self)
        ensures
            r.ext_type() == ExtensionType::Unknown(27),
            r.payload_bytes() == compress_certificate_payload(list@),
    {
        let mut payload: Vec<u8> = Vec::new();
        let n: usize = list.len();
        #[verifier::truncate]
        let count: u8 = n as u8;
        assert(count == (n % 256) as u8) by (bit_vector)
            requires
                count == n as u8,
        ;
        payload.push(count);
        payload.push(0x00u8);
        let mut i: usize = 0;
        while i < list.len()
            invariant
                i <= list@.len(),
                payload@ == seq![count, 0x00u8] + list@.subrange(0, i as int).map_values(
                    |o: CompressCertificateOptions| o.code(),
                ),
            decreases list@.len() - i,
        {
            let code: u8 = match list[i] {
                CompressCertificateOptions::Reserved => 0x00,
                CompressCertificateOptions::Zlib => 0x01,
                CompressCertificateOptions::Brotli => 0x02,
                CompressCertificateOptions::Zstd => 0x03,
            };
            payload.push(code);
            i = i + 1;
            assert(list@.subrange(0, i as int) =~= list@.subrange(0, i - 1).push(list@[i - 1]));
            assert(payload@ =~= seq![count, 0x00u8] + list@.subrange(0, i as int).map_values(
                |o: CompressCertificateOptions| o.code(),
            ));
        }
        assert(list@.subrange(0, list@.len() as int) =~= list@);
        ClientExtension::Unknown(
            UnknownExtension { typ: ExtensionType::Unknown(27), payload: Payload::new(payload) },
        )
    }

    /// Padding whose payload is exactly `bytes`.
    pub fn padding(bytes: Vec<u8>) -> (r: Self)
        ensures
            r.ext_type() == ExtensionType::Padding,
            r.payload_bytes() == bytes@,
    {
        ClientExtension::Unknown(UnknownExtension { typ: ExtensionType::Padding, payload: Payload::new(bytes) })
    }

    /// Any extension, given its type and payload.
    pub fn unknown(typ: ExtensionType, bytes: Vec<u8>) -> (r: Self)
        ensures
            r.ext_type() == typ,
            r.payload_bytes() == bytes@,
    {
        ClientExtension::Unknown(UnknownExtension { typ, payload: Payload::new(bytes) })
    }
}

} // verus!
