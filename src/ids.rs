//! Protocol identifiers: each is a registered name or a raw 16-bit code.
use vstd::prelude::*;
use crate::grease::is_grease;

verus! {

/// A TLS cipher suite.
#[allow(non_camel_case_types)]
#[derive(Debug, Clone, Copy, PartialEq, Eq, Structural)]
pub enum CipherSuite {
    TLS13_AES_128_GCM_SHA256,
    TLS13_AES_256_GCM_SHA384,
    TLS13_CHACHA20_POLY1305_SHA256,
    Unknown(u16),
}

/// A key-exchange group.
#[allow(non_camel_case_types)]
#[derive(Debug, Clone, Copy, PartialEq, Eq, Structural)]
pub enum NamedGroup {
    secp256r1,
    secp384r1,
    X25519,
    Unknown(u16),
}

/// A protocol version.
#[allow(non_camel_case_types)]
#[derive(Debug, Clone, Copy, PartialEq, Eq, Structural)]
pub enum ProtocolVersion {
    TLSv1_2,
    TLSv1_3,
    Unknown(u16),
}

/// A handshake extension type.
#[derive(Debug, Clone, Copy, PartialEq, Eq, Structural)]
pub enum ExtensionType {
    ServerName,
    StatusRequest,
    SupportedGroups,
    SCT,
    Padding,
    ExtendedMasterSecret,
    RenegotiationInfo,
    Unknown(u16),
}

impl CipherSuite {
    /// The wire code.
    pub open spec fn code(self) -> u16 {
        match self {
            CipherSuite::TLS13_AES_128_GCM_SHA256 => 0x1301,
            CipherSuite::TLS13_AES_256_GCM_SHA384 => 0x1302,
            CipherSuite::TLS13_CHACHA20_POLY1305_SHA256 => 0x1303,
            CipherSuite::Unknown(x) => x,
        }
    }

    /// Returns the wire code.
    pub fn get_u16(&self) -> (r: u16)
        ensures
            r == self.code(),
    {
        match self {
            CipherSuite::TLS13_AES_128_GCM_SHA256 => 0x1301,
            CipherSuite::TLS13_AES_256_GCM_SHA384 => 0x1302,
            CipherSuite::TLS13_CHACHA20_POLY1305_SHA256 => 0x1303,
            CipherSuite::Unknown(x) => *x,
        }
    }
}

impl NamedGroup {
    /// The wire code.
    pub open spec fn code(self) -> u16 {
        match self {
            NamedGroup::secp256r1 => 0x0017,
            NamedGroup::secp384r1 => 0x0018,
            NamedGroup::X25519 => 0x001d,
            NamedGroup::Unknown(x) => x,
        }
    }

    /// Returns the wire code.
    pub fn get_u16(&self) -> (r: u16)
        ensures
            r == self.code(),
    {
        match self {
            NamedGroup::secp256r1 => 0x0017,
            NamedGroup::secp384r1 => 0x0018,
            NamedGroup::X25519 => 0x001d,
            NamedGroup::Unknown(x) => *x,
        }
    }
}

impl ProtocolVersion {
    /// The wire code.
    pub open spec fn code(self) -> u16 {
        match self {
            ProtocolVersion::TLSv1_2 => 0x0303,
            ProtocolVersion::TLSv1_3 => 0x0304,
            ProtocolVersion::Unknown(x) => x,
        }
    }

    /// Returns the wire code.
    pub fn get_u16(&self) -> (r: u16)
        ensures
            r == self.code(),
    {
        match self {
            ProtocolVersion::TLSv1_2 => 0x0303,
            ProtocolVersion::TLSv1_3 => 0x0304,
            ProtocolVersion::Unknown(x) => *x,
        }
    }
}

impl ExtensionType {
    /// The wire code.
    pub open spec fn code(self) -> u16 {
        match self {
            ExtensionType::ServerName => 0x0000,
            ExtensionType::StatusRequest => 0x0005,
            ExtensionType::SupportedGroups => 0x000a,
            ExtensionType::SCT => 0x0012,
            ExtensionType::Padding => 0x0015,
            ExtensionType::ExtendedMasterSecret => 0x0017,
            ExtensionType::RenegotiationInfo => 0xff01,
            ExtensionType::Unknown(x) => x,
        }
    }

    /// Returns the wire code.
    pub fn get_u16(&self) -> (r: u16)
        ensures
            r == self.code(),
    {
        match self {
            ExtensionType::ServerName => 0x0000,
            ExtensionType::StatusRequest => 0x0005,
            ExtensionType::SupportedGroups => 0x000a,
            ExtensionType::SCT => 0x0012,
            ExtensionType::Padding => 0x0015,
            ExtensionType::ExtendedMasterSecret => 0x0017,
            ExtensionType::RenegotiationInfo => 0xff01,
            ExtensionType::Unknown(x) => *x,
        }
    }
}

/// No registered cipher suite has a GREASE code.
pub proof fn lemma_grease_cipher_suite_unregistered(c: CipherSuite)
    requires
        is_grease(c.code()),
    ensures
        c is Unknown,
{
    let x = c.code();
    assert(is_grease(x) ==> x != 0x1301u16 && x != 0x1302u16 && x != 0x1303u16) by (bit_vector);
}

/// No registered group has a GREASE code.
pub proof fn lemma_grease_group_unregistered(g: NamedGroup)
    requires
        is_grease(g.code()),
    ensures
        g is Unknown,
{
    let x = g.code();
    assert(is_grease(x) ==> x != 0x0017u16 && x != 0x0018u16 && x != 0x001du16) by (bit_vector);
}

/// No registered protocol version has a GREASE code.
pub proof fn lemma_grease_version_unregistered(v: ProtocolVersion)
    requires
        is_grease(v.code()),
    ensures
        v is Unknown,
{
    let x = v.code();
    assert(is_grease(x) ==> x != 0x0303u16 && x != 0x0304u16) by (bit_vector);
}

/// No registered extension type has a GREASE code.
pub proof fn lemma_grease_extension_type_unregistered(t: ExtensionType)
    requires
        is_grease(t.code()),
    ensures
        t is Unknown,
{
    let x = t.code();
    assert(is_grease(x) ==> x != 0x0000u16 && x != 0x0005u16 && x != 0x000au16 && x != 0x0012u16
        && x != 0x0015u16 && x != 0x0017u16 && x != 0xff01u16) by (bit_vector);
}

} // verus!
