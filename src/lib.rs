//! ClientHello building blocks: GREASE values, standard extensions built as
//! generic type-plus-payload records, and a hook that rewrites the cipher-suite
//! and extension lists before they are sent.
pub mod grease;
pub mod ids;
pub mod extension;
pub mod hello_override;

pub use extension::{ClientExtension, CompressCertificateOptions, Payload, UnknownExtension};
pub use grease::{fixed_grease_value, grease_value, grease_value_from_draw, SecureRandom};
pub use hello_override::ClientHelloOverride;
pub use ids::{CipherSuite, ExtensionType, NamedGroup, ProtocolVersion};
