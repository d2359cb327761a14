//! Models for building and rendering peer-to-peer VPN tunnel configuration:
//! key material (private/public/preshared keys with base64 text form),
//! interface and peer records, the conversion between the two views,
//! obfuscation-parameter validation, and deterministic rendering into the
//! line-oriented config syntax.

pub mod amnezia;
pub mod b64;
pub mod builders;
pub mod error;
pub mod export;
pub mod interface;
pub mod keys;
pub mod net;
pub mod peer;
pub mod text;

pub use amnezia::AmneziaSettings;
pub use builders::InterfaceBuilder;
pub use builders::PeerBuilder;
pub use error::WireguardError;
pub use error::WireguardResult;
pub use export::ExportConfig;
pub use interface::Interface;
pub use keys::Key;
pub use keys::PresharedKey;
pub use keys::PrivateKey;
pub use keys::PublicKey;
pub use net::Ipv4Net;
pub use peer::Peer;
