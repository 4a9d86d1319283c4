pub mod identity;
pub mod pairing;
pub mod trust_store;
pub mod tofu;

pub use identity::{CertFingerprint, DeviceIdentity};
pub use pairing::PairingManager;
pub use trust_store::TrustStore;
