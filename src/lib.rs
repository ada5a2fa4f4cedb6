//! MuSig2 multi-signatures over secp256k1, with adaptor signatures.
//!
//! Key aggregation, nonce generation and aggregation, session derivation,
//! partial signing and verification, signature aggregation and the adaptor
//! operations are written here and verified; curve arithmetic and SHA-256
//! come from the `secp256k1` crate.

pub mod scalar;
pub mod errors;
pub mod hash;
pub mod point;
pub mod keyagg;
pub mod nonce;
pub mod session;

pub use errors::{MusigNonceGenError, MusigSignError, MusigTweakErr, ParseError};
pub use keyagg::MusigKeyAggCache;
pub use nonce::{new_musig_nonce_pair, MusigAggNonce, MusigPubNonce, MusigSecNonce};
pub use point::{PublicKey, XOnlyPublicKey};
pub use scalar::{SecretKey, Tweak};
pub use session::{adapt, extract_adaptor, MusigPartialSignature, MusigSession, Parity};
