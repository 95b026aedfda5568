//! BLS signatures over a pairing-friendly curve, with a side-channel
//! protected split representation of the secret key.
//!
//! The algebraic engine (field and group arithmetic, hash-to-curve,
//! pairing evaluation, canonical point encodings) is an external
//! collaborator; the signing protocol, key lifecycle, wire codec and
//! verification logic on top of it are verified here.

pub mod codec;
pub mod engine;
pub mod errors;
pub mod keys;
pub mod messages;
pub mod points;
pub mod rng;
pub mod scalars;
pub mod sig;
pub mod signed;
pub mod vrf;

pub use engine::{CurvePoint, EngineBLS, TinyBLS, UsualBLS, ZBLS};
pub use errors::GroupDecodingError;
pub use keys::{SecretKey, SecretKeyVT};
pub use messages::Message;
pub use scalars::Fr;
pub use sig::{PublicKey, Signature};
pub use signed::{Keypair, KeypairVT, SignedMessage};
