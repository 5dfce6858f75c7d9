//! Sigma protocols compiled into non-interactive proofs by the Fiat-Shamir
//! transformation over a duplex sponge.
//!
//! - `group`: the prime-order groups proofs are built over, their elements and
//!   scalars, and the serialization of prover messages.
//! - `duplex_sponge`: the sponges that absorb messages and are squeezed for
//!   challenges.
//! - `codec`: domain-separated codecs that derive challenges.
//! - `rng`: sampling scalars from random bytes.
//! - `traits`: the interface of interactive Sigma protocols.
//! - `schnorr`: the Schnorr proof of knowledge of a discrete logarithm.
//! - `linear_relation`: linear relations between group elements.
//! - `spec_compat`: relations built term by term, without simplification.
//! - `fiat_shamir`: the non-interactive proof system `Nizk`.

pub mod codec;
pub mod duplex_sponge;
pub mod errors;
pub mod fiat_shamir;
pub mod group;
pub mod linear_relation;
pub mod rng;
pub mod schnorr;
pub mod spec_compat;
pub mod traits;

pub use codec::{ByteSchnorrCodec, Codec, Shake128DuplexSponge};
pub use duplex_sponge::{DuplexSpongeInterface, ShakeDuplexSponge};
pub use errors::Error;
pub use fiat_shamir::Nizk;
pub use schnorr::Schnorr;
pub use traits::{SigmaProtocol, SigmaProtocolSimulator, Transcript};
