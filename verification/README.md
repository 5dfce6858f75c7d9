# sigma_proofs

Sigma protocols made non-interactive with the Fiat-Shamir transformation over a
duplex sponge, written in Verus.

- `src/group/`: the `PrimeGroup` description of a prime-order group (P-256 and
  BLS12-381 G1 instances), the `GroupElement` and `Scalar` message types, and
  `serialization`: how lists of prover messages are written to and read from a
  proof string.
- `src/duplex_sponge.rs`: the `DuplexSpongeInterface` and a SHAKE128 sponge.
- `src/codec.rs`: the `Codec` trait and `ByteSchnorrCodec`, which derives the
  session identifier and the challenges.
- `src/rng.rs`: sampling scalars from `ceil(bits / 8) + 16` uniform bytes.
- `src/traits.rs`: `SigmaProtocol` and `SigmaProtocolSimulator`.
- `src/schnorr.rs`: the Schnorr proof of knowledge of a discrete logarithm.
- `src/linear_relation.rs`, `src/spec_compat.rs`: linear relations and their
  canonical form, built term by term.
- `src/fiat_shamir.rs`: `Nizk`, with batchable and compact proofs, and lemmas
  relating what the provers write to what the verifiers accept: a proof built
  from a commitment and a response is accepted exactly when the protocol
  accepts that transcript, and the two proof forms share their response.
- `src/schnorr.rs` also proves that honest Schnorr proofs verify, under stated
  hypotheses on the group's points (`schnorr_group_laws`): point arithmetic is
  computed outside Verus and only named, so its algebraic laws are assumed by
  these lemmas, not proved.

The group arithmetic, the encodings and SHAKE128 are computed by the `p256`,
`bls12_381`, `spongefish` and `sha3` crates behind small trusted wrappers, each
documented where it stands. Scalars are described exactly, as big-endian
integers reduced modulo the group order (`src/group/big_endian.rs`); points
and SHAKE128 outputs are named. Everything else is verified.
