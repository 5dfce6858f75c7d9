use sha3::digest::{ExtendableOutput, Update, XofReader};

use sigma_proofs::codec::{ByteSchnorrCodec, Codec, Shake128DuplexSponge};
use sigma_proofs::group::serialization::NargMessage;
use sigma_proofs::group::P256;
use sigma_proofs::{DuplexSpongeInterface, ShakeDuplexSponge};

fn shake128(input: &[u8], len: usize) -> Vec<u8> {
    let mut hasher = sha3::Shake128::default();
    hasher.update(input);
    let mut out = vec![0u8; len];
    hasher.finalize_xof().read(&mut out);
    out
}

fn block(iv: &[u8; 64]) -> Vec<u8> {
    let mut b = iv.to_vec();
    b.resize(168, 0);
    b
}

fn iv_from(prefix: &[u8]) -> [u8; 64] {
    let mut iv = [0u8; 64];
    iv[..prefix.len()].copy_from_slice(prefix);
    iv
}

#[test]
fn shake_sponge_squeezes_shake128_of_padded_iv_and_input() {
    let iv = iv_from(b"an initialization vector");
    let mut sponge = ShakeDuplexSponge::new(iv);
    sponge.absorb(b"hello ");
    sponge.absorb(b"world");
    let out = sponge.squeeze(100);
    let mut input = block(&iv);
    input.extend_from_slice(b"hello world");
    assert_eq!(out, shake128(&input, 100));
}

#[test]
fn shake_sponge_squeeze_restarts_from_the_absorbed_input() {
    let mut sponge = ShakeDuplexSponge::new(iv_from(b"iv"));
    sponge.absorb(b"data");
    let first = sponge.squeeze(16);
    let second = sponge.squeeze(32);
    assert_eq!(first[..], second[..16]);
    assert_eq!(sponge.squeeze(0), Vec::<u8>::new());
}

#[test]
fn shake_sponge_absorb_is_concatenation() {
    let mut one = ShakeDuplexSponge::new(iv_from(b"iv"));
    one.absorb(b"ab");
    one.absorb(b"cd");
    let mut two = ShakeDuplexSponge::new(iv_from(b"iv"));
    two.absorb(b"abcd");
    assert_eq!(one.squeeze(40), two.squeeze(40));
}

fn expected_challenge(pid: &[u8; 64], session: &[u8], label: &[u8], message: &[u8]) -> Vec<u8> {
    let session_iv = iv_from(b"fiat-shamir/session-id");
    let mut session_input = block(&session_iv);
    session_input.extend_from_slice(session);
    let mut session_id = vec![0u8; 32];
    session_id.extend_from_slice(&shake128(&session_input, 32));

    let mut input = block(pid);
    input.extend_from_slice(&session_id);
    input.extend_from_slice(label);
    input.extend_from_slice(message);
    let uniform = shake128(&input, 48);

    let mut repr = <p256::Scalar as spongefish::Decoding<[u8]>>::Repr::default();
    repr.as_mut()[16..].copy_from_slice(&uniform);
    let challenge = <p256::Scalar as spongefish::Decoding<[u8]>>::decode(repr);
    let mut out = Vec::new();
    spongefish::NargSerialize::serialize_into_narg(&challenge, &mut out);
    out
}

#[test]
fn codec_challenge_follows_the_session_and_sponge_construction() {
    let pid = iv_from(b"protocol");
    let mut codec = Shake128DuplexSponge::<P256>::new(&pid, b"session", b"label");
    codec.prover_message(b"commitment bytes");
    let challenge = codec.verifier_challenge();
    assert_eq!(
        challenge.to_narg_bytes(),
        expected_challenge(&pid, b"session", b"label", b"commitment bytes")
    );
}

#[test]
fn codec_is_deterministic() {
    let pid = iv_from(b"protocol");
    let run = |session: &[u8], message: &[u8]| {
        let mut codec = ByteSchnorrCodec::<P256, ShakeDuplexSponge>::new(&pid, session, b"label");
        codec.prover_message(message);
        codec.verifier_challenge().to_narg_bytes()
    };
    assert_eq!(run(b"s", b"m"), run(b"s", b"m"));
    assert_ne!(run(b"s", b"m"), run(b"t", b"m"));
    assert_ne!(run(b"s", b"m"), run(b"s", b"n"));
}

#[test]
fn codec_prover_messages_concatenate() {
    let pid = iv_from(b"protocol");
    let mut one = Shake128DuplexSponge::<P256>::new(&pid, b"s", b"l");
    one.prover_message(b"ab");
    one.prover_message(b"cd");
    let mut two = Shake128DuplexSponge::<P256>::new(&pid, b"s", b"l");
    two.prover_message(b"abcd");
    assert!(one.verifier_challenge().narg_eq(&two.verifier_challenge()));
}
