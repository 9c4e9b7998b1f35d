use pay_dcp::keys::{generate_keypair, keypair_from_secret};

fn hex(s: &str) -> Vec<u8> {
    (0..s.len()).step_by(2).map(|i| u8::from_str_radix(&s[i..i + 2], 16).unwrap()).collect()
}

#[test]
fn keypair_from_rfc8032_secret() {
    let secret: [u8; 32] = hex("9d61b19deffd5a60ba844af492ec2cc44449c5697b326919703bac031cae7f60")
        .try_into()
        .unwrap();
    let public = hex("d75a980182b10ab7d54bfed3c964073a0ee172f3daa62325af021a68f707511a");
    let (keypair, pubkey_b58) = keypair_from_secret(&secret);
    assert_eq!(&keypair[..32], &secret[..]);
    assert_eq!(&keypair[32..], &public[..]);
    assert_eq!(pubkey_b58, bs58::encode(&public).into_string());
}

#[test]
fn generated_keypair_is_consistent() {
    let (keypair, pubkey_b58) = generate_keypair().unwrap();
    assert_eq!(keypair.len(), 64);
    let secret: [u8; 32] = keypair[..32].try_into().unwrap();
    let derived = ed25519_dalek::SigningKey::from_bytes(&secret).verifying_key().to_bytes();
    assert_eq!(&keypair[32..], &derived[..]);
    assert_eq!(pubkey_b58, bs58::encode(&keypair[32..]).into_string());
    let (other, _) = generate_keypair().unwrap();
    assert_ne!(keypair, other);
}

#[test]
fn keypair_layout_is_secret_then_public() {
    let bytes = pay_dcp::keys::assemble_keypair(&[1u8; 32], &[2u8; 32]);
    assert_eq!(bytes.len(), 64);
    assert!(bytes[..32].iter().all(|b| *b == 1));
    assert!(bytes[32..].iter().all(|b| *b == 2));
}
