use sindri::gcm::{
    aes128gcm_decrypt, aes128gcm_encrypt, aes256gcm_decrypt, aes256gcm_encrypt, decrypt, encrypt,
    CipherSuite,
};
use sindri::jobs::ErrorKind;
use sindri::limits::GCM_TAG_SIZE;

const KEY128: &[u8; 16] = b"Open sesame! ...";
const KEY256: &[u8; 32] = b"Or was it 'open quinoa' instead?";
const NONCE: &[u8; 12] = &[1, 2, 3, 4, 5, 6, 7, 8, 9, 10, 11, 12];
const PLAINTEXT: &[u8] = b"Hello, World!";
const AAD: &[u8] = b"Never gonna give you up, Never gonna let you down!";

const CT128_NO_AAD: [u8; 29] = [
    // ciphertext
    0xbb, 0xfe, 0x08, 0x2b, 0x97, 0x86, 0xd4, 0xe4, 0xa4, 0xec, 0x19, 0xdb, 0x63,
    // tag
    0x40, 0xce, 0x93, 0x5a, 0x71, 0x5e, 0x63, 0x09, 0x0b, 0x11, 0xad, 0x51, 0x4d, 0xe8, 0x23,
    0x50,
];

const CT256_NO_AAD: [u8; 29] = [
    // ciphertext
    0xab, 0xe2, 0x9e, 0x5a, 0x8d, 0xd3, 0xbd, 0x62, 0xc9, 0x46, 0x71, 0x8e, 0x50,
    // tag
    0xa8, 0xcb, 0x47, 0x81, 0xad, 0x51, 0x89, 0x1f, 0x23, 0x78, 0x11, 0xcb, 0x9f, 0xc5, 0xbf,
    0x8b,
];

const CT128_WITH_AAD: [u8; 29] = [
    // ciphertext
    0xbb, 0xfe, 0x08, 0x2b, 0x97, 0x86, 0xd4, 0xe4, 0xa4, 0xec, 0x19, 0xdb, 0x63,
    // tag
    0x15, 0x6d, 0x9e, 0xd9, 0x50, 0x1d, 0x7a, 0x51, 0x77, 0x44, 0x98, 0x97, 0x7d, 0x54, 0x1c,
    0x19,
];

const CT256_WITH_AAD: [u8; 29] = [
    // ciphertext
    0xab, 0xe2, 0x9e, 0x5a, 0x8d, 0xd3, 0xbd, 0x62, 0xc9, 0x46, 0x71, 0x8e, 0x50,
    // tag
    0xc2, 0xb4, 0x2e, 0x65, 0x8f, 0xa9, 0xfc, 0xc4, 0x2d, 0xaf, 0x8e, 0x22, 0xd3, 0xc5, 0x8b,
    0x6c,
];

#[test]
fn test_aes128gcm_no_aad_encrypt_decrypt() {
    let encrypted = aes128gcm_encrypt(KEY128, NONCE, &[], PLAINTEXT).expect("encryption error");
    let decrypted =
        aes128gcm_decrypt(KEY128, NONCE, &[], &encrypted).expect("decryption error");
    assert_eq!(encrypted.as_slice(), &CT128_NO_AAD[..], "ciphertext mismatch");
    assert_eq!(decrypted.as_slice(), PLAINTEXT, "plaintext mismatch");
}

#[test]
fn test_aes256gcm_no_aad_encrypt_decrypt() {
    let encrypted = aes256gcm_encrypt(KEY256, NONCE, &[], PLAINTEXT).expect("encryption error");
    let decrypted =
        aes256gcm_decrypt(KEY256, NONCE, &[], &encrypted).expect("decryption error");
    assert_eq!(encrypted.as_slice(), &CT256_NO_AAD[..], "ciphertext mismatch");
    assert_eq!(decrypted.as_slice(), PLAINTEXT, "plaintext mismatch");
}

#[test]
fn test_aes128gcm_with_aad_encrypt_decrypt() {
    let encrypted = aes128gcm_encrypt(KEY128, NONCE, AAD, PLAINTEXT).expect("encryption error");
    let decrypted = aes128gcm_decrypt(KEY128, NONCE, AAD, &encrypted).expect("decryption error");
    assert_eq!(encrypted.as_slice(), &CT128_WITH_AAD[..], "ciphertext mismatch");
    assert_eq!(decrypted.as_slice(), PLAINTEXT, "plaintext mismatch");
}

#[test]
fn test_aes256gcm_with_aad_encrypt_decrypt() {
    let encrypted = aes256gcm_encrypt(KEY256, NONCE, AAD, PLAINTEXT).expect("encryption error");
    let decrypted = aes256gcm_decrypt(KEY256, NONCE, AAD, &encrypted).expect("decryption error");
    assert_eq!(encrypted.as_slice(), &CT256_WITH_AAD[..], "ciphertext mismatch");
    assert_eq!(decrypted.as_slice(), PLAINTEXT, "plaintext mismatch");
}

#[test]
fn test_aes128gcm_errors() {
    for size in [0usize, 1, 8, 24, 32, 128] {
        let wrong_key = vec![0u8; size];
        assert_eq!(
            aes128gcm_encrypt(&wrong_key, NONCE, &[], PLAINTEXT),
            Err(ErrorKind::InvalidKeySize)
        );
        let zeros = vec![0u8; PLAINTEXT.len() + GCM_TAG_SIZE];
        assert_eq!(
            aes128gcm_decrypt(&wrong_key, NONCE, &[], &zeros),
            Err(ErrorKind::InvalidKeySize)
        );
    }

    for size in [0usize, 1, 10, 16, 32] {
        let wrong_nonce = vec![0u8; size];
        assert_eq!(
            aes128gcm_encrypt(KEY128, &wrong_nonce, &[], PLAINTEXT),
            Err(ErrorKind::InvalidIvSize)
        );
        let zeros = vec![0u8; PLAINTEXT.len() + GCM_TAG_SIZE];
        assert_eq!(
            aes128gcm_decrypt(KEY128, &wrong_nonce, &[], &zeros),
            Err(ErrorKind::InvalidIvSize)
        );
    }

    for size in [0usize, 1, GCM_TAG_SIZE - 1] {
        let wrong_ciphertext = vec![0u8; size];
        assert_eq!(
            aes128gcm_decrypt(KEY128, NONCE, &[], &wrong_ciphertext),
            Err(ErrorKind::InvalidBufferSize)
        );
    }

    let mut corrupted_ciphertext =
        aes128gcm_encrypt(KEY128, NONCE, &[], PLAINTEXT).expect("encryption error");
    corrupted_ciphertext[0] += 1;
    assert_eq!(
        aes128gcm_decrypt(KEY128, NONCE, &[], &corrupted_ciphertext),
        Err(ErrorKind::DecryptionFailed)
    );
}

#[test]
fn test_aes256gcm_errors() {
    for size in [0usize, 1, 8, 16, 24, 256] {
        let wrong_key = vec![0u8; size];
        assert_eq!(
            aes256gcm_encrypt(&wrong_key, NONCE, &[], PLAINTEXT),
            Err(ErrorKind::InvalidKeySize)
        );
        let zeros = vec![0u8; PLAINTEXT.len() + GCM_TAG_SIZE];
        assert_eq!(
            aes256gcm_decrypt(&wrong_key, NONCE, &[], &zeros),
            Err(ErrorKind::InvalidKeySize)
        );
    }

    for size in [0usize, 1, 10, 16, 32] {
        let wrong_nonce = vec![0u8; size];
        assert_eq!(
            aes256gcm_encrypt(KEY256, &wrong_nonce, &[], PLAINTEXT),
            Err(ErrorKind::InvalidIvSize)
        );
        let zeros = vec![0u8; PLAINTEXT.len() + GCM_TAG_SIZE];
        assert_eq!(
            aes256gcm_decrypt(KEY256, &wrong_nonce, &[], &zeros),
            Err(ErrorKind::InvalidIvSize)
        );
    }

    for size in [0usize, 1, GCM_TAG_SIZE - 1] {
        let wrong_ciphertext = vec![0u8; size];
        assert_eq!(
            aes256gcm_decrypt(KEY256, NONCE, &[], &wrong_ciphertext),
            Err(ErrorKind::InvalidBufferSize)
        );
    }

    let mut corrupted_ciphertext =
        aes256gcm_encrypt(KEY256, NONCE, &[], PLAINTEXT).expect("encryption error");
    corrupted_ciphertext[0] += 1;
    assert_eq!(
        aes256gcm_decrypt(KEY256, NONCE, &[], &corrupted_ciphertext),
        Err(ErrorKind::DecryptionFailed)
    );
}

#[test]
fn test_flip_any_single_byte_fails_decryption() {
    let encrypted = aes128gcm_encrypt(KEY128, NONCE, AAD, PLAINTEXT).expect("encryption error");
    for i in 0..encrypted.len() {
        for flip_bit in 0..8u8 {
            let mut tampered = encrypted.clone();
            tampered[i] ^= 1 << flip_bit;
            assert_eq!(
                aes128gcm_decrypt(KEY128, NONCE, AAD, &tampered),
                Err(ErrorKind::DecryptionFailed),
                "tampered byte {} accepted",
                i
            );
        }
    }
}

#[test]
fn test_empty_plaintext_and_empty_aad_round_trip() {
    let encrypted = aes128gcm_encrypt(KEY128, NONCE, &[], &[]).expect("encryption error");
    assert_eq!(encrypted.len(), GCM_TAG_SIZE);
    let decrypted =
        aes128gcm_decrypt(KEY128, NONCE, &[], &encrypted).expect("decryption error");
    assert!(decrypted.is_empty());
}

#[test]
fn test_suite_selection_is_exact() {
    // A 32-byte key is not a valid AES-128 key, nor a 16-byte key a valid
    // AES-256 key: each suite demands its exact key size.
    assert_eq!(
        encrypt(CipherSuite::Aes128Gcm, KEY256, NONCE, &[], PLAINTEXT),
        Err(ErrorKind::InvalidKeySize)
    );
    assert_eq!(
        encrypt(CipherSuite::Aes256Gcm, KEY128, NONCE, &[], PLAINTEXT),
        Err(ErrorKind::InvalidKeySize)
    );
    let zeros = vec![0u8; GCM_TAG_SIZE];
    assert_eq!(
        decrypt(CipherSuite::Aes128Gcm, KEY256, NONCE, &[], &zeros),
        Err(ErrorKind::InvalidKeySize)
    );
    assert_eq!(
        decrypt(CipherSuite::Aes256Gcm, KEY128, NONCE, &[], &zeros),
        Err(ErrorKind::InvalidKeySize)
    );
}
