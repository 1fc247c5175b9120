use filecrypt::cipher::{Crypto, CryptoError};
use filecrypt::job::{
    failure_message, round_trip, round_trip_across_equivalent_passwords, run_cipher,
    success_message, Direction, JobRunner,
};
use filecrypt::keys::derive_key_nonce;
use filecrypt::paths::{has_encrypted_suffix, output_path};

use chacha20poly1305::aead::Aead;
use chacha20poly1305::{KeyInit, XChaCha20Poly1305};

#[test]
fn derive_pads_short_password() {
    let (key, nonce) = derive_key_nonce(b"abc");
    let mut expected_key = vec![97u8, 98, 99];
    expected_key.resize(32, 0);
    let mut expected_nonce = vec![97u8, 98, 99];
    expected_nonce.resize(24, 0);
    assert_eq!(key, expected_key);
    assert_eq!(nonce, expected_nonce);
}

#[test]
fn derive_is_deterministic() {
    let (k1, n1) = derive_key_nonce(b"kata sandi");
    let (k2, n2) = derive_key_nonce(b"kata sandi");
    assert_eq!(k1, k2);
    assert_eq!(n1, n2);
}

#[test]
fn derive_truncates_long_password() {
    let long: Vec<u8> = (1u8..=40).collect();
    let (key, nonce) = derive_key_nonce(&long);
    assert_eq!(key, long[..32].to_vec());
    assert_eq!(nonce, long[..24].to_vec());
}

#[test]
fn derive_of_empty_password_is_all_zero() {
    let (key, nonce) = derive_key_nonce(b"");
    assert_eq!(key, vec![0u8; 32]);
    assert_eq!(nonce, vec![0u8; 24]);
}

#[test]
fn encrypt_then_decrypt_returns_plaintext() {
    let data = b"rahasia besar".to_vec();
    let password = b"kata sandi".as_slice();
    let encrypted = run_cipher(Direction::Encrypt, &data, password).unwrap();
    assert_eq!(encrypted.len(), data.len() + 16);
    assert_ne!(&encrypted[..data.len()], data.as_slice());
    let decrypted = run_cipher(Direction::Decrypt, &encrypted, password).unwrap();
    assert_eq!(decrypted, data);
}

#[test]
fn round_trip_of_empty_buffer() {
    let data = Vec::new();
    let recovered = round_trip(&data, b"pw").unwrap();
    assert_eq!(recovered, data);
}

#[test]
fn round_trip_of_one_block_boundary() {
    let data = vec![7u8; 64];
    let recovered = round_trip(&data, b"boundary").unwrap();
    assert_eq!(recovered, data);
}

#[test]
fn tampering_any_single_bit_fails_authentication() {
    let data = b"pesan".to_vec();
    let password = b"sandi".as_slice();
    let encrypted = run_cipher(Direction::Encrypt, &data, password).unwrap();
    for byte in 0..encrypted.len() {
        for bit in 0..8 {
            let mut tampered = encrypted.clone();
            tampered[byte] ^= 1u8 << bit;
            let r = run_cipher(Direction::Decrypt, &tampered, password);
            assert!(matches!(r, Err(CryptoError::AuthenticationFailed)));
        }
    }
}

#[test]
fn truncated_ciphertext_fails_authentication() {
    let data = b"pesan".to_vec();
    let password = b"sandi".as_slice();
    let mut encrypted = run_cipher(Direction::Encrypt, &data, password).unwrap();
    encrypted.pop();
    let r = run_cipher(Direction::Decrypt, &encrypted, password);
    assert!(matches!(r, Err(CryptoError::AuthenticationFailed)));
}

#[test]
fn wrong_password_fails_authentication() {
    let data = b"pesan".to_vec();
    let encrypted = run_cipher(Direction::Encrypt, &data, b"sandi satu").unwrap();
    let r = run_cipher(Direction::Decrypt, &encrypted, b"sandi dua");
    assert!(matches!(r, Err(CryptoError::AuthenticationFailed)));
}

#[test]
fn passwords_with_equal_derived_material_are_interchangeable() {
    // The degenerate case: zero-padding makes "x" and "x\0" derive the same
    // key and nonce, so either password decrypts what the other encrypted.
    let data = b"pesan".to_vec();
    let encrypted = run_cipher(Direction::Encrypt, &data, b"x").unwrap();
    let decrypted = run_cipher(Direction::Decrypt, &encrypted, b"x\0").unwrap();
    assert_eq!(decrypted, data);

    let recovered = round_trip_across_equivalent_passwords(&data, b"x", b"x\0\0").unwrap();
    assert_eq!(recovered, data);
}

#[test]
fn library_cipher_matches_the_aead_crate() {
    let data = b"bukti silang".to_vec();
    let (key, nonce) = derive_key_nonce(b"sandi");
    let ours = Crypto::encrypt(&data, &key, &nonce).unwrap();

    let key_arr: &chacha20poly1305::Key = key.as_slice().try_into().unwrap();
    let nonce_arr: &chacha20poly1305::XNonce = nonce.as_slice().try_into().unwrap();
    let cipher = XChaCha20Poly1305::new(key_arr);
    let theirs = cipher.encrypt(nonce_arr, data.as_slice()).unwrap();
    assert_eq!(ours, theirs);

    let recovered = Crypto::decrypt(&theirs, &key, &nonce).unwrap();
    assert_eq!(recovered, data);
}

#[test]
fn output_path_encrypt_keeps_the_source_path() {
    assert_eq!(output_path("a.txt", Direction::Encrypt), "a.txt");
    assert_eq!(output_path("a.txt.encrypted", Direction::Encrypt), "a.txt.encrypted");
}

#[test]
fn output_path_decrypt_strips_one_suffix() {
    assert_eq!(output_path("a.txt.encrypted", Direction::Decrypt), "a.txt");
    assert_eq!(
        output_path("a.txt.encrypted.encrypted", Direction::Decrypt),
        "a.txt.encrypted"
    );
}

#[test]
fn output_path_decrypt_without_suffix_overwrites() {
    assert_eq!(output_path("a.txt", Direction::Decrypt), "a.txt");
    assert_eq!(output_path("", Direction::Decrypt), "");
    assert_eq!(output_path(".encrypted", Direction::Decrypt), "");
}

#[test]
fn suffix_detection() {
    assert!(has_encrypted_suffix("a.txt.encrypted"));
    assert!(!has_encrypted_suffix("a.txt"));
    assert!(!has_encrypted_suffix("encrypted"));
    assert!(!has_encrypted_suffix("a.txt.encryptedX"));
}

#[test]
fn runner_reports_processing_until_the_result_arrives() {
    let mut runner = JobRunner::new();
    assert!(!runner.processing());
    assert!(runner.message().is_none());

    let admitted = runner.submit();
    assert!(admitted);
    assert!(runner.processing());

    runner.poll(None);
    assert!(runner.processing());
    assert!(runner.message().is_none());

    runner.poll(Some("selesai".to_string()));
    assert!(!runner.processing());
    assert_eq!(runner.message(), Some("selesai".to_string()));

    runner.poll(None);
    assert!(!runner.processing());
    assert_eq!(runner.message(), Some("selesai".to_string()));
}

#[test]
fn status_line_follows_the_job_state() {
    let mut runner = JobRunner::new();
    assert_eq!(runner.status_line(), "Output: ");
    runner.submit();
    assert_eq!(runner.status_line(), "Proses sedang berlangsung..");
    runner.poll(Some("Dekripsi gagal!".to_string()));
    assert_eq!(runner.status_line(), "Output: Dekripsi gagal!");
}

#[test]
fn runner_rejects_a_second_submit_while_processing() {
    let mut runner = JobRunner::new();
    assert!(runner.submit());
    assert!(!runner.submit());
    assert!(runner.processing());
    runner.poll(Some("selesai".to_string()));
    assert!(runner.submit());
}

#[test]
fn default_direction_is_encrypt() {
    assert_eq!(Direction::default(), Direction::Encrypt);
}

#[test]
fn success_message_carries_the_readable_elapsed_time() {
    let nanos: u64 = 1_500_000_000;
    assert_eq!(
        success_message(Direction::Encrypt, nanos),
        "Enkripsi berhasil dalam waktu 1s 500ms"
    );
    assert_eq!(
        success_message(Direction::Decrypt, nanos),
        "Dekripsi berhasil dalam waktu 1s 500ms"
    );
    let expected = format!(
        "Enkripsi berhasil dalam waktu {}",
        human_duration::human_duration(&std::time::Duration::from_nanos(nanos))
    );
    assert_eq!(success_message(Direction::Encrypt, nanos), expected);
}

#[test]
fn failure_message_is_fixed_per_direction() {
    assert_eq!(failure_message(Direction::Encrypt), "Enkripsi gagal!");
    assert_eq!(failure_message(Direction::Decrypt), "Dekripsi gagal!");
}
