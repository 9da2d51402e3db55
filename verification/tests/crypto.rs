use std::cmp::Ordering;

use hello_aarch64_wifi_adb::crypto::{generate_x509_certificate, prepare_tls_client};

use openssl::asn1::Asn1Time;
use openssl::bn::BigNum;
use openssl::pkey::PKey;
use openssl::rsa::Rsa;

#[test]
fn certificate_matches_fixed_policy() {
    let rsa = Rsa::generate(2048).unwrap();
    let cert = generate_x509_certificate(&rsa).unwrap();
    let cert = cert.x509();

    // serial number is the fixed constant 2
    let serial = cert.serial_number().to_bn().unwrap();
    assert_eq!(BigNum::from_u32(2).unwrap(), serial);

    // not-before <= now <= not-after
    let now = Asn1Time::days_from_now(0).unwrap();
    assert_ne!(Ordering::Greater, cert.not_before().compare(&now).unwrap());
    assert_ne!(Ordering::Less, cert.not_after().compare(&now).unwrap());

    // the validity window is exactly 3650 days, give or take one second
    let window = cert.not_before().diff(cert.not_after()).unwrap();
    let window_secs = i64::from(window.days) * 86400 + i64::from(window.secs);
    let expected_secs = 3650i64 * 86400;
    assert!(
        (window_secs - expected_secs).abs() <= 1,
        "validity window was {} days {} secs",
        window.days,
        window.secs,
    );

    // self-signed: the signature verifies against the certificate's own key
    let key = PKey::from_rsa(rsa).unwrap();
    assert!(cert.verify(&key).unwrap());

    // extensions: critical basic constraints with CA, critical key usage with
    // the three signing bits, and a subject key identifier
    let text = String::from_utf8(cert.to_text().unwrap()).unwrap();
    assert!(text.contains("Version: 3"), "{}", text);
    assert!(text.contains("X509v3 Basic Constraints: critical"), "{}", text);
    assert!(text.contains("CA:TRUE"), "{}", text);
    assert!(text.contains("X509v3 Key Usage: critical"), "{}", text);
    assert!(text.contains("Certificate Sign"), "{}", text);
    assert!(text.contains("CRL Sign"), "{}", text);
    assert!(text.contains("Digital Signature"), "{}", text);
    assert!(text.contains("X509v3 Subject Key Identifier"), "{}", text);
}

#[test]
fn certificate_is_fresh_each_attempt() {
    let rsa = Rsa::generate(2048).unwrap();
    let a = generate_x509_certificate(&rsa).unwrap();
    let b = generate_x509_certificate(&rsa).unwrap();
    let a = a.x509();
    let b = b.x509();
    // same key, same policy, but two distinct certificates are minted
    let a_der = a.to_der().unwrap();
    let b_der = b.to_der().unwrap();
    assert_eq!(a.serial_number().to_bn().unwrap(), b.serial_number().to_bn().unwrap());
    // signatures over (at least) differing inner validity timestamps may or
    // may not coincide; what matters is that both verify against the key
    let key = PKey::from_rsa(rsa).unwrap();
    assert!(a.verify(&key).unwrap());
    assert!(b.verify(&key).unwrap());
    assert!(!a_der.is_empty() && !b_der.is_empty());
}

#[test]
fn tls_client_setup_succeeds() {
    let rsa = Rsa::generate(2048).unwrap();
    let client = prepare_tls_client(&rsa).unwrap();
    // the handle is ready to be wrapped around a raw stream as the client side
    drop(client.into_ssl());
}
