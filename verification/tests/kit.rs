use vvclient::kit::astr::AStr;
use vvclient::glue::demo::{event_for, Event};
use vvclient::kit::certs::{bytes_eq, cert_verdict, pem_to_der, CertBytes, CertError, CertVerdict, EmbedCert};
use vvclient::proto::error::ErrorCode;

#[test]
fn cert_encodings_by_extension() {
    let c = CertBytes {
        key_bytes: vec![1],
        key_ext: Some("der".to_string()),
        cert_bytes: vec![2],
        cert_ext: Some("pem".to_string()),
    };
    assert!(c.key_is_der());
    assert!(!c.cert_is_der());
    let d = CertBytes { key_bytes: vec![], key_ext: None, cert_bytes: vec![], cert_ext: Some("DER".to_string()) };
    assert!(!d.key_is_der());
    assert!(!d.cert_is_der());
}

#[test]
fn pem_bundles() {
    // "AQID" is base64 for the bytes 1, 2, 3
    let pem = b"-----BEGIN CERTIFICATE-----\nAQID\n-----END CERTIFICATE-----\n-----BEGIN CERTIFICATE-----\nBAU=\n-----END CERTIFICATE-----\n";
    assert_eq!(pem_to_der(pem).unwrap(), vec![vec![1u8, 2, 3], vec![4u8, 5]]);
    assert_eq!(pem_to_der(b"no pem here").unwrap(), Vec::<Vec<u8>>::new());
    let bad = b"-----BEGIN CERTIFICATE-----\n!!!!\n-----END CERTIFICATE-----\n";
    assert_eq!(pem_to_der(bad), Err(CertError::PemToDer));
}

#[test]
fn cert_verdicts() {
    let extra = vec![vec![9u8, 9], vec![1u8, 2, 3]];
    assert_eq!(cert_verdict(&[1, 2, 3], &extra, true), CertVerdict::Trusted);
    assert_eq!(cert_verdict(&[1, 2], &extra, true), CertVerdict::Delegate);
    assert_eq!(cert_verdict(&[1, 2], &extra, false), CertVerdict::Accept);
    assert!(bytes_eq(&[], &[]));
    assert!(!bytes_eq(&[1], &[2]));
}

#[test]
fn error_codes() {
    assert_eq!(ErrorCode::Success.value(), 0);
    assert_eq!(ErrorCode::InternalError.value(), 881001);
    assert_eq!(ErrorCode::RoomEnded.value(), 881607);
    assert_eq!(ErrorCode::from_value(881606), Some(ErrorCode::ReconnSession));
    assert_eq!(ErrorCode::from_value(1001), None);
    assert_eq!(ErrorCode::ReconnSession.description(), "ReconnectSession");
    assert_eq!(ErrorCode::SystemBusy.description(), "System is busy");
    assert_eq!(ErrorCode::MySQLError.name(), "MySQLError");
    let s = ErrorCode::DupUser.into_status();
    assert_eq!((s.code, s.reason.as_str()), (881601, "DupUser"));
    let s = ErrorCode::InvalidToken.to_status("bad token".to_string());
    assert_eq!((s.code, s.reason.as_str()), (881108, "bad token"));
    assert_eq!(i32::from(ErrorCode::KafkaError), 881229);
}

#[test]
fn demo_events_alternate() {
    assert_eq!(event_for(1), Event::Even1("1".to_string()));
    assert_eq!(event_for(2), Event::User { name: "user2".to_string() });
    assert_eq!(event_for(105), Event::Even1("105".to_string()));
}

#[test]
fn astr_keeps_its_characters() {
    let a = AStr::from("room-1".to_string());
    assert_eq!(a.as_str(), "room-1");
    let b = a.clone();
    assert_eq!(b.as_str(), a.as_str());
}

#[test]
fn embedded_cert_bytes_are_copied() {
    let e = EmbedCert { key_bytes: b"key", cert_bytes: b"not a pem" };
    let b = e.to_bytes();
    assert_eq!(b.key_bytes, b"key".to_vec());
    assert_eq!(b.cert_bytes, b"not a pem".to_vec());
    assert!(b.key_ext.is_none() && b.cert_ext.is_none());
    assert_eq!(e.cert_der().unwrap(), Vec::<Vec<u8>>::new());
}
