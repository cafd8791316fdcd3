use aufloes::doh::{
    check_endpoint, check_status, finish_exchange, is_success_status, prepare_query,
    restore_answer, scheme_is_https, EndpointError,
};
use aufloes::error::UpstreamError;

// Query: ID 0xabcd, RD set, one question: www.example.com A IN.
fn a_query() -> Vec<u8> {
    let mut m = vec![0xab, 0xcd, 0x01, 0x00, 0x00, 0x01, 0x00, 0x00, 0x00, 0x00, 0x00, 0x00];
    m.extend_from_slice(b"\x03www\x07example\x03com\x00");
    m.extend_from_slice(&[0x00, 0x01, 0x00, 0x01]);
    m
}

// The upstream's answer to the zero-ID query: one A record.
fn a_answer() -> Vec<u8> {
    let mut m = vec![0x00, 0x00, 0x81, 0x80, 0x00, 0x01, 0x00, 0x01, 0x00, 0x00, 0x00, 0x00];
    m.extend_from_slice(b"\x03www\x07example\x03com\x00");
    m.extend_from_slice(&[0x00, 0x01, 0x00, 0x01]);
    m.extend_from_slice(&[0xc0, 0x0c, 0x00, 0x01, 0x00, 0x01, 0x00, 0x00, 0x0e, 0x10]);
    m.extend_from_slice(&[0x00, 0x04, 93, 184, 215, 14]);
    m
}

#[test]
fn basic_forward_restores_the_id() {
    let mut query = a_query();
    let txid = prepare_query(&mut query).unwrap();
    assert_eq!(txid, 0xabcd);
    assert_eq!(&query[0..2], &[0, 0]);
    assert_eq!(&query[2..], &a_query()[2..]);

    let reply = finish_exchange(200, a_answer(), txid).unwrap();
    assert_eq!(&reply[0..2], &[0xab, 0xcd]);
    let answer_count = u16::from_be_bytes([reply[6], reply[7]]);
    assert_eq!(answer_count, 1);
    assert_eq!(&reply[2..], &a_answer()[2..]);
}

#[test]
fn upstream_rejection_is_an_error() {
    assert_eq!(
        finish_exchange(500, a_answer(), 0xabcd),
        Err(UpstreamError::Rejected { status: 500 })
    );
    assert_eq!(check_status(404), Err(UpstreamError::Rejected { status: 404 }));
    assert_eq!(check_status(301), Err(UpstreamError::Rejected { status: 301 }));
}

#[test]
fn success_statuses_are_2xx() {
    assert!(is_success_status(200));
    assert!(is_success_status(204));
    assert!(is_success_status(299));
    assert!(!is_success_status(199));
    assert!(!is_success_status(300));
    assert_eq!(check_status(200), Ok(()));
}

#[test]
fn short_messages_are_refused() {
    let mut q = vec![0x01];
    assert_eq!(prepare_query(&mut q), Err(UpstreamError::Malformed));
    assert_eq!(q, vec![0x01]);
    assert_eq!(restore_answer(vec![7], 1), Err(UpstreamError::Malformed));
    assert_eq!(finish_exchange(200, vec![], 1), Err(UpstreamError::Malformed));
}

#[test]
fn endpoint_must_be_https_with_host() {
    assert!(scheme_is_https("https"));
    assert!(!scheme_is_https("http"));
    assert!(!scheme_is_https("HTTPS"));
    assert!(!scheme_is_https("httpss"));
    assert_eq!(check_endpoint("https", Some("dns.example.net")), Ok(()));
    assert_eq!(check_endpoint("http", Some("dns.example.net")), Err(EndpointError::NotHttps));
    assert_eq!(check_endpoint("https", None), Err(EndpointError::MissingHost));
    assert_eq!(check_endpoint("ftp", None), Err(EndpointError::NotHttps));
}

#[test]
fn error_messages_are_distinct() {
    assert_eq!(UpstreamError::Timeout.message(), "timeout receiving response");
    assert_ne!(UpstreamError::Timeout.message(), UpstreamError::ReceiveFailed.message());
}
