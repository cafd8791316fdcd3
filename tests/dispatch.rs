use aufloes::proto::{txid_from_binary_message, write_txid};
use aufloes::resolver::{downstream_reply, downstream_txid, RequestCounter};

#[test]
fn counter_counts_from_zero() {
    let mut c = RequestCounter::new();
    assert_eq!(c.next_id(), 0);
    assert_eq!(c.next_id(), 1);
    assert_eq!(c.next_id(), 2);
}

#[test]
fn reply_carries_the_downstream_id() {
    let query = vec![0x43, 0x21, 1, 0];
    let txid = downstream_txid(&query).unwrap();
    assert_eq!(txid, 0x4321);
    // Upstream saw the query with ID zero and answered with ID zero.
    let mut upstream = query.clone();
    write_txid(&mut upstream, 0);
    assert_eq!(&upstream[0..2], &[0, 0]);
    let answer = vec![0, 0, 0x81, 0x80, 5];
    let reply = downstream_reply(answer, txid).unwrap();
    assert_eq!(reply, vec![0x43, 0x21, 0x81, 0x80, 5]);
}

#[test]
fn concurrent_replies_are_not_crossed() {
    let q1 = vec![0x00, 0x01, 9];
    let q2 = vec![0x00, 0x02, 9];
    let t1 = downstream_txid(&q1).unwrap();
    let t2 = downstream_txid(&q2).unwrap();
    // Answers come back in the other order, with the client's own wire IDs.
    let a2 = vec![0x77, 0x10, 2];
    let a1 = vec![0x99, 0x20, 1];
    let r2 = downstream_reply(a2, t2).unwrap();
    let r1 = downstream_reply(a1, t1).unwrap();
    assert_eq!(txid_from_binary_message(&r1), 1);
    assert_eq!(txid_from_binary_message(&r2), 2);
    assert_eq!(r1[2], 1);
    assert_eq!(r2[2], 2);
}

#[test]
fn short_datagrams_get_no_reply() {
    assert_eq!(downstream_txid(&[1]), None);
    assert_eq!(downstream_reply(vec![1], 5), None);
}
