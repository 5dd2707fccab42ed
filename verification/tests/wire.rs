use any_dns::wire::{set_transaction_id, transaction_id};

#[test]
fn reads_identifier_big_endian() {
    assert_eq!(transaction_id(&vec![0x12, 0x34, 0xff, 0x00]), Some(0x1234));
    assert_eq!(transaction_id(&vec![0x00, 0x01]), Some(1));
    assert_eq!(transaction_id(&vec![0x01, 0x00]), Some(256));
    assert_eq!(transaction_id(&vec![0xff, 0xff, 7]), Some(0xffff));
    assert_eq!(transaction_id(&vec![0xbe, 0xef]), Some(0xbeef));
}

#[test]
fn identifier_needs_two_bytes() {
    assert_eq!(transaction_id(&vec![]), None);
    assert_eq!(transaction_id(&vec![0x12]), None);
}

#[test]
fn identifier_of_a_datagram_that_is_no_dns_message() {
    // Three bytes are no DNS header, and still start with an identifier.
    assert_eq!(transaction_id(&vec![0xab, 0xcd, 0x00]), Some(0xabcd));
}

#[test]
fn writes_identifier_big_endian_and_keeps_the_rest() {
    let mut datagram = vec![0x12, 0x34, 1, 2, 3];
    assert!(set_transaction_id(&mut datagram, 0x0001));
    assert_eq!(datagram, vec![0x00, 0x01, 1, 2, 3]);
    assert!(set_transaction_id(&mut datagram, 0xabcd));
    assert_eq!(datagram, vec![0xab, 0xcd, 1, 2, 3]);
    assert!(set_transaction_id(&mut datagram, 0xff00));
    assert_eq!(datagram, vec![0xff, 0x00, 1, 2, 3]);
}

#[test]
fn short_datagram_is_left_alone() {
    let mut one = vec![0x12];
    assert!(!set_transaction_id(&mut one, 0xabcd));
    assert_eq!(one, vec![0x12]);
    let mut none: Vec<u8> = vec![];
    assert!(!set_transaction_id(&mut none, 0xabcd));
    assert!(none.is_empty());
}

#[test]
fn written_identifier_reads_back() {
    for id in [0u16, 1, 255, 256, 0x1234, 0x7fff, 0x8000, 0xfffe, 0xffff] {
        let mut datagram = vec![9, 9, 9, 9];
        assert!(set_transaction_id(&mut datagram, id));
        assert_eq!(transaction_id(&datagram), Some(id));
        assert_eq!(&datagram[2..], &[9, 9]);
    }
}

#[test]
fn writing_the_own_identifier_changes_nothing() {
    let mut datagram = vec![0x43, 0x21, 5, 6];
    let id = transaction_id(&datagram).unwrap();
    assert!(set_transaction_id(&mut datagram, id));
    assert_eq!(datagram, vec![0x43, 0x21, 5, 6]);
}
