//! Reading an engine result through the Answer accessors.

use unbound::answer::Answer;

fn base_answer() -> Answer {
    Answer {
        qname: String::from("example.com"),
        qtype: 28,
        qclass: 1,
        data: vec![vec![1, 2], vec![3], vec![]],
        canonname: Some(String::from("canon.example.com")),
        rcode: 0,
        answer_packet: Some(vec![9, 9]),
        havedata: true,
        nxdomain: false,
        secure: true,
        bogus: false,
        why_bogus: None,
        ttl: 3600,
    }
}

#[test]
fn accessors_read_the_fields() {
    let a = base_answer();
    assert_eq!(a.qname(), "example.com");
    assert_eq!(a.qtype(), 28);
    assert_eq!(a.qclass(), 1);
    assert_eq!(a.canonname(), Some("canon.example.com"));
    assert_eq!(a.rcode(), 0);
    assert_eq!(a.answer(), Some(&[9u8, 9u8][..]));
    assert!(a.havedata());
    assert!(!a.nxdomain());
    assert!(a.secure());
    assert!(!a.bogus());
    assert_eq!(a.ttl(), 3600);
}

#[test]
fn absent_parts_read_as_none() {
    let mut a = base_answer();
    a.canonname = None;
    a.answer_packet = None;
    assert_eq!(a.canonname(), None);
    assert_eq!(a.answer(), None);
}

/// The explanation accompanies exactly the bogus results.
#[test]
fn why_bogus_follows_bogus() {
    let mut a = base_answer();
    assert_eq!(a.why_bogus(), None);

    a.bogus = true;
    a.why_bogus = Some(String::from("signature expired"));
    assert_eq!(a.why_bogus(), Some("signature expired"));
}

/// The data iterator walks every record data in order, then stays exhausted.
#[test]
fn data_iterates_in_order() {
    let a = base_answer();
    let mut iter = a.data();
    assert_eq!(iter.next(), Some(&[1u8, 2u8][..]));
    assert_eq!(iter.next(), Some(&[3u8][..]));
    assert_eq!(iter.next(), Some(&[][..]));
    assert_eq!(iter.next(), None);
    assert_eq!(iter.next(), None);
}

#[test]
fn empty_data_iterates_nothing() {
    let mut a = base_answer();
    a.data = vec![];
    let mut iter = a.data();
    assert_eq!(iter.next(), None);
}

/// Mapping an engine return code to the common result type.
#[test]
fn check_code_maps_zero_to_ok() {
    assert!(unbound::check_code(0).is_ok());
    assert_eq!(unbound::check_code(-1).unwrap_err(), unbound::Error::UB(-1));
    assert_eq!(unbound::check_code(8).unwrap_err(), unbound::Error::UB(8));
}

/// The exact bytes a textual argument crosses the boundary as.
#[test]
fn name_to_c_bytes_appends_terminator() {
    assert_eq!(unbound::name_to_c_bytes("abc").unwrap(), b"abc\0".to_vec());
    assert_eq!(unbound::name_to_c_bytes("").unwrap(), b"\0".to_vec());
    assert_eq!(
        unbound::name_to_c_bytes("a\0b").unwrap_err(),
        unbound::Error::NullByte
    );
}
