use mcast_scope::ifaddrs::{
    ipv6_groups, names_equal, scope_from_lookup, IfAddr, IfAddrs, LookupFailed, SockAddr,
};

fn v6(bytes: [u8; 16]) -> Option<SockAddr> {
    Some(SockAddr::V6(bytes))
}

fn link_local_one() -> [u8; 16] {
    let mut b = [0u8; 16];
    b[0] = 0xfe;
    b[1] = 0x80;
    b[15] = 1;
    b
}

fn host_snapshot() -> IfAddrs {
    IfAddrs::from_records(vec![
        IfAddr::new(b"lo0".to_vec(), Some(SockAddr::V4([127, 0, 0, 1]))),
        IfAddr::new(b"eth0".to_vec(), Some(SockAddr::Other(17))),
        IfAddr::new(b"eth0".to_vec(), Some(SockAddr::V4([192, 168, 1, 2]))),
        IfAddr::new(b"lo0".to_vec(), v6(link_local_one())),
        IfAddr::new(b"wlan0".to_vec(), None),
        IfAddr::new(b"lo0".to_vec(), v6([0u8; 16])),
    ])
}

#[test]
fn absent_name_is_not_found() {
    let addrs = host_snapshot();
    assert_eq!(addrs.find_ipv6(b"nonexistent0"), None);
    assert_eq!(addrs.find_ipv6(b""), None);
    assert_eq!(addrs.find_ipv6(b"lo"), None);
}

#[test]
fn ipv4_only_name_is_not_found() {
    let addrs = host_snapshot();
    assert_eq!(addrs.find_ipv6(b"eth0"), None);
}

#[test]
fn entry_without_address_is_not_found() {
    let addrs = host_snapshot();
    assert_eq!(addrs.find_ipv6(b"wlan0"), None);
}

#[test]
fn first_ipv6_entry_wins_past_ipv4_entry() {
    let addrs = host_snapshot();
    let i = addrs.find_ipv6(b"lo0").unwrap();
    assert_eq!(i, 3);
    assert_eq!(addrs.get(i).name(), b"lo0");
    assert!(addrs.get(i).is_ipv6());
}

#[test]
fn empty_snapshot_finds_nothing() {
    let addrs = IfAddrs::from_records(Vec::new());
    assert_eq!(addrs.len(), 0);
    assert_eq!(addrs.find_ipv6(b"lo0"), None);
}

#[test]
fn lookup_answer_is_the_scope() {
    assert_eq!(scope_from_lookup(1), Ok(1));
    assert_eq!(scope_from_lookup(7), Ok(7));
    assert_eq!(scope_from_lookup(u32::MAX), Ok(u32::MAX));
}

#[test]
fn failed_lookup_is_an_error() {
    assert_eq!(scope_from_lookup(0), Err(LookupFailed));
}

#[test]
fn loopback_resolves_and_unknown_does_not() {
    let addrs = host_snapshot();
    let i = addrs.find_ipv6(b"lo0").unwrap();
    assert!(names_equal(addrs.get(i).name(), b"lo0"));
    let scope = scope_from_lookup(1).unwrap();
    assert_ne!(scope, 0);
    assert_eq!(addrs.find_ipv6(b"nonexistent0"), None);
}

#[test]
fn names_compare_byte_for_byte() {
    assert!(names_equal(b"eth0", b"eth0"));
    assert!(names_equal(b"", b""));
    assert!(!names_equal(b"eth0", b"eth1"));
    assert!(!names_equal(b"eth0", b"eth00"));
    assert!(!names_equal(b"ETH0", b"eth0"));
}

#[test]
fn documentation_address_groups() {
    let mut b = [0u8; 16];
    b[0] = 0x20;
    b[1] = 0x01;
    b[2] = 0x0d;
    b[3] = 0xb8;
    b[15] = 0x01;
    assert_eq!(ipv6_groups(&b), [0x2001, 0x0db8, 0, 0, 0, 0, 0, 1]);
    let rec = IfAddr::new(b"eth0".to_vec(), v6(b));
    assert_eq!(rec.get_ipv6_addr(), Some([0x2001, 0x0db8, 0, 0, 0, 0, 0, 1]));
}

#[test]
fn address_groups_keep_byte_order() {
    let mut b = [0u8; 16];
    for (i, x) in b.iter_mut().enumerate() {
        *x = i as u8;
    }
    assert_eq!(
        ipv6_groups(&b),
        [0x0001, 0x0203, 0x0405, 0x0607, 0x0809, 0x0a0b, 0x0c0d, 0x0e0f]
    );
    assert_eq!(ipv6_groups(&[0xff; 16]), [0xffff; 8]);
}

#[test]
fn non_ipv6_records_have_no_groups() {
    assert_eq!(IfAddr::new(b"a".to_vec(), None).get_ipv6_addr(), None);
    assert_eq!(
        IfAddr::new(b"a".to_vec(), Some(SockAddr::V4([10, 0, 0, 1]))).get_ipv6_addr(),
        None
    );
    assert_eq!(IfAddr::new(b"a".to_vec(), Some(SockAddr::Other(18))).get_ipv6_addr(), None);
    assert!(!IfAddr::new(b"a".to_vec(), Some(SockAddr::Other(18))).is_ipv6());
}

#[test]
fn iterator_walks_each_entry_once() {
    let addrs = host_snapshot();
    let mut it = addrs.iter();
    let mut names: Vec<Vec<u8>> = Vec::new();
    while let Some(rec) = it.next() {
        names.push(rec.name().to_vec());
    }
    assert_eq!(names.len(), 6);
    assert_eq!(names[1], b"eth0".to_vec());
    assert!(it.next().is_none());
}
