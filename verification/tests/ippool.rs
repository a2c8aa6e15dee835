use ipnetwork::IpNetwork;
use nodemng::cidr::{Address, Network};
use nodemng::ippool::{IpPool, IpPoolError};

fn network(text: &str) -> Network {
    let parsed: IpNetwork = text.parse().unwrap();
    match parsed {
        IpNetwork::V4(net) => Network::new(Address::V4(u32::from(net.ip())), net.prefix()).unwrap(),
        IpNetwork::V6(net) => Network::new(Address::V6(u128::from(net.ip())), net.prefix()).unwrap(),
    }
}

fn address(text: &str) -> Address {
    network(text).ip()
}

#[test]
fn lib_it_works() {
    let net = network("192.168.100.1/24");
    let mut p = IpPool::new(net, 253).unwrap();
    match p.new_addr() {
        Some(addr) => {
            assert_eq!(network("192.168.100.253/24"), addr);
        }
        None => assert!(false),
    }

    let net = network("192.168.100.1/24");
    match IpPool::new(net, 300) {
        Err(e) => assert_eq!(IpPoolError::OffsetTooBig, e),
        Ok(_) => assert!(false),
    }

    let net = network("192.168.100.1/24");
    let mut p = IpPool::new(net, 253).unwrap();
    p.recycle(address("192.168.100.4"));
    match p.new_addr() {
        Some(addr) => {
            assert_eq!(network("192.168.100.4/24"), addr);
        }
        None => assert!(false),
    }
    match p.new_addr() {
        Some(addr) => {
            assert_eq!(network("192.168.100.253/24"), addr);
        }
        None => assert!(false),
    }

    let net = network("192.168.100.1/24");
    let mut p = IpPool::new(net, 255).unwrap();
    match p.new_addr() {
        Some(addr) => {
            assert_eq!(network("192.168.100.255/24"), addr);
        }
        None => assert!(false),
    }
    match p.new_addr() {
        Some(_) => assert!(false),
        None => assert!(true),
    }
}

#[test]
fn construction_succeeds_up_to_the_capacity() {
    let net = network("10.0.0.0/24");
    assert!(IpPool::new(net, 0).is_ok());
    assert!(IpPool::new(net, 1).is_ok());
    assert!(IpPool::new(net, 255).is_ok());
    assert!(IpPool::new(net, 256).is_ok());
    let single = network("10.0.0.7/32");
    assert!(IpPool::new(single, 0).is_ok());
    assert!(IpPool::new(single, 1).is_ok());
}

#[test]
fn construction_fails_beyond_the_capacity() {
    let net = network("10.0.0.0/24");
    assert_eq!(IpPool::new(net, 257).err(), Some(IpPoolError::OffsetTooBig));
    assert_eq!(IpPool::new(net, usize::MAX).err(), Some(IpPoolError::OffsetTooBig));
    let single = network("10.0.0.7/32");
    assert_eq!(IpPool::new(single, 2).err(), Some(IpPoolError::OffsetTooBig));
    let v6 = network("fd00::/120");
    assert!(IpPool::new(v6, 256).is_ok());
    assert_eq!(IpPool::new(v6, 257).err(), Some(IpPoolError::OffsetTooBig));
}

#[test]
fn the_whole_ipv4_space_counts_one_address_less() {
    let net = network("0.0.0.0/0");
    let capacity: usize = u32::MAX as usize;
    let mut last = IpPool::new(net, capacity - 1).unwrap();
    assert_eq!(last.new_addr(), Some(network("255.255.255.254/0")));
    assert_eq!(last.new_addr(), None);
    let mut full = IpPool::new(net, capacity).unwrap();
    assert_eq!(full.new_addr(), None);
    if let Some(beyond) = capacity.checked_add(1) {
        assert_eq!(IpPool::new(net, beyond).err(), Some(IpPoolError::OffsetTooBig));
    }
}

#[test]
fn a_size_that_does_not_fit_an_offset_is_a_conversion_error() {
    let wide = network("fd00::/8");
    assert!(matches!(IpPool::new(wide, 0), Err(IpPoolError::CheckOffsetError(_))));
    assert!(matches!(IpPool::new(wide, usize::MAX), Err(IpPoolError::CheckOffsetError(_))));
    let whole = network("::/0");
    assert!(matches!(IpPool::new(whole, 0), Err(IpPoolError::CheckOffsetError(_))));
}

#[test]
fn a_fresh_pool_walks_the_network_in_order() {
    let net = network("172.16.5.9/30");
    let mut p = IpPool::new(net, 1).unwrap();
    assert_eq!(p.new_addr(), Some(network("172.16.5.9/30")));
    assert_eq!(p.new_addr(), Some(network("172.16.5.10/30")));
    assert_eq!(p.new_addr(), Some(network("172.16.5.11/30")));
    assert_eq!(p.new_addr(), None);
    assert_eq!(p.new_addr(), None);

    let mut whole = IpPool::new(net, 0).unwrap();
    assert_eq!(whole.new_addr(), Some(network("172.16.5.8/30")));
}

#[test]
fn a_fresh_ipv6_pool_walks_the_network_in_order() {
    let net = network("fd00::1:0/126");
    let mut p = IpPool::new(net, 2).unwrap();
    assert_eq!(p.new_addr(), Some(network("fd00::1:2/126")));
    assert_eq!(p.new_addr(), Some(network("fd00::1:3/126")));
    assert_eq!(p.new_addr(), None);
}

#[test]
fn a_pool_at_the_capacity_is_exhausted_from_the_start() {
    let net = network("192.168.100.1/24");
    let mut p = IpPool::new(net, 256).unwrap();
    assert_eq!(p.new_addr(), None);
}

#[test]
fn a_recycled_address_comes_back_before_the_cursor_moves() {
    let net = network("192.168.100.1/24");
    let mut p = IpPool::new(net, 253).unwrap();
    assert_eq!(p.new_addr(), Some(network("192.168.100.253/24")));
    p.recycle(address("192.168.100.4"));
    assert_eq!(p.new_addr(), Some(network("192.168.100.4/24")));
    assert_eq!(p.new_addr(), Some(network("192.168.100.254/24")));
    assert_eq!(p.new_addr(), Some(network("192.168.100.255/24")));
    assert_eq!(p.new_addr(), None);
}

#[test]
fn recycled_addresses_come_back_last_first() {
    let net = network("192.168.100.1/24");
    let mut p = IpPool::new(net, 10).unwrap();
    p.recycle(address("192.168.100.1"));
    p.recycle(address("192.168.100.2"));
    p.recycle(address("192.168.100.3"));
    assert_eq!(p.new_addr(), Some(network("192.168.100.3/24")));
    assert_eq!(p.new_addr(), Some(network("192.168.100.2/24")));
    assert_eq!(p.new_addr(), Some(network("192.168.100.1/24")));
    assert_eq!(p.new_addr(), Some(network("192.168.100.10/24")));
}

#[test]
fn an_exhausted_pool_serves_what_is_recycled() {
    let net = network("192.168.100.1/24");
    let mut p = IpPool::new(net, 256).unwrap();
    assert_eq!(p.new_addr(), None);
    p.recycle(address("192.168.100.77"));
    assert_eq!(p.new_addr(), Some(network("192.168.100.77/24")));
    assert_eq!(p.new_addr(), None);
}

#[test]
fn a_pool_at_the_last_offset_yields_one_address() {
    let net = network("192.168.100.1/24");
    let mut p = IpPool::new(net, 255).unwrap();
    assert_eq!(p.new_addr(), Some(network("192.168.100.255/24")));
    assert_eq!(p.new_addr(), None);

    let v6 = network("fd00::/120");
    let mut q = IpPool::new(v6, 255).unwrap();
    assert_eq!(q.new_addr(), Some(network("fd00::ff/120")));
    assert_eq!(q.new_addr(), None);
}

#[test]
fn the_pool_takes_addresses_it_never_gave() {
    let net = network("192.168.100.1/24");
    let mut p = IpPool::new(net, 5).unwrap();
    p.recycle(address("10.9.8.7"));
    p.recycle(address("10.9.8.7"));
    assert_eq!(p.new_addr(), Some(network("10.9.8.7/24")));
    assert_eq!(p.new_addr(), Some(network("10.9.8.7/24")));
    assert_eq!(p.new_addr(), Some(network("192.168.100.5/24")));
}

#[test]
fn an_address_of_the_other_family_keeps_the_prefix_if_it_fits() {
    let v4 = network("192.168.100.1/24");
    let mut p = IpPool::new(v4, 5).unwrap();
    p.recycle(address("fd00::9"));
    assert_eq!(p.new_addr(), Some(network("fd00::9/24")));
    assert_eq!(p.new_addr(), Some(network("192.168.100.5/24")));

    let v6 = network("fd00::/120");
    let mut q = IpPool::new(v6, 5).unwrap();
    q.recycle(address("10.0.0.1"));
    assert_eq!(q.new_addr(), None);
    assert_eq!(q.new_addr(), Some(network("fd00::5/120")));
}

#[test]
fn pool_errors_in_words() {
    assert_eq!(IpPoolError::OffsetTooBig.message(), "Offset is bigger than size of networking");
    match IpPool::new(network("fd00::/8"), 0) {
        Err(e) => assert_eq!(e.message(), "out of range integral type conversion attempted"),
        Ok(_) => panic!("the size of a /8 fits no offset"),
    }
}

#[test]
fn a_conversion_error_becomes_a_pool_error() {
    let failed = u8::try_from(300u32).unwrap_err();
    let error = IpPoolError::from(failed);
    assert_eq!(error, IpPoolError::CheckOffsetError(failed));
    assert_eq!(error.clone(), error);
}
