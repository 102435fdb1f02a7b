use vx0net_daemon::addr::{IpAddress, SocketAddress};
use vx0net_daemon::dns::{DNSError, RecordData, Vx0DNS, Vx0DNSServer, Vx0Resolver};

fn local_dns() -> SocketAddress {
    SocketAddress { ip: IpAddress::v4(127, 0, 0, 1), port: 53 }
}

#[test]
fn test_vx0_domain_resolution() {
    let resolver = Vx0Resolver::new(vec!["8.8.8.8:53".to_string()]);
    let result = resolver.resolve("vx0.network");
    assert!(result.is_ok());
    if let Ok(Some(ip)) = result {
        assert_eq!(ip, IpAddress::v4(10, 0, 1, 1));
    }
}

#[test]
fn test_vx0_node_resolution() {
    let resolver = Vx0Resolver::new(vec!["8.8.8.8:53".to_string()]);
    let result = resolver.resolve("node1.vx0");
    assert!(result.is_ok());
    if let Ok(Some(ip)) = result {
        assert_eq!(ip, IpAddress::v4(10, 0, 2, 1));
    }
}

#[test]
fn test_dns_server_creation() {
    let addr = local_dns();
    let server = Vx0DNSServer::new(addr);
    assert_eq!(server.bind_addr, addr);
}

#[test]
fn test_record_creation() {
    let mut server = Vx0DNSServer::new(local_dns());
    let result = server.register_service("test.vx0".to_string(), IpAddress::v4(10, 0, 3, 1));
    assert!(result.is_ok());
}

#[test]
fn test_vx0_network_record() {
    let mut server = Vx0DNSServer::new(local_dns());
    let result = server.create_vx0_network_record();
    assert!(result.is_ok());
    let records = server.get_records("vx0.network");
    assert!(records.is_some());
    if let Some(records) = records {
        assert_eq!(records.len(), 1);
        assert!(matches!(records[0].data, RecordData::Address(a) if a == IpAddress::v4(10, 0, 1, 1)));
    }
}

#[test]
fn namespace_isolation() {
    let mut resolver = Vx0Resolver::new(vec![]);
    assert_eq!(resolver.resolve("vx0.network").unwrap(), Some(IpAddress::v4(10, 0, 1, 1)));
    resolver.register_vx0_service("chat.community1.vx0".to_string(), IpAddress::v4(10, 20, 30, 40)).unwrap();
    assert_eq!(resolver.resolve("chat.community1.vx0").unwrap(), Some(IpAddress::v4(10, 20, 30, 40)));
    assert_eq!(resolver.resolve("google.com").unwrap(), None);
    let refused = resolver.register_vx0_service("example.com".to_string(), IpAddress::v4(1, 2, 3, 4));
    assert!(matches!(refused, Err(DNSError::InvalidDomain(_))));
}

#[test]
fn names_outside_namespace_never_resolve() {
    let mut dns = Vx0DNS::new();
    // even a stored record cannot leak a foreign name
    dns.add_record(vx0net_daemon::dns::DNSRecord {
        name: "evil.com".to_string(),
        record_type: vx0net_daemon::dns::RecordType::A,
        data: RecordData::Address(IpAddress::v4(6, 6, 6, 6)),
        ttl: 300,
        timestamp: 0,
    });
    assert_eq!(dns.resolve_vx0_domain("evil.com"), None);
    assert_eq!(dns.resolve_vx0_domain("vx0"), None);
    assert_eq!(dns.resolve_vx0_domain("x.vx0.net"), None);
    assert_eq!(dns.resolve_vx0_domain(""), None);
}

#[test]
fn seeded_records_and_first_a_record_wins() {
    let mut dns = Vx0DNS::new();
    assert_eq!(dns.resolve_vx0_domain("gateway.vx0"), Some(IpAddress::v4(10, 0, 0, 1)));
    assert_eq!(dns.resolve_vx0_domain("ns1.vx0"), Some(IpAddress::v4(10, 0, 0, 2)));
    assert_eq!(dns.resolve_vx0_domain("ns2.vx0"), Some(IpAddress::v4(10, 0, 0, 3)));
    dns.register_service("gateway.vx0".to_string(), IpAddress::v4(10, 9, 9, 9)).unwrap();
    assert_eq!(dns.resolve_vx0_domain("gateway.vx0"), Some(IpAddress::v4(10, 0, 0, 1)));
    assert_eq!(dns.get_records("gateway.vx0").len(), 2);
    assert_eq!(dns.get_records("gateway.vx0")[1].ttl, 300);
    assert_eq!(dns.resolve_vx0_domain("unknown.vx0"), None);
}

#[test]
fn gateway_name_registration_allowed() {
    let mut dns = Vx0DNS::new();
    assert!(dns.register_service("vx0.network".to_string(), IpAddress::v4(10, 1, 1, 1)).is_ok());
    assert!(dns.register_service("vx0".to_string(), IpAddress::v4(10, 1, 1, 1)).is_err());
}

#[test]
fn node_records_are_numbered() {
    let mut server = Vx0DNSServer::new(local_dns());
    server.create_node_records(12).unwrap();
    let r = server.get_records("node12.vx0").unwrap();
    assert_eq!(r.len(), 1);
    assert!(matches!(r[0].data, RecordData::Address(a) if a == IpAddress::v4(10, 0, 2, 12)));
    assert!(server.get_records("node13.vx0").is_none());
    assert!(server.get_records("node1.vx0").is_some());
}
