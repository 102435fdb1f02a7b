//! Configuration of a node, as read from its configuration document.
use vstd::prelude::*;
use crate::text::owned;
use crate::tier::NodeTier;

verus! {

#[derive(Debug, Clone)]
pub struct Vx0Config {
    pub node: NodeConfig,
    pub network: NetworkConfig,
    pub security: SecurityConfig,
    pub services: ServicesConfig,
    pub monitoring: MonitoringConfig,
    pub bootstrap: Option<BootstrapConfig>,
    pub psk: Option<PSKConfig>,
}

#[derive(Debug, Clone)]
pub struct NodeConfig {
    pub hostname: String,
    pub asn: u32,
    /// "Backbone", "Regional" or "Edge"; "Tier1" and "Tier2" are older names
    /// of the first two.
    pub tier: String,
    pub location: String,
    pub ipv4_address: String,
    pub ipv6_address: String,
}

#[derive(Debug, Clone)]
pub struct NetworkConfig {
    pub bgp: BGPConfig,
    pub dns: DNSConfig,
    pub routing: RoutingConfig,
}

#[derive(Debug, Clone)]
pub struct BGPConfig {
    pub router_id: String,
    pub listen_port: u16,
    pub hold_time: u16,
    pub keepalive_time: u16,
}

#[derive(Debug, Clone)]
pub struct DNSConfig {
    pub listen_port: u16,
    /// Name servers inside the overlay; no other server is ever asked.
    pub vx0_dns_servers: Vec<String>,
    pub cache_size: usize,
}

#[derive(Debug, Clone)]
pub struct RoutingConfig {
    pub max_paths: u8,
    pub local_preference: u32,
    pub med: u32,
}

#[derive(Debug, Clone)]
pub struct SecurityConfig {
    pub ike: IKEConfig,
    pub certificates: CertificateConfig,
    pub encryption: EncryptionConfig,
}

#[derive(Debug, Clone)]
pub struct IKEConfig {
    pub listen_port: u16,
    pub dh_group: u8,
    pub encryption_algorithm: String,
    pub hash_algorithm: String,
    pub prf_algorithm: String,
}

#[derive(Debug, Clone)]
pub struct CertificateConfig {
    pub ca_cert_path: String,
    pub node_cert_path: String,
    pub node_key_path: String,
}

#[derive(Debug, Clone)]
pub struct EncryptionConfig {
    pub cipher: String,
    pub key_size: u32,
    pub iv_size: u32,
}

#[derive(Debug, Clone)]
pub struct ServicesConfig {
    pub enable_discovery: bool,
    pub discovery_port: u16,
    pub service_ttl: u64,
}

#[derive(Debug, Clone)]
pub struct MonitoringConfig {
    pub enable_metrics: bool,
    pub metrics_port: u16,
    pub log_level: String,
}

#[derive(Debug, Clone)]
pub struct BootstrapConfig {
    pub nodes: Vec<BootstrapNode>,
}

#[derive(Debug, Clone)]
pub struct BootstrapNode {
    pub hostname: String,
    pub ip: String,
    pub asn: u32,
}

#[derive(Debug, Clone)]
pub struct PSKConfig {
    pub default: String,
}

/// Name of a tier as written in a configuration.
pub open spec fn tier_name(t: NodeTier) -> Seq<char> {
    match t {
        NodeTier::Backbone => "Backbone"@,
        NodeTier::Regional => "Regional"@,
        NodeTier::Edge => "Edge"@,
    }
}

fn path_with(prefix: &str, name: &str, suffix: &str) -> (r: String)
    ensures
        r@ == prefix@ + name@ + suffix@,
{
    let mut s = owned(prefix);
    s.append(name);
    s.append(suffix);
    s
}

/// A complete configuration for a node of a test network: the given
/// hostname, ASN, IPv4 address and tier, standard ports and timers, and no
/// bootstrap list or pre-shared key.
pub fn create_test_config(hostname: &str, asn: u32, ip: &str, tier: NodeTier) -> (r: Vx0Config)
    ensures
        r.node.hostname@ == hostname@,
        r.node.asn == asn,
        r.node.tier@ == tier_name(tier),
        r.node.ipv4_address@ == ip@,
        r.node.ipv6_address@ == "fe80::1"@,
        r.network.bgp.router_id@ == ip@,
        r.network.bgp.listen_port == 179,
        r.network.bgp.hold_time == 90,
        r.network.bgp.keepalive_time == 30,
        r.security.ike.dh_group == 14,
        r.bootstrap is None,
        r.psk is None,
{
    let tier_str = match tier {
        NodeTier::Backbone => "Backbone",
        NodeTier::Regional => "Regional",
        NodeTier::Edge => "Edge",
    };
    let mut servers: Vec<String> = Vec::new();
    servers.push(owned("10.0.0.2:53"));
    servers.push(owned("10.0.0.3:53"));
    Vx0Config {
        node: NodeConfig {
            hostname: owned(hostname),
            asn,
            tier: owned(tier_str),
            location: owned("VX0 Test Network"),
            ipv4_address: owned(ip),
            ipv6_address: owned("fe80::1"),
        },
        network: NetworkConfig {
            bgp: BGPConfig { router_id: owned(ip), listen_port: 179, hold_time: 90, keepalive_time: 30 },
            dns: DNSConfig { listen_port: 53, vx0_dns_servers: servers, cache_size: 1000 },
            routing: RoutingConfig { max_paths: 4, local_preference: 100, med: 0 },
        },
        security: SecurityConfig {
            ike: IKEConfig {
                listen_port: 500,
                dh_group: 14,
                encryption_algorithm: owned("AES-256"),
                hash_algorithm: owned("SHA-256"),
                prf_algorithm: owned("HMAC-SHA256"),
            },
            certificates: CertificateConfig {
                ca_cert_path: owned("config/certs/ca.crt"),
                node_cert_path: path_with("config/certs/", hostname, ".crt"),
                node_key_path: path_with("config/certs/", hostname, ".key"),
            },
            encryption: EncryptionConfig { cipher: owned("AES-256-GCM"), key_size: 32, iv_size: 12 },
        },
        services: ServicesConfig { enable_discovery: true, discovery_port: 8080, service_ttl: 300 },
        monitoring: MonitoringConfig { enable_metrics: true, metrics_port: 9090, log_level: owned("info") },
        bootstrap: None,
        psk: None,
    }
}

/// A configuration for an Edge node of a lab network listening on the
/// given peering and key-agreement ports. The node with ASN 65001 takes
/// discovery port 8080 and metrics port 9090; any other takes 8081 and 9091.
pub fn create_default_config(hostname: &str, asn: u32, ip: &str, bgp_port: u16, ike_port: u16) -> (r: Vx0Config)
    ensures
        r.node.hostname@ == hostname@,
        r.node.asn == asn,
        r.node.tier@ == "Edge"@,
        r.node.ipv4_address@ == ip@,
        r.network.bgp.router_id@ == ip@,
        r.network.bgp.listen_port == bgp_port,
        r.network.dns.listen_port == 5353,
        r.security.ike.listen_port == ike_port,
        r.services.discovery_port == (if asn == 65001 { 8080u16 } else { 8081u16 }),
        r.monitoring.metrics_port == (if asn == 65001 { 9090u16 } else { 9091u16 }),
        r.bootstrap is None,
        r.psk is None,
{
    let mut servers: Vec<String> = Vec::new();
    servers.push(owned("10.0.0.2:53"));
    servers.push(owned("10.0.0.3:53"));
    let first = asn == 65001;
    Vx0Config {
        node: NodeConfig {
            hostname: owned(hostname),
            asn,
            tier: owned("Edge"),
            location: owned("Test Lab"),
            ipv4_address: owned(ip),
            ipv6_address: owned("fe80::1"),
        },
        network: NetworkConfig {
            bgp: BGPConfig { router_id: owned(ip), listen_port: bgp_port, hold_time: 90, keepalive_time: 30 },
            dns: DNSConfig { listen_port: 5353, vx0_dns_servers: servers, cache_size: 1000 },
            routing: RoutingConfig { max_paths: 4, local_preference: 100, med: 0 },
        },
        security: SecurityConfig {
            ike: IKEConfig {
                listen_port: ike_port,
                dh_group: 14,
                encryption_algorithm: owned("AES-256"),
                hash_algorithm: owned("SHA-256"),
                prf_algorithm: owned("HMAC-SHA256"),
            },
            certificates: CertificateConfig {
                ca_cert_path: owned("config/certs/ca.crt"),
                node_cert_path: path_with("config/certs/", hostname, ".crt"),
                node_key_path: path_with("config/certs/", hostname, ".key"),
            },
            encryption: EncryptionConfig { cipher: owned("AES-256-GCM"), key_size: 32, iv_size: 12 },
        },
        services: ServicesConfig { enable_discovery: true, discovery_port: if first { 8080 } else { 8081 }, service_ttl: 300 },
        monitoring: MonitoringConfig {
            enable_metrics: true,
            metrics_port: if first { 9090 } else { 9091 },
            log_level: owned("info"),
        },
        bootstrap: None,
        psk: None,
    }
}

} // verus!
