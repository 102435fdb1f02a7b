//! Authoritative name store for the reserved namespace. Only names under the
//! reserved top-level label `vx0`, and the apex name `vx0.network`, are ever
//! answered; every other name is refused.
use vstd::prelude::*;
use crate::addr::{IpAddress, SocketAddress, v4_value};
use crate::clock::now_millis;
use crate::text::{ends_with, owned, push_decimal, spec_ends_with, str_equal, decimal};

verus! {

pub const RESERVED_SUFFIX: &'static str = ".vx0";
pub const GATEWAY_NAME: &'static str = "vx0.network";
pub const DEFAULT_TTL: u32 = 300;

#[derive(Debug, Clone, Copy, PartialEq, Eq, Structural)]
pub enum RecordType {
    A,
    AAAA,
    CNAME,
    MX,
    TXT,
    SRV,
    PTR,
}

/// What a record holds: an address, or text for the other record kinds.
#[derive(Debug)]
pub enum RecordData {
    Address(IpAddress),
    Text(String),
}

#[derive(Debug)]
pub struct DNSRecord {
    pub name: String,
    pub record_type: RecordType,
    pub data: RecordData,
    pub ttl: u32,
    /// Milliseconds since the Unix epoch.
    pub timestamp: i64,
}

#[derive(Debug)]
pub struct SOARecord {
    pub primary: String,
    pub email: String,
    pub serial: u32,
    pub refresh: u32,
    pub retry: u32,
    pub expire: u32,
    pub minimum: u32,
}

#[derive(Debug)]
pub struct DNSZone {
    pub name: String,
    pub soa: SOARecord,
    pub ns_records: Vec<String>,
}

#[derive(Debug)]
pub enum DNSError {
    InvalidDomain(String),
    RecordNotFound(String),
    Network(String),
    Protocol(String),
    IO(String),
}

/// Names this resolver is authoritative for.
pub open spec fn is_reserved(name: Seq<char>) -> bool {
    spec_ends_with(name, RESERVED_SUFFIX@) || name == GATEWAY_NAME@
}

/// The address of `r` when it is an A record for `name` holding an address.
pub open spec fn record_address(r: DNSRecord, name: Seq<char>) -> Option<IpAddress> {
    if r.name@ == name && r.record_type == RecordType::A {
        match r.data {
            RecordData::Address(a) => Some(a),
            RecordData::Text(_) => None,
        }
    } else {
        None
    }
}

/// The first A record for `name` in `recs` that holds an address.
pub open spec fn first_address(recs: Seq<DNSRecord>, name: Seq<char>) -> Option<IpAddress>
    decreases recs.len(),
{
    if recs.len() == 0 {
        None
    } else if record_address(recs[0], name) is Some {
        record_address(recs[0], name)
    } else {
        first_address(recs.drop_first(), name)
    }
}

/// The address the overlay itself knows for `name`.
pub open spec fn overlay_address(name: Seq<char>) -> Option<IpAddress> {
    if name == GATEWAY_NAME@ { Some(IpAddress::V4(v4_value(10, 0, 1, 1))) } else { None }
}

/// Resolution against a record store.
pub open spec fn spec_resolve(recs: Seq<DNSRecord>, name: Seq<char>) -> Option<IpAddress> {
    if !is_reserved(name) {
        None
    } else if first_address(recs, name) is Some {
        first_address(recs, name)
    } else {
        overlay_address(name)
    }
}

/// Whether `name` is in the reserved namespace.
pub fn is_reserved_name(name: &str) -> (r: bool)
    ensures
        r == is_reserved(name@),
{
    ends_with(name, RESERVED_SUFFIX) || str_equal(name, GATEWAY_NAME)
}

fn a_record(name: &str, a: u8, b: u8, c: u8, d: u8) -> (r: DNSRecord)
    ensures
        r.name@ == name@,
        r.record_type == RecordType::A,
        r.data == RecordData::Address(IpAddress::V4(v4_value(a, b, c, d))),
        r.ttl == DEFAULT_TTL,
{
    DNSRecord {
        name: owned(name),
        record_type: RecordType::A,
        data: RecordData::Address(IpAddress::v4(a, b, c, d)),
        ttl: DEFAULT_TTL,
        timestamp: now_millis(),
    }
}

/// The seed records of a new store, in order: gateway.vx0 at 10.0.0.1,
/// ns1.vx0 at 10.0.0.2, ns2.vx0 at 10.0.0.3 and vx0.network at 10.0.1.1,
/// each an A record with ttl 300.
pub open spec fn seeded(recs: Seq<DNSRecord>) -> bool {
    &&& recs.len() == 4
    &&& recs[0].name@ == "gateway.vx0"@ && recs[0].data == RecordData::Address(IpAddress::V4(v4_value(10, 0, 0, 1)))
    &&& recs[1].name@ == "ns1.vx0"@ && recs[1].data == RecordData::Address(IpAddress::V4(v4_value(10, 0, 0, 2)))
    &&& recs[2].name@ == "ns2.vx0"@ && recs[2].data == RecordData::Address(IpAddress::V4(v4_value(10, 0, 0, 3)))
    &&& recs[3].name@ == GATEWAY_NAME@ && recs[3].data == RecordData::Address(IpAddress::V4(v4_value(10, 0, 1, 1)))
    &&& forall|i: int| 0 <= i < 4 ==> (#[trigger] recs[i]).record_type == RecordType::A && recs[i].ttl == DEFAULT_TTL
}

/// The name store.
#[derive(Debug)]
pub struct Vx0DNS {
    pub zones: Vec<DNSZone>,
    /// All records, in the order they were added.
    pub records: Vec<DNSRecord>,
}

impl Vx0DNS {
    /// A store holding the `vx0` zone and its seed records: gateway.vx0 at
    /// 10.0.0.1, ns1.vx0 at 10.0.0.2, ns2.vx0 at 10.0.0.3 and vx0.network at 10.0.1.1.
    pub fn new() -> (r: Vx0DNS)
        ensures
            seeded(r.records@),
            r.zones@.len() == 1,
            r.zones@[0].name@ == "vx0"@,
    {
        let mut dns = Vx0DNS { zones: Vec::new(), records: Vec::new() };
        dns.create_vx0_zone();
        dns
    }

    fn create_vx0_zone(&mut self)
        requires
            old(self).records@.len() == 0,
            old(self).zones@.len() == 0,
        ensures
            seeded(final(self).records@),
            final(self).zones@.len() == 1,
            final(self).zones@[0].name@ == "vx0"@,
    {
        let mut ns_records: Vec<String> = Vec::new();
        ns_records.push(owned("ns1.vx0"));
        ns_records.push(owned("ns2.vx0"));
        let zone = DNSZone {
            name: owned("vx0"),
            soa: SOARecord {
                primary: owned("ns1.vx0"),
                email: owned("admin.vx0"),
                serial: 1,
                refresh: 3600,
                retry: 1800,
                expire: 604800,
                minimum: 86400,
            },
            ns_records,
        };
        self.zones.push(zone);
        self.add_record(a_record("gateway.vx0", 10, 0, 0, 1));
        self.add_record(a_record("ns1.vx0", 10, 0, 0, 2));
        self.add_record(a_record("ns2.vx0", 10, 0, 0, 3));
        self.add_record(a_record(GATEWAY_NAME, 10, 0, 1, 1));
    }

    /// Appends a record.
    pub fn add_record(&mut self, record: DNSRecord)
        ensures
            final(self).records@ == old(self).records@.push(record),
            final(self).zones == old(self).zones,
    {
        self.records.push(record);
    }

    /// Registers `domain` at `ip` with an A record of ttl 300. Names outside
    /// the reserved namespace are refused with `InvalidDomain`.
    pub fn register_service(&mut self, domain: String, ip: IpAddress) -> (r: Result<(), DNSError>)
        ensures
            r is Err <==> !is_reserved(domain@),
            r matches Err(e) ==> e is InvalidDomain,
            r is Err ==> final(self).records@ == old(self).records@,
            r is Ok ==> final(self).records@.len() == old(self).records@.len() + 1
                && final(self).records@.subrange(0, old(self).records@.len() as int) == old(self).records@
                && final(self).records@.last().name@ == domain@
                && final(self).records@.last().record_type == RecordType::A
                && final(self).records@.last().data == RecordData::Address(ip)
                && final(self).records@.last().ttl == DEFAULT_TTL,
            final(self).zones == old(self).zones,
    {
        if !is_reserved_name(domain.as_str()) {
            return Err(DNSError::InvalidDomain(domain));
        }
        let record = DNSRecord {
            name: domain,
            record_type: RecordType::A,
            data: RecordData::Address(ip),
            ttl: DEFAULT_TTL,
            timestamp: now_millis(),
        };
        self.add_record(record);
        assert(self.records@.subrange(0, old(self).records@.len() as int) =~= old(self).records@);
        Ok(())
    }

    fn local_lookup(&self, domain: &str) -> (r: Option<IpAddress>)
        ensures
            r == first_address(self.records@, domain@),
    {
        let mut i: usize = 0;
        assert(self.records@.subrange(0, self.records@.len() as int) =~= self.records@);
        while i < self.records.len()
            invariant
                i <= self.records@.len(),
                first_address(self.records@, domain@) == first_address(self.records@.subrange(i as int, self.records@.len() as int), domain@),
            decreases self.records.len() - i,
        {
            let ghost rest = self.records@.subrange(i as int, self.records@.len() as int);
            assert(rest[0] == self.records@[i as int]);
            assert(rest.drop_first() =~= self.records@.subrange(i + 1, self.records@.len() as int));
            let rec = &self.records[i];
            if rec.record_type == RecordType::A && str_equal(rec.name.as_str(), domain) {
                match &rec.data {
                    RecordData::Address(a) => {
                        return Some(*a);
                    },
                    RecordData::Text(_) => {},
                }
            }
            i += 1;
        }
        assert(self.records@.subrange(i as int, self.records@.len() as int).len() == 0);
        None
    }

    /// Resolves a name of the reserved namespace: the first A record held for
    /// it, else what the overlay knows (the gateway address for
    /// `vx0.network`). Any other name gives `None`.
    pub fn resolve_vx0_domain(&self, domain: &str) -> (r: Option<IpAddress>)
        ensures
            r == spec_resolve(self.records@, domain@),
    {
        if !is_reserved_name(domain) {
            return None;
        }
        match self.local_lookup(domain) {
            Some(a) => Some(a),
            None => self.query_distributed_dns(domain),
        }
    }

    fn query_distributed_dns(&self, domain: &str) -> (r: Option<IpAddress>)
        ensures
            r == overlay_address(domain@),
    {
        if str_equal(domain, GATEWAY_NAME) {
            Some(IpAddress::v4(10, 0, 1, 1))
        } else {
            None
        }
    }

    /// The records held for `domain`, in the order they were added.
    pub fn get_records(&self, domain: &str) -> (r: Vec<&DNSRecord>)
        ensures
            r@.len() == records_named(self.records@, domain@).len(),
            forall|i: int| 0 <= i < r@.len() ==> *(#[trigger] r@[i]) == records_named(self.records@, domain@)[i],
    {
        let mut out: Vec<&DNSRecord> = Vec::new();
        let mut i: usize = 0;
        while i < self.records.len()
            invariant
                i <= self.records@.len(),
                out@.len() == records_named(self.records@.subrange(0, i as int), domain@).len(),
                forall|j: int| 0 <= j < out@.len() ==> *(#[trigger] out@[j]) == records_named(self.records@.subrange(0, i as int), domain@)[j],
            decreases self.records.len() - i,
        {
            let ghost pre = self.records@.subrange(0, i as int);
            assert(self.records@.subrange(0, i + 1).drop_last() =~= pre);
            if str_equal(self.records[i].name.as_str(), domain) {
                out.push(&self.records[i]);
            }
            i += 1;
        }
        assert(self.records@.subrange(0, i as int) =~= self.records@);
        out
    }
}

/// The records of `recs` whose name is `name`, in order.
pub open spec fn records_named(recs: Seq<DNSRecord>, name: Seq<char>) -> Seq<DNSRecord>
    decreases recs.len(),
{
    if recs.len() == 0 {
        Seq::empty()
    } else if recs.last().name@ == name {
        records_named(recs.drop_last(), name).push(recs.last())
    } else {
        records_named(recs.drop_last(), name)
    }
}

/// A resolver: the name store plus the list of overlay name servers.
#[derive(Debug)]
pub struct Vx0Resolver {
    pub dns: Vx0DNS,
    pub vx0_dns_servers: Vec<String>,
}

/// Names the overlay answers for when the local store holds nothing.
pub open spec fn overlay_table(name: Seq<char>) -> Option<IpAddress> {
    if name == GATEWAY_NAME@ {
        Some(IpAddress::V4(v4_value(10, 0, 1, 1)))
    } else if name == "gateway.vx0"@ {
        Some(IpAddress::V4(v4_value(10, 0, 0, 1)))
    } else if name == "node1.vx0"@ {
        Some(IpAddress::V4(v4_value(10, 0, 2, 1)))
    } else if name == "node2.vx0"@ {
        Some(IpAddress::V4(v4_value(10, 0, 2, 2)))
    } else {
        None
    }
}

/// Resolution by a resolver: the store first, then the overlay's own table;
/// names outside the reserved namespace are never resolved.
pub open spec fn spec_resolver_answer(recs: Seq<DNSRecord>, name: Seq<char>) -> Option<IpAddress> {
    if !is_reserved(name) {
        None
    } else if spec_resolve(recs, name) is Some {
        spec_resolve(recs, name)
    } else {
        overlay_table(name)
    }
}

impl Vx0Resolver {
    pub fn new(vx0_dns_servers: Vec<String>) -> (r: Vx0Resolver)
        ensures
            r.vx0_dns_servers == vx0_dns_servers,
            seeded(r.dns.records@),
    {
        Vx0Resolver { dns: Vx0DNS::new(), vx0_dns_servers }
    }

    /// Resolves `domain`; never fails, and answers `None` for every name
    /// outside the reserved namespace.
    pub fn resolve(&self, domain: &str) -> (r: Result<Option<IpAddress>, DNSError>)
        ensures
            r == Ok::<Option<IpAddress>, DNSError>(spec_resolver_answer(self.dns.records@, domain@)),
    {
        if is_reserved_name(domain) {
            match self.dns.resolve_vx0_domain(domain) {
                Some(ip) => Ok(Some(ip)),
                None => Ok(self.query_vx0_network(domain)),
            }
        } else {
            Ok(None)
        }
    }

    fn query_vx0_network(&self, domain: &str) -> (r: Option<IpAddress>)
        ensures
            r == overlay_table(domain@),
    {
        if str_equal(domain, GATEWAY_NAME) {
            Some(IpAddress::v4(10, 0, 1, 1))
        } else if str_equal(domain, "gateway.vx0") {
            Some(IpAddress::v4(10, 0, 0, 1))
        } else if str_equal(domain, "node1.vx0") {
            Some(IpAddress::v4(10, 0, 2, 1))
        } else if str_equal(domain, "node2.vx0") {
            Some(IpAddress::v4(10, 0, 2, 2))
        } else {
            None
        }
    }

    pub fn register_vx0_service(&mut self, domain: String, ip: IpAddress) -> (r: Result<(), DNSError>)
        ensures
            r is Err <==> !is_reserved(domain@),
            r matches Err(e) ==> e is InvalidDomain,
            r is Ok ==> final(self).dns.records@.len() == old(self).dns.records@.len() + 1
                && final(self).dns.records@.subrange(0, old(self).dns.records@.len() as int) == old(self).dns.records@
                && final(self).dns.records@.last().name@ == domain@
                && final(self).dns.records@.last().data == RecordData::Address(ip),
            r is Err ==> final(self).dns.records@ == old(self).dns.records@,
    {
        self.dns.register_service(domain, ip)
    }
}

/// Names outside the reserved namespace are never resolved.
pub proof fn lemma_isolation(recs: Seq<DNSRecord>, name: Seq<char>)
    requires
        !spec_ends_with(name, RESERVED_SUFFIX@),
        name != GATEWAY_NAME@,
    ensures
        spec_resolver_answer(recs, name) is None,
        spec_resolve(recs, name) is None,
{
}

/// Name `node<i>.vx0`.
pub open spec fn node_name(i: nat) -> Seq<char> {
    "node"@ + decimal(i) + RESERVED_SUFFIX@
}

/// An authoritative server over a name store.
#[derive(Debug)]
pub struct Vx0DNSServer {
    pub dns: Vx0DNS,
    pub bind_addr: SocketAddress,
}

impl Vx0DNSServer {
    pub fn new(bind_addr: SocketAddress) -> (r: Vx0DNSServer)
        ensures
            r.bind_addr == bind_addr,
            seeded(r.dns.records@),
    {
        Vx0DNSServer { dns: Vx0DNS::new(), bind_addr }
    }

    pub fn register_service(&mut self, domain: String, ip: IpAddress) -> (r: Result<(), DNSError>)
        ensures
            r is Err <==> !is_reserved(domain@),
            r matches Err(e) ==> e is InvalidDomain,
            r is Err ==> final(self).dns.records@ == old(self).dns.records@,
            r is Ok ==> final(self).dns.records@.len() == old(self).dns.records@.len() + 1
                && final(self).dns.records@.last().name@ == domain@
                && final(self).dns.records@.last().data == RecordData::Address(ip),
            final(self).bind_addr == old(self).bind_addr,
    {
        self.dns.register_service(domain, ip)
    }

    pub fn add_record(&mut self, record: DNSRecord)
        ensures
            final(self).dns.records@ == old(self).dns.records@.push(record),
            final(self).bind_addr == old(self).bind_addr,
    {
        self.dns.add_record(record);
    }

    /// The records held for `domain`; `None` when there are none.
    pub fn get_records(&self, domain: &str) -> (r: Option<Vec<&DNSRecord>>)
        ensures
            r is None <==> records_named(self.dns.records@, domain@).len() == 0,
            r matches Some(v) ==> v@.len() == records_named(self.dns.records@, domain@).len()
                && forall|i: int| 0 <= i < v@.len() ==> *(#[trigger] v@[i]) == records_named(self.dns.records@, domain@)[i],
    {
        let v = self.dns.get_records(domain);
        if v.len() == 0 { None } else { Some(v) }
    }

    /// Makes sure `vx0.network` has an A record at 10.0.1.1; an existing
    /// record for the name is left as it is.
    pub fn create_vx0_network_record(&mut self) -> (r: Result<(), DNSError>)
        ensures
            r is Ok,
            records_named(old(self).dns.records@, GATEWAY_NAME@).len() > 0 ==> final(self).dns.records@ == old(self).dns.records@,
            records_named(old(self).dns.records@, GATEWAY_NAME@).len() == 0 ==> final(self).dns.records@.len() == old(self).dns.records@.len() + 1
                && final(self).dns.records@.last().name@ == GATEWAY_NAME@
                && final(self).dns.records@.last().data == RecordData::Address(IpAddress::V4(v4_value(10, 0, 1, 1))),
    {
        if self.get_records(GATEWAY_NAME).is_some() {
            return Ok(());
        }
        self.add_record(a_record(GATEWAY_NAME, 10, 0, 1, 1));
        Ok(())
    }

    /// Adds `node<i>.vx0` at 10.0.2.<i> for i = 1..=count.
    pub fn create_node_records(&mut self, node_count: u8) -> (r: Result<(), DNSError>)
        ensures
            r is Ok,
            final(self).dns.records@.len() == old(self).dns.records@.len() + node_count,
            forall|i: int| 0 <= i < node_count ==> {
                let rec = #[trigger] final(self).dns.records@[old(self).dns.records@.len() + i];
                &&& rec.name@ == node_name((i + 1) as nat)
                &&& rec.record_type == RecordType::A
                &&& rec.data == RecordData::Address(IpAddress::V4(v4_value(10, 0, 2, (i + 1) as u8)))
            },
            forall|i: int| 0 <= i < old(self).dns.records@.len() ==> #[trigger] final(self).dns.records@[i] == old(self).dns.records@[i],
    {
        let mut i: u32 = 1;
        let ghost n0 = self.dns.records@.len();
        while i <= node_count as u32
            invariant
                1 <= i <= node_count as u32 + 1,
                self.dns.records@.len() == n0 + (i - 1),
                n0 == old(self).dns.records@.len(),
                forall|k: int| 0 <= k < i - 1 ==> {
                    let rec = #[trigger] self.dns.records@[n0 + k];
                    &&& rec.name@ == node_name((k + 1) as nat)
                    &&& rec.record_type == RecordType::A
                    &&& rec.data == RecordData::Address(IpAddress::V4(v4_value(10, 0, 2, (k + 1) as u8)))
                },
                forall|k: int| 0 <= k < n0 ==> #[trigger] self.dns.records@[k] == old(self).dns.records@[k],
            decreases node_count as u32 + 1 - i,
        {
            let mut name = String::from_str("node");
            push_decimal(&mut name, i);
            name.append(RESERVED_SUFFIX);
            let rec = DNSRecord {
                name,
                record_type: RecordType::A,
                data: RecordData::Address(IpAddress::v4(10, 0, 2, i as u8)),
                ttl: DEFAULT_TTL,
                timestamp: now_millis(),
            };
            self.add_record(rec);
            i += 1;
        }
        Ok(())
    }
}

/// A fresh store answers `vx0.network` with 10.0.1.1 and, through the
/// overlay's table, `node1.vx0` with 10.0.2.1.
pub proof fn lemma_fresh_store_answers(recs: Seq<DNSRecord>)
    requires
        seeded(recs),
    ensures
        spec_resolver_answer(recs, GATEWAY_NAME@) == Some(IpAddress::V4(v4_value(10, 0, 1, 1))),
        spec_resolver_answer(recs, "node1.vx0"@) == Some(IpAddress::V4(v4_value(10, 0, 2, 1))),
{
    reveal_strlit("gateway.vx0");
    reveal_strlit("ns1.vx0");
    reveal_strlit("ns2.vx0");
    reveal_strlit("vx0.network");
    reveal_strlit("node1.vx0");
    reveal_strlit(".vx0");
    assert(recs[0].name@[0] != GATEWAY_NAME@[0]);
    assert(recs[0].name@ != GATEWAY_NAME@);
    assert(recs[1].name@.len() != GATEWAY_NAME@.len());
    assert(recs[2].name@.len() != GATEWAY_NAME@.len());
    let r1 = recs.drop_first();
    let r2 = r1.drop_first();
    let r3 = r2.drop_first();
    let r4 = r3.drop_first();
    assert(r1[0] == recs[1] && r2[0] == recs[2] && r3[0] == recs[3] && r4.len() == 0);
    let g = GATEWAY_NAME@;
    assert(record_address(recs[3], g) == Some(IpAddress::V4(v4_value(10, 0, 1, 1))));
    assert(record_address(recs[0], g) is None);
    assert(record_address(recs[1], g) is None);
    assert(record_address(recs[2], g) is None);
    assert(first_address(r3, g) == Some(IpAddress::V4(v4_value(10, 0, 1, 1))));
    assert(first_address(r2, g) == first_address(r3, g));
    assert(first_address(r1, g) == first_address(r2, g));
    assert(first_address(recs, g) == first_address(r1, g));
    let n = "node1.vx0"@;
    assert(n.subrange(5, 9) =~= RESERVED_SUFFIX@);
    assert(is_reserved(n));
    assert(recs[0].name@.len() != n.len());
    assert(recs[1].name@.len() != n.len());
    assert(recs[2].name@.len() != n.len());
    assert(recs[3].name@.len() != n.len());
    assert(first_address(r4, n) is None);
    assert(first_address(r3, n) is None);
    assert(first_address(r2, n) is None);
    assert(first_address(r1, n) is None);
    assert(first_address(recs, n) is None);
    assert(n != GATEWAY_NAME@);
    assert(n != "gateway.vx0"@);
}

} // verus!
