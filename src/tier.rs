//! Tier policy: which ASNs belong to which tier, who may peer with whom,
//! how many peers a tier may hold and which route policy it runs.
use vstd::prelude::*;

verus! {

/// The three tiers of the overlay.
#[derive(Debug, Clone, Copy, PartialEq, Eq, Structural)]
pub enum NodeTier {
    /// Core routing infrastructure, ASN 65000-65099.
    Backbone,
    /// Regional distribution hubs, ASN 65100-65999.
    Regional,
    /// User-operated nodes, ASN 66000-69999.
    Edge,
}

/// Route policy that a tier runs.
#[derive(Debug, Clone, Copy, PartialEq, Eq, Structural)]
pub enum RoutePolicy {
    /// Accept and advertise everything that is loop free.
    FullTable,
    /// Filter routes by the tier of the peer.
    RegionalFilter,
    /// Only default routes in, only locally originated routes out.
    DefaultOnly,
}

pub const BACKBONE_MIN_ASN: u32 = 65000;
pub const BACKBONE_MAX_ASN: u32 = 65099;
pub const REGIONAL_MIN_ASN: u32 = 65100;
pub const REGIONAL_MAX_ASN: u32 = 65999;
pub const EDGE_MIN_ASN: u32 = 66000;
pub const EDGE_MAX_ASN: u32 = 69999;

/// Inclusive ASN range of a tier.
pub open spec fn spec_asn_range(t: NodeTier) -> (u32, u32) {
    match t {
        NodeTier::Backbone => (65000u32, 65099u32),
        NodeTier::Regional => (65100u32, 65999u32),
        NodeTier::Edge => (66000u32, 69999u32),
    }
}

/// Whether `asn` lies in the range of tier `t`.
pub open spec fn in_tier_range(t: NodeTier, asn: u32) -> bool {
    spec_asn_range(t).0 <= asn && asn <= spec_asn_range(t).1
}

/// The tier an ASN is classified into; ASNs outside every range count as Edge.
pub open spec fn spec_classify(asn: u32) -> NodeTier {
    if 65000 <= asn && asn <= 65099 {
        NodeTier::Backbone
    } else if 65100 <= asn && asn <= 65999 {
        NodeTier::Regional
    } else {
        NodeTier::Edge
    }
}

/// The peering matrix.
pub open spec fn spec_can_peer(a: NodeTier, b: NodeTier) -> bool {
    match (a, b) {
        (NodeTier::Backbone, NodeTier::Backbone) => true,
        (NodeTier::Backbone, NodeTier::Regional) => true,
        (NodeTier::Regional, NodeTier::Backbone) => true,
        (NodeTier::Regional, NodeTier::Regional) => true,
        (NodeTier::Regional, NodeTier::Edge) => true,
        (NodeTier::Edge, NodeTier::Regional) => true,
        _ => false,
    }
}

pub open spec fn spec_max_peers(t: NodeTier) -> usize {
    match t {
        NodeTier::Backbone => 50usize,
        NodeTier::Regional => 20usize,
        NodeTier::Edge => 5usize,
    }
}

pub open spec fn spec_policy(t: NodeTier) -> RoutePolicy {
    match t {
        NodeTier::Backbone => RoutePolicy::FullTable,
        NodeTier::Regional => RoutePolicy::RegionalFilter,
        NodeTier::Edge => RoutePolicy::DefaultOnly,
    }
}

impl NodeTier {
    pub fn get_asn_range(&self) -> (r: (u32, u32))
        ensures
            r == spec_asn_range(*self),
    {
        match self {
            NodeTier::Backbone => (BACKBONE_MIN_ASN, BACKBONE_MAX_ASN),
            NodeTier::Regional => (REGIONAL_MIN_ASN, REGIONAL_MAX_ASN),
            NodeTier::Edge => (EDGE_MIN_ASN, EDGE_MAX_ASN),
        }
    }

    pub fn max_peers(&self) -> (r: usize)
        ensures
            r == spec_max_peers(*self),
    {
        match self {
            NodeTier::Backbone => 50,
            NodeTier::Regional => 20,
            NodeTier::Edge => 5,
        }
    }

    pub fn can_peer_with(&self, other: &NodeTier) -> (r: bool)
        ensures
            r == spec_can_peer(*self, *other),
    {
        match (self, other) {
            (NodeTier::Backbone, NodeTier::Backbone) => true,
            (NodeTier::Backbone, NodeTier::Regional) => true,
            (NodeTier::Regional, NodeTier::Backbone) => true,
            (NodeTier::Regional, NodeTier::Regional) => true,
            (NodeTier::Regional, NodeTier::Edge) => true,
            (NodeTier::Edge, NodeTier::Regional) => true,
            _ => false,
        }
    }

    pub fn route_advertisement_policy(&self) -> (r: RoutePolicy)
        ensures
            r == spec_policy(*self),
    {
        match self {
            NodeTier::Backbone => RoutePolicy::FullTable,
            NodeTier::Regional => RoutePolicy::RegionalFilter,
            NodeTier::Edge => RoutePolicy::DefaultOnly,
        }
    }

    /// Whether `asn` is a legal ASN for this tier.
    pub fn contains_asn(&self, asn: u32) -> (r: bool)
        ensures
            r == in_tier_range(*self, asn),
    {
        let (lo, hi) = self.get_asn_range();
        lo <= asn && asn <= hi
    }
}

/// Classifies an ASN by range; unknown ranges default to Edge.
pub fn classify(asn: u32) -> (r: NodeTier)
    ensures
        r == spec_classify(asn),
{
    if BACKBONE_MIN_ASN <= asn && asn <= BACKBONE_MAX_ASN {
        NodeTier::Backbone
    } else if REGIONAL_MIN_ASN <= asn && asn <= REGIONAL_MAX_ASN {
        NodeTier::Regional
    } else {
        NodeTier::Edge
    }
}

/// The peering matrix is symmetric.
pub proof fn lemma_can_peer_symmetric(a: NodeTier, b: NodeTier)
    ensures
        spec_can_peer(a, b) == spec_can_peer(b, a),
{
}

/// Every ASN in a tier's range is classified into that tier.
pub proof fn lemma_classify_in_range(t: NodeTier, asn: u32)
    requires
        in_tier_range(t, asn),
    ensures
        spec_classify(asn) == t,
{
}

} // verus!
