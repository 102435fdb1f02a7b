//! Peering messages in their structured form: Open, Update (withdrawn
//! networks, path attributes, announced networks), Notification, Keepalive.
use vstd::prelude::*;
use crate::addr::{IpAddress, Prefix};
use crate::rib::{BGPOrigin, RouteEntry, RouteModel, copy_vec, models};

verus! {

pub const BGP_ERROR_MESSAGE_HEADER: u8 = 1;
pub const BGP_ERROR_OPEN_MESSAGE: u8 = 2;
pub const BGP_ERROR_UPDATE_MESSAGE: u8 = 3;
pub const BGP_ERROR_HOLD_TIMER_EXPIRED: u8 = 4;
pub const BGP_ERROR_FSM: u8 = 5;
pub const BGP_ERROR_CEASE: u8 = 6;

pub const BGP_ATTR_ORIGIN: u8 = 1;
pub const BGP_ATTR_AS_PATH: u8 = 2;
pub const BGP_ATTR_NEXT_HOP: u8 = 3;
pub const BGP_ATTR_MULTI_EXIT_DISC: u8 = 4;
pub const BGP_ATTR_LOCAL_PREF: u8 = 5;
pub const BGP_ATTR_COMMUNITIES: u8 = 8;

/// Attribute flags: well-known, and optional non-transitive.
pub const FLAG_WELL_KNOWN: u8 = 0x40;
pub const FLAG_OPTIONAL: u8 = 0x80;

#[derive(Debug)]
pub struct OptionalParameter {
    pub parameter_type: u8,
    pub parameter_length: u8,
    pub parameter_value: Vec<u8>,
}

#[derive(Debug)]
pub struct OpenMessage {
    pub version: u8,
    pub my_asn: u32,
    pub hold_time: u16,
    pub bgp_identifier: IpAddress,
    pub optional_parameters: Vec<OptionalParameter>,
}

#[derive(Debug)]
pub enum AttributeValue {
    Origin(BGPOrigin),
    AsPath(Vec<u32>),
    NextHop(IpAddress),
    MultiExitDisc(u32),
    LocalPref(u32),
    Communities(Vec<u32>),
    Unknown(Vec<u8>),
}

/// The value of an attribute.
pub enum AttributeModel {
    Origin(BGPOrigin),
    AsPath(Seq<u32>),
    NextHop(IpAddress),
    MultiExitDisc(u32),
    LocalPref(u32),
    Communities(Seq<u32>),
    Unknown(Seq<u8>),
}

impl View for AttributeValue {
    type V = AttributeModel;

    open spec fn view(&self) -> AttributeModel {
        match self {
            AttributeValue::Origin(o) => AttributeModel::Origin(*o),
            AttributeValue::AsPath(p) => AttributeModel::AsPath(p@),
            AttributeValue::NextHop(a) => AttributeModel::NextHop(*a),
            AttributeValue::MultiExitDisc(m) => AttributeModel::MultiExitDisc(*m),
            AttributeValue::LocalPref(l) => AttributeModel::LocalPref(*l),
            AttributeValue::Communities(c) => AttributeModel::Communities(c@),
            AttributeValue::Unknown(u) => AttributeModel::Unknown(u@),
        }
    }
}

#[derive(Debug)]
pub struct PathAttribute {
    pub flags: u8,
    pub type_code: u8,
    pub length: u16,
    pub value: AttributeValue,
}

/// Value of an attribute: flags, type code, length and value.
pub open spec fn attr_view(a: PathAttribute) -> (u8, u8, u16, AttributeModel) {
    (a.flags, a.type_code, a.length, a.value@)
}

#[derive(Debug)]
pub struct UpdateMessage {
    pub withdrawn_routes: Vec<Prefix>,
    pub path_attributes: Vec<PathAttribute>,
    pub network_layer_reachability_info: Vec<Prefix>,
}

#[derive(Debug)]
pub struct NotificationMessage {
    pub error_code: u8,
    pub error_subcode: u8,
    pub data: Vec<u8>,
}

#[derive(Debug)]
pub enum BGPMessage {
    Open(OpenMessage),
    Update(UpdateMessage),
    Notification(NotificationMessage),
    Keepalive,
}

/// The attributes that describe one route: origin, as_path and next hop
/// always (the as_path length field is four bytes per ASN, modulo 2^16);
/// local_pref when it is not the default 100; med when not 0.
pub open spec fn route_attrs(m: RouteModel) -> Seq<(u8, u8, u16, AttributeModel)> {
    seq![
        (FLAG_WELL_KNOWN, BGP_ATTR_ORIGIN, 1u16, AttributeModel::Origin(m.origin)),
        (FLAG_WELL_KNOWN, BGP_ATTR_AS_PATH, ((m.as_path.len() * 4) % 0x10000) as u16, AttributeModel::AsPath(m.as_path)),
        (FLAG_WELL_KNOWN, BGP_ATTR_NEXT_HOP, 4u16, AttributeModel::NextHop(m.next_hop)),
    ] + (if m.local_pref != 100 {
        seq![(FLAG_WELL_KNOWN, BGP_ATTR_LOCAL_PREF, 4u16, AttributeModel::LocalPref(m.local_pref))]
    } else {
        Seq::empty()
    }) + (if m.med != 0 {
        seq![(FLAG_OPTIONAL, BGP_ATTR_MULTI_EXIT_DISC, 4u16, AttributeModel::MultiExitDisc(m.med))]
    } else {
        Seq::empty()
    })
}

/// The attributes of a list of routes, route after route.
pub open spec fn all_attrs(s: Seq<RouteModel>) -> Seq<(u8, u8, u16, AttributeModel)>
    decreases s.len(),
{
    if s.len() == 0 {
        Seq::empty()
    } else {
        all_attrs(s.drop_last()) + route_attrs(s.last())
    }
}

pub open spec fn attr_views(v: Seq<PathAttribute>) -> Seq<(u8, u8, u16, AttributeModel)> {
    v.map_values(|a: PathAttribute| attr_view(a))
}

fn push_attr(out: &mut Vec<PathAttribute>, flags: u8, type_code: u8, length: u16, value: AttributeValue)
    ensures
        attr_views(final(out)@) == attr_views(old(out)@).push((flags, type_code, length, value@)),
{
    let ghost pre = out@;
    out.push(PathAttribute { flags, type_code, length, value });
    assert(attr_views(out@) =~= attr_views(pre).push((flags, type_code, length, value@)));
}

impl BGPMessage {
    pub fn new_open(asn: u32, hold_time: u16, router_id: IpAddress) -> (r: BGPMessage)
        ensures
            r matches BGPMessage::Open(o) && o.version == 4 && o.my_asn == asn && o.hold_time == hold_time
                && o.bgp_identifier == router_id && o.optional_parameters@.len() == 0,
    {
        BGPMessage::Open(OpenMessage {
            version: 4,
            my_asn: asn,
            hold_time,
            bgp_identifier: router_id,
            optional_parameters: Vec::new(),
        })
    }

    pub fn new_keepalive() -> (r: BGPMessage)
        ensures
            r is Keepalive,
    {
        BGPMessage::Keepalive
    }

    /// An update announcing `routes`: their networks in order, and for each
    /// the attributes of `route_attrs`; nothing withdrawn.
    pub fn new_update(routes: Vec<RouteEntry>) -> (r: BGPMessage)
        ensures
            r matches BGPMessage::Update(u)
                && u.withdrawn_routes@.len() == 0
                && u.network_layer_reachability_info@ == models(routes@).map_values(|m: RouteModel| m.network)
                && attr_views(u.path_attributes@) == all_attrs(models(routes@)),
    {
        let mut nlri: Vec<Prefix> = Vec::new();
        let mut path_attributes: Vec<PathAttribute> = Vec::new();
        let mut i: usize = 0;
        while i < routes.len()
            invariant
                i <= routes@.len(),
                nlri@ == models(routes@).subrange(0, i as int).map_values(|m: RouteModel| m.network),
                attr_views(path_attributes@) == all_attrs(models(routes@).subrange(0, i as int)),
            decreases routes.len() - i,
        {
            let route = &routes[i];
            let ghost m = route@;
            let ghost before = attr_views(path_attributes@);
            nlri.push(route.network);
            push_attr(&mut path_attributes, FLAG_WELL_KNOWN, BGP_ATTR_ORIGIN, 1, AttributeValue::Origin(route.origin));
            let n = route.as_path.len();
            let path_len: u16 = ((n % 0x4000) * 4) as u16;
            proof {
                assert((n as int % 0x4000) * 4 == (n as int * 4) % 0x10000) by (nonlinear_arith);
            }
            assert(path_len == ((m.as_path.len() * 4) % 0x10000) as u16);
            push_attr(&mut path_attributes, FLAG_WELL_KNOWN, BGP_ATTR_AS_PATH, path_len,
                AttributeValue::AsPath(copy_vec(&route.as_path)));
            push_attr(&mut path_attributes, FLAG_WELL_KNOWN, BGP_ATTR_NEXT_HOP, 4, AttributeValue::NextHop(route.next_hop));
            if route.local_pref != 100 {
                push_attr(&mut path_attributes, FLAG_WELL_KNOWN, BGP_ATTR_LOCAL_PREF, 4, AttributeValue::LocalPref(route.local_pref));
            }
            if route.med != 0 {
                push_attr(&mut path_attributes, FLAG_OPTIONAL, BGP_ATTR_MULTI_EXIT_DISC, 4, AttributeValue::MultiExitDisc(route.med));
            }
            proof {
                let s = models(routes@).subrange(0, i + 1);
                assert(s.drop_last() =~= models(routes@).subrange(0, i as int));
                assert(s.last() == m);
                assert(attr_views(path_attributes@) =~= before + route_attrs(m));
                assert(nlri@ =~= models(routes@).subrange(0, i + 1).map_values(|m: RouteModel| m.network));
            }
            i += 1;
        }
        assert(models(routes@).subrange(0, i as int) =~= models(routes@));
        BGPMessage::Update(UpdateMessage {
            withdrawn_routes: Vec::new(),
            path_attributes,
            network_layer_reachability_info: nlri,
        })
    }

    pub fn new_notification(error_code: u8, error_subcode: u8, data: Vec<u8>) -> (r: BGPMessage)
        ensures
            r matches BGPMessage::Notification(n) && n.error_code == error_code
                && n.error_subcode == error_subcode && n.data@ == data@,
    {
        BGPMessage::Notification(NotificationMessage { error_code, error_subcode, data })
    }
}

} // verus!
