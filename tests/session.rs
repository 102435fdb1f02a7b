use vx0net_daemon::addr::{IpAddress, Prefix};
use vx0net_daemon::daemon::BGPDaemon;
use vx0net_daemon::policy::RoutingPolicy;
use vx0net_daemon::protocol::{BGPError, BGPMessageType, BGPProtocol, BGPRoute, FrameStatus, check_frame, encode_frame, event_for, split_frame};
use vx0net_daemon::rib::{BGPOrigin, RouteEntry};
use vx0net_daemon::session::{BGPSession, BGPSessionState, SessionAction, SessionEvent, keepalive_interval, step};
use vx0net_daemon::tier::NodeTier;

#[test]
fn active_open_reaches_established() {
    let mut s = BGPSession::new(65001, 65002, IpAddress::v4(192, 0, 2, 2));
    assert_eq!(s.handle_event(SessionEvent::StartActive), SessionAction::InitiateConnection);
    assert_eq!(s.state, BGPSessionState::Connect);
    assert_eq!(s.handle_event(SessionEvent::ConnectionOk), SessionAction::SendOpen);
    assert_eq!(s.state, BGPSessionState::OpenSent);
    assert_eq!(s.handle_event(SessionEvent::OpenReceived { valid: true }), SessionAction::SendKeepalive);
    assert_eq!(s.state, BGPSessionState::OpenConfirm);
    assert_eq!(s.handle_event(SessionEvent::KeepaliveReceived), SessionAction::StartKeepaliveTimer);
    assert!(s.is_established());
    assert_eq!(s.handle_event(SessionEvent::UpdateReceived), SessionAction::ApplyUpdate);
    assert_eq!(s.close(), SessionAction::NotifyCease);
    assert_eq!(s.state, BGPSessionState::Idle);
}

#[test]
fn passive_open_and_failures() {
    assert_eq!(step(BGPSessionState::Idle, SessionEvent::StartPassive), (BGPSessionState::Active, SessionAction::AwaitOpen));
    assert_eq!(step(BGPSessionState::Active, SessionEvent::OpenReceived { valid: true }), (BGPSessionState::OpenConfirm, SessionAction::SendOpen));
    assert_eq!(step(BGPSessionState::OpenSent, SessionEvent::OpenReceived { valid: false }), (BGPSessionState::Idle, SessionAction::CloseConnection));
    assert_eq!(step(BGPSessionState::Established, SessionEvent::HoldTimerExpired), (BGPSessionState::Idle, SessionAction::NotifyHoldTimerExpired));
    assert_eq!(step(BGPSessionState::OpenConfirm, SessionEvent::TransportError), (BGPSessionState::Idle, SessionAction::CloseConnection));
    assert_eq!(step(BGPSessionState::Connect, SessionEvent::UpdateReceived), (BGPSessionState::Idle, SessionAction::CloseConnection));
    assert_eq!(keepalive_interval(90), 30);
    assert_eq!(keepalive_interval(10), 3);
}

#[test]
fn send_update_needs_established_session() {
    let s = BGPSession::new(65001, 65002, IpAddress::v4(192, 0, 2, 2));
    assert!(matches!(s.send_update(&vec![]), Err(BGPError::Protocol(_))));
}

#[test]
fn frames_round_trip() {
    let payload = b"{\"message_type\":\"Keepalive\"}".to_vec();
    let frame = encode_frame(&payload).unwrap();
    assert_eq!(&frame[..4], &[0, 0, 0, payload.len() as u8]);
    let mut buf = frame.clone();
    buf.extend_from_slice(&[9, 9]);
    let (p, rest) = split_frame(&buf).unwrap().unwrap();
    assert_eq!(p, payload);
    assert_eq!(rest, vec![9, 9]);
    assert!(split_frame(&frame[..frame.len() - 1].to_vec()).unwrap().is_none());
    assert_eq!(check_frame(&vec![0, 0]).unwrap(), FrameStatus::Incomplete);
}

#[test]
fn oversized_frames_are_protocol_errors() {
    assert!(encode_frame(&vec![0u8; 65536]).is_ok());
    assert!(matches!(encode_frame(&vec![0u8; 65537]), Err(BGPError::Protocol(_))));
    assert!(matches!(check_frame(&vec![0, 1, 0, 1]), Err(BGPError::Protocol(_))));
    assert_eq!(check_frame(&vec![0, 1, 0, 0]).unwrap(), FrameStatus::Incomplete);
}

#[test]
fn open_response_must_be_open() {
    let proto = BGPProtocol::new(65001, IpAddress::v4(10, 0, 0, 1), NodeTier::Backbone);
    let open = proto.message(BGPMessageType::Open, 0);
    let s = proto.accept_open_response(IpAddress::v4(10, 0, 0, 2), &open).unwrap();
    assert_eq!(s.peer_asn, 65001);
    let keepalive = proto.message(BGPMessageType::Keepalive, 0);
    assert!(matches!(proto.accept_open_response(IpAddress::v4(10, 0, 0, 2), &keepalive), Err(BGPError::Protocol(_))));
    assert_eq!(event_for(BGPMessageType::Update), SessionEvent::UpdateReceived);
}

#[test]
fn daemon_applies_updates_from_established_sessions() {
    let peer_ip = IpAddress::v4(192, 0, 2, 2);
    let mut d = BGPDaemon::new(65001, IpAddress::v4(10, 0, 0, 1), Some(179));
    let policy = RoutingPolicy::new(65001, NodeTier::Backbone);
    let announced = vec![BGPRoute {
        network: Prefix::v4(10, 50, 0, 0, 16).unwrap(),
        next_hop: peer_ip,
        as_path: vec![65009],
        origin: BGPOrigin::IGP,
        local_pref: 100,
        med: 0,
    }];
    assert!(matches!(d.handle_update(&peer_ip, &policy, &vec![], &announced, 7), Err(BGPError::Protocol(_))));
    let mut s = BGPSession::new(65001, 65002, peer_ip);
    s.handle_event(SessionEvent::StartActive);
    d.register_session(s);
    assert!(matches!(d.handle_update(&peer_ip, &policy, &vec![], &announced, 7), Err(BGPError::Protocol(_))));
    let mut s = BGPSession::new(65001, 65002, peer_ip);
    for e in [SessionEvent::StartActive, SessionEvent::ConnectionOk, SessionEvent::OpenReceived { valid: true }, SessionEvent::KeepaliveReceived] {
        s.handle_event(e);
    }
    d.register_session(s);
    assert_eq!(d.session_count(), 1);
    assert_eq!(d.handle_update(&peer_ip, &policy, &vec![], &announced, 7).unwrap(), 1);
    let routes: Vec<RouteEntry> = d.get_routes();
    assert_eq!(routes[0].as_path, vec![65002, 65009]);
    d.shutdown();
    assert_eq!(d.sessions[0].state, BGPSessionState::Idle);
}

#[test]
fn open_message_names_the_peer() {
    let mut s = BGPSession::new(65001, 0, IpAddress::v4(192, 0, 2, 2));
    s.handle_event(SessionEvent::StartPassive);
    assert_eq!(s.handle_message(BGPMessageType::Open, 65007), SessionAction::SendOpen);
    assert_eq!(s.peer_asn, 65007);
    assert_eq!(s.handle_message(BGPMessageType::Keepalive, 1), SessionAction::StartKeepaliveTimer);
    assert_eq!(s.peer_asn, 65007);
}
