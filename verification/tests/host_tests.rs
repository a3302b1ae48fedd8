use car_host::host::{
    local_candidate_message, HandshakeError, HeadsetConnection, Host, IceConnectionState, IceCredentialType, IceServer,
    IceTransportPolicy, InputAction,
};
use car_host::media::MediaType;
use car_host::messages::{HandshakeMessage, Msg, NotifyDescription, NotifyIce};
use car_host::msg_ext::{DeserializationError, IceCandidateInit, IceCandidateType, IceProtocol, LocalCandidate, RtcSdpType};

type Conn = HeadsetConnection<&'static str, u32, &'static str>;

fn candidate(text: &str) -> IceCandidateInit {
    IceCandidateInit {
        candidate: text.to_string(),
        sdp_mid: Some("0".to_string()),
        sdp_mline_index: Some(0),
        username_fragment: None,
    }
}

fn ice_msg(text: &str) -> HandshakeMessage {
    HandshakeMessage::from_ice(NotifyIce::from_init(&candidate(text)))
}

#[test]
fn routines_wait_for_connection() {
    let mut c = Conn::new();
    assert_eq!(c.add_routine("video"), None);
    assert_eq!(c.add_routine("audio"), None);
    let work = c.on_ice_connection_state_change(IceConnectionState::Checking);
    assert!(work.routines.is_empty());
    let work = c.on_ice_connection_state_change(IceConnectionState::Connected);
    assert_eq!(work.routines, vec!["video", "audio"]);
    assert_eq!(c.add_routine("late"), Some("late"));
    let work = c.on_ice_connection_state_change(IceConnectionState::Connected);
    assert!(work.routines.is_empty());
}

#[test]
fn candidates_are_held_until_description_is_set() {
    let mut c = Conn::new();
    assert!(c.is_caching_candidates());
    assert!(matches!(c.on_input_msg(ice_msg("a")), Ok(InputAction::CandidateHeld)));
    assert!(matches!(c.on_input_msg(ice_msg("b")), Ok(InputAction::CandidateHeld)));
    let d = HandshakeMessage { msg: Some(Msg::Description(NotifyDescription { sdp_type: 3, sdp: "answer".to_string() })) };
    match c.on_input_msg(d) {
        Ok(InputAction::SetRemoteDescription(desc)) => {
            assert_eq!(desc.sdp_type, RtcSdpType::Answer);
            assert_eq!(desc.sdp, "answer");
        }
        _ => panic!("expected a remote description"),
    }
    assert!(c.is_caching_candidates());
    let released = c.on_remote_description_set();
    assert_eq!(released, vec![candidate("a"), candidate("b")]);
    assert!(!c.is_caching_candidates());
    match c.on_input_msg(ice_msg("c")) {
        Ok(InputAction::AddIceCandidate(x)) => assert_eq!(x, candidate("c")),
        _ => panic!("expected the candidate to be added at once"),
    }
}

#[test]
fn connection_releases_held_candidates() {
    let mut c = Conn::new();
    assert!(matches!(c.on_input_msg(ice_msg("a")), Ok(InputAction::CandidateHeld)));
    let work = c.on_ice_connection_state_change(IceConnectionState::Connected);
    assert_eq!(work.candidates, vec![candidate("a")]);
    assert!(!c.is_caching_candidates());
}

#[test]
fn empty_message_is_refused() {
    let mut c = Conn::new();
    assert_eq!(c.on_input_msg(HandshakeMessage { msg: None }).err(), Some(HandshakeError::EmptyMessage));
    assert_eq!(HandshakeError::EmptyMessage.to_string(), "Received empty message from peer.");
}

#[test]
fn unreadable_candidate_is_refused() {
    let mut c = Conn::new();
    let m = HandshakeMessage::from_ice(NotifyIce { json_base64: "%%%".to_string() });
    match c.on_input_msg(m) {
        Err(HandshakeError::Deserialization(DeserializationError::Base64Decode, message)) => assert!(!message.is_empty()),
        _ => panic!("expected a base64 error"),
    }
    let m = HandshakeMessage::from_ice(NotifyIce { json_base64: "bm90IGpzb24=".to_string() });
    assert!(matches!(c.on_input_msg(m), Err(HandshakeError::Deserialization(DeserializationError::InvalidFormat, _))));
    assert_eq!(
        HandshakeError::Deserialization(DeserializationError::InvalidFormat, "expected value".to_string()).to_string(),
        "expected value"
    );
    assert!(c.is_caching_candidates());
}

#[test]
fn receive_channels_are_matched_once() {
    let mut c = Conn::new();
    c.add_recv_data_channel("controls".to_string(), "first");
    c.add_recv_data_channel("video".to_string(), "v");
    c.add_recv_data_channel("controls".to_string(), "second");
    assert_eq!(c.take_recv_data_channel(&"controls".to_string()), Some("second"));
    assert_eq!(c.take_recv_data_channel(&"controls".to_string()), None);
    assert_eq!(c.take_recv_data_channel(&"unknown".to_string()), None);
    assert_eq!(c.take_recv_data_channel(&"video".to_string()), Some("v"));
}

#[test]
fn media_is_dispatched() {
    let mut c = Conn::new();
    assert_eq!(c.add_media(MediaType::Channel(7)), None);
    assert_eq!(c.add_media(MediaType::RecvChannel { label: "ctl".to_string(), params: "p" }), None);
    assert_eq!(c.add_media(MediaType::Routine("r")), None);
    let work = c.on_ice_connection_state_change(IceConnectionState::Connected);
    assert_eq!(work.routines, vec!["r"]);
    assert_eq!(c.add_media(MediaType::Routine("r2")), Some("r2"));
    assert_eq!(c.take_recv_data_channel(&"ctl".to_string()), Some("p"));
}

#[test]
fn no_local_candidate_no_message() {
    assert!(matches!(local_candidate_message(None), Ok(None)));
}

#[test]
fn local_candidate_message_carries_candidate() {
    let ice = LocalCandidate {
        stats_id: String::new(),
        foundation: "1".to_string(),
        priority: 100,
        address: "192.168.0.3".to_string(),
        protocol: IceProtocol::Udp,
        port: 4000,
        typ: IceCandidateType::Host,
        component: 1,
        related_address: String::new(),
        related_port: 0,
        tcp_type: String::new(),
    };
    match local_candidate_message(Some(ice)) {
        Ok(Some(HandshakeMessage { msg: Some(Msg::Ice(n)) })) => {
            let c = IceCandidateInit::try_from(n).unwrap();
            assert_eq!(c.candidate, "candidate:1 1 udp 100 192.168.0.3 4000 typ host");
            assert_eq!(c.sdp_mline_index, Some(0));
        }
        _ => panic!("expected an ICE message"),
    }
}

fn server(urls: &[&str], username: &str, credential: &str, credential_type: IceCredentialType) -> IceServer {
    IceServer {
        urls: urls.iter().map(|u| u.to_string()).collect(),
        username: username.to_string(),
        credential: credential.to_string(),
        credential_type,
    }
}

#[test]
fn host_adds_one_ice_server_per_url() {
    let host: Host<u8> = Host::new(vec![1, 2]);
    assert_eq!(host.ice_transport_policy(), IceTransportPolicy::All);
    let host = host.add_ice_server(server(&["turn:a", "turn:b"], "user", "secret", IceCredentialType::Password));
    let host = host.add_ice_server_urls(vec!["stun:c".to_string(), "stun:d".to_string()]);
    assert_eq!(
        host.ice_servers(),
        &vec![
            server(&["turn:a", "turn:b"], "user", "secret", IceCredentialType::Password),
            server(&["stun:c"], "", "", IceCredentialType::Unspecified),
            server(&["stun:d"], "", "", IceCredentialType::Unspecified),
        ]
    );
    assert_eq!(host.providers(), &vec![1, 2]);
    assert_eq!(host.ice_transport_policy(), IceTransportPolicy::All);
}

#[test]
fn second_connected_event_releases_nothing() {
    let mut c = Conn::new();
    assert_eq!(c.add_routine("r"), None);
    assert!(matches!(c.on_input_msg(ice_msg("a")), Ok(InputAction::CandidateHeld)));
    let first = c.on_ice_connection_state_change(IceConnectionState::Connected);
    assert_eq!(first.routines, vec!["r"]);
    assert_eq!(first.candidates, vec![candidate("a")]);
    let second = c.on_ice_connection_state_change(IceConnectionState::Connected);
    assert!(second.routines.is_empty());
    assert!(second.candidates.is_empty());
    assert!(!c.is_caching_candidates());
}
