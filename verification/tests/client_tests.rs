use car_host::client::{is_h264_mime_type, on_server_message, ClientAction};
use car_host::messages::{HandshakeMessage, Msg, NotifyDescription, NotifyIce};
use car_host::msg_ext::{DeserializationError, IceCandidateInit, RtcSdpType};

#[test]
fn offer_is_accepted() {
    let m = HandshakeMessage { msg: Some(Msg::Description(NotifyDescription { sdp_type: 1, sdp: "offer".to_string() })) };
    match on_server_message(m) {
        Ok(ClientAction::AcceptOffer(d)) => {
            assert_eq!(d.sdp_type, RtcSdpType::Offer);
            assert_eq!(d.sdp, "offer");
        }
        _ => panic!("expected the offer to be accepted"),
    }
}

#[test]
fn candidate_is_added() {
    let c = IceCandidateInit {
        candidate: "candidate:x".to_string(),
        sdp_mid: Some(String::new()),
        sdp_mline_index: Some(0),
        username_fragment: None,
    };
    let m = HandshakeMessage::from_ice(NotifyIce::from_init(&c));
    match on_server_message(m) {
        Ok(ClientAction::AddIceCandidate(x)) => assert_eq!(x, c),
        _ => panic!("expected the candidate"),
    }
}

#[test]
fn empty_message_is_ignored() {
    assert!(matches!(on_server_message(HandshakeMessage { msg: None }), Ok(ClientAction::Nothing)));
}

#[test]
fn unreadable_candidate_is_an_error() {
    let m = HandshakeMessage::from_ice(NotifyIce { json_base64: "bm90IGpzb24=".to_string() });
    assert!(matches!(on_server_message(m), Err(DeserializationError::InvalidFormat)));
}

#[test]
fn h264_tracks_are_forwarded() {
    assert!(is_h264_mime_type("video/H264"));
    assert!(is_h264_mime_type("video/h264"));
    assert!(is_h264_mime_type("VIDEO/H264"));
    assert!(!is_h264_mime_type("video/VP8"));
    assert!(!is_h264_mime_type(""));
}
