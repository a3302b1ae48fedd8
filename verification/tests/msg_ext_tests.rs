use car_host::messages::{HandshakeMessage, Msg, NotifyDescription, NotifyIce, SdpType};
use car_host::msg_ext::{
    DeserializationError, IceCandidateInit, IceCandidateType, IceProtocol, LocalCandidate, RtcSdpType, SessionDescription,
};

const SAMPLE_BASE64: &str = "eyJjYW5kaWRhdGUiOiJjYW5kaWRhdGU6MSAxIHVkcCAyMTMwNzA2NDMxIDEwLjAuMC4xIDUwMDAgdHlwIGhvc3QiLCJzZHBNaWQiOiIwIiwic2RwTUxpbmVJbmRleCI6MCwidXNlcm5hbWVGcmFnbWVudCI6bnVsbH0=";

fn sample_candidate() -> IceCandidateInit {
    IceCandidateInit {
        candidate: "candidate:1 1 udp 2130706431 10.0.0.1 5000 typ host".to_string(),
        sdp_mid: Some("0".to_string()),
        sdp_mline_index: Some(0),
        username_fragment: None,
    }
}

#[test]
fn sdp_type_converts_both_ways() {
    let pairs = [
        (RtcSdpType::Unspecified, SdpType::Unspecified),
        (RtcSdpType::Offer, SdpType::Offer),
        (RtcSdpType::Pranswer, SdpType::Pranswer),
        (RtcSdpType::Answer, SdpType::Answer),
        (RtcSdpType::Rollback, SdpType::Rollback),
    ];
    for (rtc, wire) in pairs {
        assert_eq!(SdpType::from(rtc), wire);
        assert_eq!(RtcSdpType::from(wire), rtc);
        assert_eq!(RtcSdpType::from(SdpType::from(rtc)), rtc);
    }
}

#[test]
fn sdp_type_codes() {
    assert_eq!(SdpType::Unspecified.code(), 0);
    assert_eq!(SdpType::Offer.code(), 1);
    assert_eq!(SdpType::Pranswer.code(), 2);
    assert_eq!(SdpType::Answer.code(), 3);
    assert_eq!(SdpType::Rollback.code(), 4);
    assert_eq!(SdpType::from_i32(3), Some(SdpType::Answer));
    assert_eq!(SdpType::from_i32(5), None);
    assert_eq!(SdpType::from_i32(-1), None);
}

#[test]
fn unknown_code_reads_as_unspecified() {
    let d = NotifyDescription { sdp_type: 42, sdp: "v=0".to_string() };
    assert_eq!(d.sdp_type(), SdpType::Unspecified);
    let desc = SessionDescription::from(d);
    assert_eq!(desc.sdp_type, RtcSdpType::Unspecified);
    assert_eq!(desc.sdp, "v=0");
}

#[test]
fn set_sdp_type_keeps_sdp() {
    let mut d = NotifyDescription::new();
    assert_eq!(d.sdp_type, 0);
    assert_eq!(d.sdp, "");
    d.sdp = "v=0".to_string();
    d.set_sdp_type(SdpType::Pranswer);
    assert_eq!(d.sdp_type, 2);
    assert_eq!(d.sdp_type(), SdpType::Pranswer);
    assert_eq!(d.sdp, "v=0");
}

#[test]
fn description_round_trip() {
    let desc = SessionDescription { sdp_type: RtcSdpType::Offer, sdp: "v=0\r\no=- 1 2 IN IP4 0.0.0.0".to_string() };
    let msg = NotifyDescription::from(desc.clone());
    assert_eq!(msg.sdp_type, 1);
    assert_eq!(msg.sdp, desc.sdp);
    assert_eq!(SessionDescription::from(msg), desc);
}

#[test]
fn offer_message_carries_description() {
    let desc = SessionDescription { sdp_type: RtcSdpType::Answer, sdp: "sdp".to_string() };
    let m = HandshakeMessage::from_description(desc);
    assert_eq!(m.msg, Some(Msg::Description(NotifyDescription { sdp_type: 3, sdp: "sdp".to_string() })));
}

#[test]
fn candidate_is_signaled_as_base64_json() {
    let n = NotifyIce::from_init(&sample_candidate());
    assert_eq!(n.json_base64, SAMPLE_BASE64);
}

#[test]
fn signaled_candidate_reads_back() {
    let n = NotifyIce { json_base64: SAMPLE_BASE64.to_string() };
    assert_eq!(IceCandidateInit::try_from(n), Ok(sample_candidate()));
}

#[test]
fn candidate_round_trip() {
    let c = IceCandidateInit {
        candidate: "candidate:2 1 tcp 1 192.168.1.2 9 typ host tcptype active \u{e9}".to_string(),
        sdp_mid: None,
        sdp_mline_index: Some(7),
        username_fragment: Some("ufrag\"x".to_string()),
    };
    let n = NotifyIce::from_init(&c);
    assert_eq!(IceCandidateInit::try_from(n), Ok(c));
}

#[test]
fn missing_optional_fields_read_as_none() {
    let n = NotifyIce { json_base64: "eyJjYW5kaWRhdGUiOiJjIn0=".to_string() };
    let c = IceCandidateInit::try_from(n).unwrap();
    assert_eq!(c.candidate, "c");
    assert_eq!(c.sdp_mid, None);
    assert_eq!(c.sdp_mline_index, None);
    assert_eq!(c.username_fragment, None);
}

#[test]
fn bad_base64_is_refused() {
    let n = NotifyIce { json_base64: "not base64!".to_string() };
    assert_eq!(IceCandidateInit::try_from(n), Err(DeserializationError::Base64Decode));
}

#[test]
fn non_utf8_is_refused() {
    let n = NotifyIce { json_base64: "//79".to_string() };
    assert_eq!(IceCandidateInit::try_from(n), Err(DeserializationError::InvalidFormat));
}

#[test]
fn non_json_is_refused() {
    let n = NotifyIce { json_base64: "bm90IGpzb24=".to_string() };
    assert_eq!(IceCandidateInit::try_from(n), Err(DeserializationError::InvalidFormat));
}

#[test]
fn deserialization_error_text() {
    assert_eq!(DeserializationError::Base64Decode.to_string(), "Base64 decode error");
    assert_eq!(DeserializationError::InvalidFormat.to_string(), "Formatted incorrectly");
}

fn host_candidate() -> LocalCandidate {
    LocalCandidate {
        stats_id: "id".to_string(),
        foundation: "1".to_string(),
        priority: 2130706431,
        address: "10.0.0.1".to_string(),
        protocol: IceProtocol::Udp,
        port: 5000,
        typ: IceCandidateType::Host,
        component: 1,
        related_address: String::new(),
        related_port: 0,
        tcp_type: String::new(),
    }
}

#[test]
fn local_candidate_is_signaled() {
    let n = NotifyIce::from(host_candidate()).expect("host candidate converts");
    assert_eq!(
        n.json_base64,
        "eyJjYW5kaWRhdGUiOiJjYW5kaWRhdGU6MSAxIHVkcCAyMTMwNzA2NDMxIDEwLjAuMC4xIDUwMDAgdHlwIGhvc3QiLCJzZHBNaWQiOiIiLCJzZHBNTGluZUluZGV4IjowLCJ1c2VybmFtZUZyYWdtZW50IjpudWxsfQ=="
    );
    let c = IceCandidateInit::try_from(n).unwrap();
    assert_eq!(c.candidate, "candidate:1 1 udp 2130706431 10.0.0.1 5000 typ host");
    assert_eq!(c.sdp_mid, Some(String::new()));
    assert_eq!(c.sdp_mline_index, Some(0));
    assert_eq!(c.username_fragment, None);
}

#[test]
fn unspecified_local_candidate_fails() {
    let mut c = host_candidate();
    c.typ = IceCandidateType::Unspecified;
    assert!(NotifyIce::from(c).is_err());
}

#[test]
fn host_candidate_with_bad_address_fails() {
    let mut c = host_candidate();
    c.address = "not an address".to_string();
    assert!(NotifyIce::from(c).is_err());
}

#[test]
fn decode_reports_the_underlying_error() {
    let n = NotifyIce { json_base64: "bm90IGpzb24=".to_string() };
    match IceCandidateInit::decode(&n) {
        Err((DeserializationError::InvalidFormat, message)) => assert!(!message.is_empty()),
        _ => panic!("expected a format error"),
    }
    let n = NotifyIce { json_base64: "%%%".to_string() };
    assert!(matches!(IceCandidateInit::decode(&n), Err((DeserializationError::Base64Decode, _))));
}
