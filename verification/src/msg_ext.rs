//! Conversions between signaling messages and session descriptions / ICE candidates.
//!
//! An ICE candidate travels as the base64 encoding of the UTF-8 bytes of its JSON
//! form. Decoding fails with `Base64Decode` when the text is not base64, and with
//! `InvalidFormat` when the decoded bytes are not UTF-8 or not the JSON form of a
//! candidate.

use vstd::prelude::*;
use vstd::utf8::*;

use webrtc::ice_transport::ice_candidate::RTCIceCandidate;
use webrtc::ice_transport::ice_candidate_type::RTCIceCandidateType;
use webrtc::ice_transport::ice_protocol::RTCIceProtocol;

use crate::messages::{sdp_type_of_code, HandshakeMessage, Msg, NotifyDescription, NotifyIce, SdpType};

verus! {

#[verifier::external_type_specification]
#[verifier::external_body]
pub struct ExWebrtcError(webrtc::Error);

/// The kind of a session description on the peer-connection side.
#[derive(Clone, Copy, Debug, PartialEq, Eq, Structural)]
pub enum RtcSdpType {
    Unspecified,
    Offer,
    Pranswer,
    Answer,
    Rollback,
}

pub open spec fn sdp_type_from_rtc(ty: RtcSdpType) -> SdpType {
    match ty {
        RtcSdpType::Unspecified => SdpType::Unspecified,
        RtcSdpType::Offer => SdpType::Offer,
        RtcSdpType::Pranswer => SdpType::Pranswer,
        RtcSdpType::Answer => SdpType::Answer,
        RtcSdpType::Rollback => SdpType::Rollback,
    }
}

pub open spec fn rtc_sdp_type_from(ty: SdpType) -> RtcSdpType {
    match ty {
        SdpType::Unspecified => RtcSdpType::Unspecified,
        SdpType::Offer => RtcSdpType::Offer,
        SdpType::Pranswer => RtcSdpType::Pranswer,
        SdpType::Answer => RtcSdpType::Answer,
        SdpType::Rollback => RtcSdpType::Rollback,
    }
}

impl From<RtcSdpType> for SdpType {
    fn from(ty: RtcSdpType) -> (r: Self)
        ensures
            ty == RtcSdpType::Unspecified <==> r == SdpType::Unspecified,
            ty == RtcSdpType::Offer <==> r == SdpType::Offer,
            ty == RtcSdpType::Pranswer <==> r == SdpType::Pranswer,
            ty == RtcSdpType::Answer <==> r == SdpType::Answer,
            ty == RtcSdpType::Rollback <==> r == SdpType::Rollback,
    {
        match ty {
            RtcSdpType::Unspecified => SdpType::Unspecified,
            RtcSdpType::Offer => SdpType::Offer,
            RtcSdpType::Pranswer => SdpType::Pranswer,
            RtcSdpType::Answer => SdpType::Answer,
            RtcSdpType::Rollback => SdpType::Rollback,
        }
    }
}

impl vstd::std_specs::convert::FromSpecImpl<RtcSdpType> for SdpType {
    open spec fn obeys_from_spec() -> bool {
        true
    }

    open spec fn from_spec(v: RtcSdpType) -> Self {
        sdp_type_from_rtc(v)
    }
}

impl From<SdpType> for RtcSdpType {
    fn from(ty: SdpType) -> (r: Self)
        ensures
            ty == SdpType::Unspecified <==> r == RtcSdpType::Unspecified,
            ty == SdpType::Offer <==> r == RtcSdpType::Offer,
            ty == SdpType::Pranswer <==> r == RtcSdpType::Pranswer,
            ty == SdpType::Answer <==> r == RtcSdpType::Answer,
            ty == SdpType::Rollback <==> r == RtcSdpType::Rollback,
    {
        match ty {
            SdpType::Offer => RtcSdpType::Offer,
            SdpType::Pranswer => RtcSdpType::Pranswer,
            SdpType::Answer => RtcSdpType::Answer,
            SdpType::Rollback => RtcSdpType::Rollback,
            SdpType::Unspecified => RtcSdpType::Unspecified,
        }
    }
}

impl vstd::std_specs::convert::FromSpecImpl<SdpType> for RtcSdpType {
    open spec fn obeys_from_spec() -> bool {
        true
    }

    open spec fn from_spec(v: SdpType) -> Self {
        rtc_sdp_type_from(v)
    }
}

/// Converting a description kind to the wire side and back gives it back.
pub proof fn lemma_rtc_sdp_type_round_trip(ty: RtcSdpType)
    ensures
        rtc_sdp_type_from(sdp_type_from_rtc(ty)) == ty,
{
}

/// Converting a wire description kind to the peer-connection side and back gives it back.
pub proof fn lemma_sdp_type_round_trip(ty: SdpType)
    ensures
        sdp_type_from_rtc(rtc_sdp_type_from(ty)) == ty,
{
}


/// The signaling message that carries a session description.
pub open spec fn notify_of_description(desc: SessionDescription) -> NotifyDescription {
    NotifyDescription { sdp_type: sdp_type_from_rtc(desc.sdp_type).spec_code(), sdp: desc.sdp }
}

/// The session description that a signaling message carries; an unknown kind
/// code reads as `Unspecified`.
pub open spec fn description_of_notify(msg: NotifyDescription) -> SessionDescription {
    SessionDescription { sdp_type: rtc_sdp_type_from(sdp_type_of_code(msg.sdp_type)), sdp: msg.sdp }
}

/// A session description on the peer-connection side.
#[derive(Clone, Debug, PartialEq, Eq)]
pub struct SessionDescription {
    pub sdp_type: RtcSdpType,
    pub sdp: String,
}

impl From<SessionDescription> for NotifyDescription {
    fn from(desc: SessionDescription) -> (msg: Self)
        ensures
            msg.sdp == desc.sdp,
            desc.sdp_type == RtcSdpType::Unspecified ==> msg.sdp_type == 0,
            desc.sdp_type == RtcSdpType::Offer ==> msg.sdp_type == 1,
            desc.sdp_type == RtcSdpType::Pranswer ==> msg.sdp_type == 2,
            desc.sdp_type == RtcSdpType::Answer ==> msg.sdp_type == 3,
            desc.sdp_type == RtcSdpType::Rollback ==> msg.sdp_type == 4,
    {
        let mut msg = NotifyDescription::new();
        msg.set_sdp_type(SdpType::from(desc.sdp_type));
        msg.sdp = desc.sdp;
        msg
    }
}

impl vstd::std_specs::convert::FromSpecImpl<SessionDescription> for NotifyDescription {
    open spec fn obeys_from_spec() -> bool {
        true
    }

    open spec fn from_spec(v: SessionDescription) -> Self {
        notify_of_description(v)
    }
}

impl From<NotifyDescription> for SessionDescription {
    fn from(msg: NotifyDescription) -> (desc: Self)
        ensures
            desc.sdp == msg.sdp,
            msg.sdp_type == 1 ==> desc.sdp_type == RtcSdpType::Offer,
            msg.sdp_type == 2 ==> desc.sdp_type == RtcSdpType::Pranswer,
            msg.sdp_type == 3 ==> desc.sdp_type == RtcSdpType::Answer,
            msg.sdp_type == 4 ==> desc.sdp_type == RtcSdpType::Rollback,
            !(1 <= msg.sdp_type <= 4) ==> desc.sdp_type == RtcSdpType::Unspecified,
    {
        let sdp_type = RtcSdpType::from(msg.sdp_type());
        SessionDescription { sdp_type, sdp: msg.sdp }
    }
}

impl vstd::std_specs::convert::FromSpecImpl<NotifyDescription> for SessionDescription {
    open spec fn obeys_from_spec() -> bool {
        true
    }

    open spec fn from_spec(v: NotifyDescription) -> Self {
        description_of_notify(v)
    }
}

/// Law: sending a description keeps its text and its kind, carried under the
/// kind's wire code (unspecified 0, offer 1, provisional answer 2, answer 3,
/// rollback 4); reading a message keeps its text and gives the kind its code
/// names, an unknown code reading as unspecified.
pub proof fn lemma_description_kind_is_kept(desc: SessionDescription, msg: NotifyDescription)
    ensures
        notify_of_description(desc).sdp == desc.sdp,
        desc.sdp_type == RtcSdpType::Unspecified ==> notify_of_description(desc).sdp_type == 0,
        desc.sdp_type == RtcSdpType::Offer ==> notify_of_description(desc).sdp_type == 1,
        desc.sdp_type == RtcSdpType::Pranswer ==> notify_of_description(desc).sdp_type == 2,
        desc.sdp_type == RtcSdpType::Answer ==> notify_of_description(desc).sdp_type == 3,
        desc.sdp_type == RtcSdpType::Rollback ==> notify_of_description(desc).sdp_type == 4,
        description_of_notify(msg).sdp == msg.sdp,
        msg.sdp_type == 1 ==> description_of_notify(msg).sdp_type == RtcSdpType::Offer,
        msg.sdp_type == 2 ==> description_of_notify(msg).sdp_type == RtcSdpType::Pranswer,
        msg.sdp_type == 3 ==> description_of_notify(msg).sdp_type == RtcSdpType::Answer,
        msg.sdp_type == 4 ==> description_of_notify(msg).sdp_type == RtcSdpType::Rollback,
        !(1 <= msg.sdp_type <= 4) ==> description_of_notify(msg).sdp_type == RtcSdpType::Unspecified,
{
}

/// Law: the kind conversions keep each kind's name, in both directions.
pub proof fn lemma_sdp_kind_names_are_kept(rtc: RtcSdpType, wire: SdpType)
    ensures
        rtc == RtcSdpType::Unspecified <==> sdp_type_from_rtc(rtc) == SdpType::Unspecified,
        rtc == RtcSdpType::Offer <==> sdp_type_from_rtc(rtc) == SdpType::Offer,
        rtc == RtcSdpType::Pranswer <==> sdp_type_from_rtc(rtc) == SdpType::Pranswer,
        rtc == RtcSdpType::Answer <==> sdp_type_from_rtc(rtc) == SdpType::Answer,
        rtc == RtcSdpType::Rollback <==> sdp_type_from_rtc(rtc) == SdpType::Rollback,
        wire == SdpType::Unspecified <==> rtc_sdp_type_from(wire) == RtcSdpType::Unspecified,
        wire == SdpType::Offer <==> rtc_sdp_type_from(wire) == RtcSdpType::Offer,
        wire == SdpType::Pranswer <==> rtc_sdp_type_from(wire) == RtcSdpType::Pranswer,
        wire == SdpType::Answer <==> rtc_sdp_type_from(wire) == RtcSdpType::Answer,
        wire == SdpType::Rollback <==> rtc_sdp_type_from(wire) == RtcSdpType::Rollback,
{
}

/// A session description sent as a signaling message and read back is the same description.
pub proof fn lemma_description_round_trip(desc: SessionDescription)
    ensures
        description_of_notify(notify_of_description(desc)) == desc,
{
}

/// A signaling message whose kind code is known reads as a description that
/// converts back to the same message.
pub proof fn lemma_notify_round_trip(msg: NotifyDescription)
    requires
        SdpType::spec_from_code(msg.sdp_type) is Some,
    ensures
        notify_of_description(description_of_notify(msg)) == msg,
{
}

/// An ICE candidate as exchanged between peers.
#[derive(Clone, Debug, PartialEq, Eq)]
pub struct IceCandidateInit {
    pub candidate: String,
    pub sdp_mid: Option<String>,
    pub sdp_mline_index: Option<u16>,
    pub username_fragment: Option<String>,
}

/// The value of an ICE candidate.
pub struct IceCandidateView {
    pub candidate: Seq<char>,
    pub sdp_mid: Option<Seq<char>>,
    pub sdp_mline_index: Option<u16>,
    pub username_fragment: Option<Seq<char>>,
}

pub open spec fn opt_text(s: Option<String>) -> Option<Seq<char>> {
    match s {
        Some(t) => Some(t@),
        None => None,
    }
}

impl View for IceCandidateInit {
    type V = IceCandidateView;

    open spec fn view(&self) -> IceCandidateView {
        IceCandidateView {
            candidate: self.candidate@,
            sdp_mid: opt_text(self.sdp_mid),
            sdp_mline_index: self.sdp_mline_index,
            username_fragment: opt_text(self.username_fragment),
        }
    }
}

/// Why a signaled ICE candidate could not be read.
#[derive(Clone, Copy, Debug, PartialEq, Eq, Structural)]
pub enum DeserializationError {
    Base64Decode,
    InvalidFormat,
}

impl DeserializationError {
    /// The text that describes the error.
    pub fn to_string(&self) -> (s: String)
        ensures
            *self == DeserializationError::Base64Decode ==> s@ == "Base64 decode error"@,
            *self == DeserializationError::InvalidFormat ==> s@ == "Formatted incorrectly"@,
    {
        match self {
            DeserializationError::Base64Decode => String::from_str("Base64 decode error"),
            DeserializationError::InvalidFormat => String::from_str("Formatted incorrectly"),
        }
    }
}

/// The bytes that the standard base64 alphabet decodes `text` to, if it is valid base64.
pub uninterp spec fn base64_decoding(text: Seq<u8>) -> Option<Seq<u8>>;

/// The standard, padded base64 encoding of `bytes`.
pub uninterp spec fn base64_encoding(bytes: Seq<u8>) -> Seq<char>;

/// The ICE candidate that `text` is the JSON form of, if it is one.
pub uninterp spec fn json_ice_candidate(text: Seq<char>) -> Option<IceCandidateView>;

/// The JSON form of an ICE candidate.
pub uninterp spec fn ice_candidate_json(candidate: IceCandidateView) -> Seq<char>;

/// Calls `str::len`: the number of bytes of the UTF-8 encoding of `s`, which for a
/// string held in memory is at most `isize::MAX` (no allocation exceeds it).
#[verifier::external_body]
fn byte_len(s: &str) -> (n: usize)
    ensures
        n == encode_utf8(s@).len(),
        n <= isize::MAX,
{
    s.len()
}

/// Calls `base64::decode` (standard alphabet) on the bytes of `text`; the crate's
/// error becomes its message text, which is left unsaid. The crate panics only
/// where the length plus 7 overflows.
#[verifier::external_body]
fn base64_decode(text: &str) -> (r: Result<Vec<u8>, String>)
    requires
        encode_utf8(text@).len() <= isize::MAX,
    ensures
        match r {
            Ok(bytes) => base64_decoding(encode_utf8(text@)) == Some(bytes@),
            Err(_) => base64_decoding(encode_utf8(text@)) is None,
        },
{
    base64::decode(text).map_err(|e| e.to_string())
}

/// Calls `base64::encode` (standard alphabet, padded) on the bytes of `text`.
/// The result is ASCII, four characters for every started group of three bytes,
/// and `base64::decode` gives the bytes back. The crate panics only where the
/// output length overflows `usize`.
#[verifier::external_body]
fn base64_encode(text: &str) -> (r: String)
    requires
        encode_utf8(text@).len() <= isize::MAX,
    ensures
        r@ == base64_encoding(encode_utf8(text@)),
        encode_utf8(r@).len() == (encode_utf8(text@).len() + 2) / 3 * 4,
        base64_decoding(encode_utf8(r@)) == Some(encode_utf8(text@)),
{
    base64::encode(text)
}

/// Calls `String::from_utf8`: succeeds exactly on valid UTF-8, and then holds the
/// characters the bytes encode; the std error becomes its message text, which is
/// left unsaid.
#[verifier::external_body]
fn string_from_utf8(bytes: Vec<u8>) -> (r: Result<String, String>)
    ensures
        r is Ok <==> valid_utf8(bytes@),
        r matches Ok(s) ==> s@ == decode_utf8(bytes@),
{
    String::from_utf8(bytes).map_err(|e| e.to_string())
}

/// Calls `serde_json::from_str::<RTCIceCandidateInit>` and moves the fields of the
/// parsed candidate into an `IceCandidateInit`; the parse error becomes its
/// message text, which is left unsaid.
#[verifier::external_body]
fn parse_candidate_json(text: &str) -> (r: Result<IceCandidateInit, String>)
    ensures
        match r {
            Ok(c) => json_ice_candidate(text@) == Some(c@),
            Err(_) => json_ice_candidate(text@) is None,
        },
{
    match serde_json::from_str::<webrtc::ice_transport::ice_candidate::RTCIceCandidateInit>(text) {
        Ok(c) => Ok(IceCandidateInit {
            candidate: c.candidate,
            sdp_mid: c.sdp_mid,
            sdp_mline_index: c.sdp_mline_index,
            username_fragment: c.username_fragment,
        }),
        Err(e) => Err(e.to_string()),
    }
}

/// Calls `serde_json::to_string` on the `RTCIceCandidateInit` with the fields of
/// `candidate`. Its derived `Serialize` (string, optional string and optional
/// integer fields) cannot fail, and its derived `Deserialize` reads the output
/// back as the same candidate.
#[verifier::external_body]
fn candidate_to_json(candidate: &IceCandidateInit) -> (r: String)
    ensures
        r@ == ice_candidate_json(candidate@),
        json_ice_candidate(r@) == Some(candidate@),
{
    let init = webrtc::ice_transport::ice_candidate::RTCIceCandidateInit {
        candidate: candidate.candidate.clone(),
        sdp_mid: candidate.sdp_mid.clone(),
        sdp_mline_index: candidate.sdp_mline_index,
        username_fragment: candidate.username_fragment.clone(),
    };
    serde_json::to_string(&init).unwrap()
}

/// What reading a signaled candidate text gives.
pub open spec fn decoded_candidate(text: Seq<char>) -> Result<IceCandidateView, DeserializationError> {
    match base64_decoding(encode_utf8(text)) {
        None => Err(DeserializationError::Base64Decode),
        Some(bytes) => if !valid_utf8(bytes) {
            Err(DeserializationError::InvalidFormat)
        } else {
            match json_ice_candidate(decode_utf8(bytes)) {
                None => Err(DeserializationError::InvalidFormat),
                Some(c) => Ok(c),
            }
        },
    }
}

/// Law of reading a signaled candidate: the result depends only on the bytes the
/// text's base64 decodes to. When they are valid UTF-8 forming the JSON of a
/// candidate, the result is that candidate, whatever the text's exact spelling;
/// texts that decode to the same bytes read alike; text that is not base64 is a
/// base64 error, and bytes that are not UTF-8 or not a candidate's JSON are a
/// format error.
pub proof fn lemma_reading_depends_only_on_decoded_bytes(
    text: Seq<char>,
    other: Seq<char>,
    bytes: Seq<u8>,
    c: IceCandidateView,
)
    ensures
        base64_decoding(encode_utf8(text)) == Some(bytes) && valid_utf8(bytes) && json_ice_candidate(
            decode_utf8(bytes),
        ) == Some(c) ==> decoded_candidate(text) == Ok::<IceCandidateView, DeserializationError>(c),
        base64_decoding(encode_utf8(text)) == base64_decoding(encode_utf8(other)) ==> decoded_candidate(text)
            == decoded_candidate(other),
        base64_decoding(encode_utf8(text)) is None ==> decoded_candidate(text) == Err::<
            IceCandidateView,
            DeserializationError,
        >(DeserializationError::Base64Decode),
        base64_decoding(encode_utf8(text)) == Some(bytes) && !valid_utf8(bytes) ==> decoded_candidate(text)
            == Err::<IceCandidateView, DeserializationError>(DeserializationError::InvalidFormat),
        base64_decoding(encode_utf8(text)) == Some(bytes) && valid_utf8(bytes) && json_ice_candidate(
            decode_utf8(bytes),
        ) is None ==> decoded_candidate(text) == Err::<IceCandidateView, DeserializationError>(
            DeserializationError::InvalidFormat,
        ),
{
}

/// The text with which a candidate is signaled.
pub open spec fn signaled_candidate_text(candidate: IceCandidateView) -> Seq<char> {
    base64_encoding(encode_utf8(ice_candidate_json(candidate)))
}

impl IceCandidateInit {
    /// Reads the candidate that a signaling message carries; on failure, gives the
    /// kind of the error and the message text of the error met while decoding.
    pub fn decode(value: &NotifyIce) -> (r: Result<IceCandidateInit, (DeserializationError, String)>)
        ensures
            match r {
                Ok(c) => decoded_candidate(value.json_base64@) == Ok::<IceCandidateView, DeserializationError>(c@),
                Err((e, _)) => decoded_candidate(value.json_base64@) == Err::<IceCandidateView, DeserializationError>(e),
            },
    {
        let text = value.json_base64.as_str();
        // The text is in memory, so its length is bounded well below the
        // overflow that `base64::decode` guards against.
        let _len = byte_len(text);
        let bytes = match base64_decode(text) {
            Ok(bytes) => bytes,
            Err(message) => return Err((DeserializationError::Base64Decode, message)),
        };
        let json = match string_from_utf8(bytes) {
            Ok(json) => json,
            Err(message) => return Err((DeserializationError::InvalidFormat, message)),
        };
        match parse_candidate_json(json.as_str()) {
            Ok(c) => Ok(c),
            Err(message) => Err((DeserializationError::InvalidFormat, message)),
        }
    }

    /// Reads the candidate that a signaling message carries.
    pub fn try_from(value: NotifyIce) -> (r: Result<IceCandidateInit, DeserializationError>)
        ensures
            match r {
                Ok(c) => decoded_candidate(value.json_base64@) == Ok::<IceCandidateView, DeserializationError>(c@),
                Err(e) => decoded_candidate(value.json_base64@) == Err::<IceCandidateView, DeserializationError>(e),
            },
    {
        match IceCandidateInit::decode(&value) {
            Ok(c) => Ok(c),
            Err((e, _message)) => Err(e),
        }
    }
}

impl NotifyIce {
    /// The signaling message that carries `candidate`; reading it back gives the candidate.
    pub fn from_init(candidate: &IceCandidateInit) -> (r: NotifyIce)
        ensures
            r.json_base64@ == signaled_candidate_text(candidate@),
            decoded_candidate(r.json_base64@) == Ok::<IceCandidateView, DeserializationError>(candidate@),
    {
        let json = candidate_to_json(candidate);
        // The JSON text is in memory, so its encoded length cannot overflow.
        let _len = byte_len(json.as_str());
        let json_base64 = base64_encode(json.as_str());
        proof {
            broadcast use encode_utf8_valid_utf8, encode_utf8_decode_utf8;
        }
        NotifyIce { json_base64 }
    }
}

/// The transport protocol of a local ICE candidate.
#[derive(Clone, Copy, Debug, PartialEq, Eq, Structural)]
pub enum IceProtocol {
    Unspecified,
    Udp,
    Tcp,
}

/// The type of a local ICE candidate.
#[derive(Clone, Copy, Debug, PartialEq, Eq, Structural)]
pub enum IceCandidateType {
    Unspecified,
    Host,
    Srflx,
    Prflx,
    Relay,
}

/// A local ICE candidate, as the peer connection gathers it.
#[derive(Clone, Debug, PartialEq, Eq)]
pub struct LocalCandidate {
    pub stats_id: String,
    pub foundation: String,
    pub priority: u32,
    pub address: String,
    pub protocol: IceProtocol,
    pub port: u16,
    pub typ: IceCandidateType,
    pub component: u16,
    pub related_address: String,
    pub related_port: u16,
    pub tcp_type: String,
}

/// The value of a local ICE candidate.
pub struct LocalCandidateView {
    pub stats_id: Seq<char>,
    pub foundation: Seq<char>,
    pub priority: u32,
    pub address: Seq<char>,
    pub protocol: IceProtocol,
    pub port: u16,
    pub typ: IceCandidateType,
    pub component: u16,
    pub related_address: Seq<char>,
    pub related_port: u16,
    pub tcp_type: Seq<char>,
}

impl View for LocalCandidate {
    type V = LocalCandidateView;

    open spec fn view(&self) -> LocalCandidateView {
        LocalCandidateView {
            stats_id: self.stats_id@,
            foundation: self.foundation@,
            priority: self.priority,
            address: self.address@,
            protocol: self.protocol,
            port: self.port,
            typ: self.typ,
            component: self.component,
            related_address: self.related_address@,
            related_port: self.related_port,
            tcp_type: self.tcp_type@,
        }
    }
}

/// Whether computing the candidate's priority cannot overflow: webrtc-ice computes
/// a priority of 0 as `... + (256 - component)`, which overflows for a component
/// above 256.
pub open spec fn has_computable_priority(candidate: LocalCandidateView) -> bool {
    candidate.priority != 0 || candidate.component <= 256
}

/// The candidate that `RTCIceCandidate::to_json` gives for a local candidate with
/// these fields, if the conversion succeeds.
pub uninterp spec fn local_candidate_json_init(candidate: LocalCandidateView) -> Option<IceCandidateView>;

/// Whether a candidate has the shape that `RTCIceCandidate::to_json` gives:
/// its text starts with `candidate:`, its media stream id is empty, its media
/// line index is 0 and it has no username fragment.
pub open spec fn is_local_candidate_shape(c: IceCandidateView) -> bool {
    &&& c.candidate.len() >= 10
    &&& c.candidate.take(10) == "candidate:"@
    &&& c.sdp_mid == Some(Seq::<char>::empty())
    &&& c.sdp_mline_index == Some(0u16)
    &&& c.username_fragment is None
}

/// Calls `RTCIceCandidate::to_json` on the `RTCIceCandidate` with the fields of
/// `c`, and moves the fields of the result into an `IceCandidateInit`. Its source
/// computes the result from those fields alone: it fails on an unspecified
/// candidate type or an address the candidate's type does not accept, and
/// otherwise builds the text as `candidate:` followed by the marshaled candidate,
/// with an empty media stream id, media line index 0 and no username fragment.
/// The marshaled text and the error are left unsaid. Marshaling overflows (and
/// panics) when the priority is 0 and the component above 256.
#[verifier::external_body]
fn local_candidate_init(c: LocalCandidate) -> (r: Result<IceCandidateInit, webrtc::Error>)
    requires
        has_computable_priority(c@),
    ensures
        match local_candidate_json_init(c@) {
            Some(v) => r matches Ok(i) && i@ == v,
            None => r is Err,
        },
        r matches Ok(i) ==> is_local_candidate_shape(i@),
{
    let LocalCandidate { stats_id, foundation, priority, address, protocol, port, typ, component, related_address, related_port, tcp_type } = c;
    let protocol = match protocol { IceProtocol::Unspecified => RTCIceProtocol::Unspecified, IceProtocol::Udp => RTCIceProtocol::Udp, IceProtocol::Tcp => RTCIceProtocol::Tcp };
    let typ = match typ { IceCandidateType::Unspecified => RTCIceCandidateType::Unspecified, IceCandidateType::Host => RTCIceCandidateType::Host, IceCandidateType::Srflx => RTCIceCandidateType::Srflx, IceCandidateType::Prflx => RTCIceCandidateType::Prflx, IceCandidateType::Relay => RTCIceCandidateType::Relay };
    let ice = RTCIceCandidate { stats_id, foundation, priority, address, protocol, port, typ, component, related_address, related_port, tcp_type };
    let i = ice.to_json()?;
    Ok(IceCandidateInit { candidate: i.candidate, sdp_mid: i.sdp_mid, sdp_mline_index: i.sdp_mline_index, username_fragment: i.username_fragment })
}

impl NotifyIce {
    /// The signaling message that carries a local ICE candidate: the base64 of the
    /// JSON form that the candidate's conversion gives; that conversion's error is
    /// passed on. The candidate's priority must be computable.
    pub fn from(ice: LocalCandidate) -> (r: Result<NotifyIce, webrtc::Error>)
        requires
            has_computable_priority(ice@),
        ensures
            match local_candidate_json_init(ice@) {
                Some(v) => r matches Ok(n) && {
                    &&& is_local_candidate_shape(v)
                    &&& n.json_base64@ == signaled_candidate_text(v)
                    &&& decoded_candidate(n.json_base64@) == Ok::<IceCandidateView, DeserializationError>(v)
                },
                None => r is Err,
            },
    {
        let init = local_candidate_init(ice)?;
        Ok(NotifyIce::from_init(&init))
    }
}

impl HandshakeMessage {
    /// The signaling message that carries a session description (an offer or an answer).
    pub fn from_description(desc: SessionDescription) -> (m: HandshakeMessage)
        ensures
            m.msg == Some(Msg::Description(notify_of_description(desc))),
    {
        HandshakeMessage { msg: Some(Msg::Description(NotifyDescription::from(desc))) }
    }

    /// The signaling message that carries an ICE candidate.
    pub fn from_ice(ice: NotifyIce) -> (m: HandshakeMessage)
        ensures
            m.msg == Some(Msg::Ice(ice)),
    {
        HandshakeMessage { msg: Some(Msg::Ice(ice)) }
    }
}

} // verus!
