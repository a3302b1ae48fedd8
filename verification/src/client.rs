//! The decisions of the client side of the handshake: what to do with each
//! signaling message from the server, and which remote tracks to forward.

use vstd::prelude::*;

use crate::messages::{HandshakeMessage, Msg};
use crate::msg_ext::{
    decoded_candidate, description_of_notify, DeserializationError, IceCandidateInit,
    IceCandidateView, SessionDescription,
};

verus! {

/// What the client does with a signaling message from the server.
pub enum ClientAction {
    /// Set this offer as the remote description, then answer it.
    AcceptOffer(SessionDescription),
    /// Add this remote candidate to the peer connection.
    AddIceCandidate(IceCandidateInit),
    /// The message carried no payload; nothing to do.
    Nothing,
}

/// Decides what to do with a signaling message from the server; a candidate that
/// cannot be read is an error.
pub fn on_server_message(msg: HandshakeMessage) -> (r: Result<ClientAction, DeserializationError>)
    ensures
        match msg.msg {
            None => r matches Ok(ClientAction::Nothing),
            Some(Msg::Description(d)) => r matches Ok(ClientAction::AcceptOffer(desc)) && desc
                == description_of_notify(d),
            Some(Msg::Ice(ice)) => match decoded_candidate(ice.json_base64@) {
                Err(e) => r == Err::<ClientAction, DeserializationError>(e),
                Ok(cv) => r matches Ok(ClientAction::AddIceCandidate(c)) && c@ == cv,
            },
        },
{
    match msg.msg {
        None => Ok(ClientAction::Nothing),
        Some(Msg::Description(description)) => Ok(
            ClientAction::AcceptOffer(SessionDescription::from(description)),
        ),
        Some(Msg::Ice(ice)) => {
            let candidate = IceCandidateInit::try_from(ice)?;
            Ok(ClientAction::AddIceCandidate(candidate))
        },
    }
}

/// The lower-case form of a text, as `str::to_lowercase` computes it.
pub uninterp spec fn lowercase(text: Seq<char>) -> Seq<char>;

/// Calls `str::to_lowercase`.
#[verifier::external_body]
fn to_lowercase(text: &str) -> (r: String)
    ensures
        r@ == lowercase(text@),
{
    text.to_lowercase()
}

/// Returns `webrtc::api::media_engine::MIME_TYPE_H264`, which its source defines as `video/H264`.
#[verifier::external_body]
fn h264_mime_type() -> (s: &'static str)
    ensures
        s@ == "video/H264"@,
{
    webrtc::api::media_engine::MIME_TYPE_H264
}

/// Whether a remote track with this codec MIME type is forwarded: the H.264 type,
/// compared without regard to case.
pub fn is_h264_mime_type(mime_type: &str) -> (b: bool)
    ensures
        b == (lowercase(mime_type@) == lowercase("video/H264"@)),
{
    let mime = to_lowercase(mime_type);
    let h264 = to_lowercase(h264_mime_type());
    mime.eq(&h264)
}

} // verus!
