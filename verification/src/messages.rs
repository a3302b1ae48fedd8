//! The signaling and controls messages exchanged with a headset.
//!
//! `SdpType` is carried on the wire as an `i32` code; an unknown code reads back
//! as `SdpType::Unspecified`.

use vstd::prelude::*;

verus! {

/// The kind of a session description, as carried in signaling messages.
#[derive(Clone, Copy, Debug, PartialEq, Eq, Structural)]
pub enum SdpType {
    Unspecified,
    Offer,
    Pranswer,
    Answer,
    Rollback,
}

impl SdpType {
    /// The wire code of a description kind.
    pub open spec fn spec_code(self) -> i32 {
        match self {
            SdpType::Unspecified => 0,
            SdpType::Offer => 1,
            SdpType::Pranswer => 2,
            SdpType::Answer => 3,
            SdpType::Rollback => 4,
        }
    }

    /// The description kind with a given wire code, if there is one.
    pub open spec fn spec_from_code(code: i32) -> Option<SdpType> {
        if code == 0 {
            Some(SdpType::Unspecified)
        } else if code == 1 {
            Some(SdpType::Offer)
        } else if code == 2 {
            Some(SdpType::Pranswer)
        } else if code == 3 {
            Some(SdpType::Answer)
        } else if code == 4 {
            Some(SdpType::Rollback)
        } else {
            None
        }
    }

    pub fn code(self) -> (c: i32)
        ensures
            c == self.spec_code(),
    {
        match self {
            SdpType::Unspecified => 0,
            SdpType::Offer => 1,
            SdpType::Pranswer => 2,
            SdpType::Answer => 3,
            SdpType::Rollback => 4,
        }
    }

    pub fn from_i32(code: i32) -> (r: Option<SdpType>)
        ensures
            r == Self::spec_from_code(code),
    {
        if code == 0 {
            Some(SdpType::Unspecified)
        } else if code == 1 {
            Some(SdpType::Offer)
        } else if code == 2 {
            Some(SdpType::Pranswer)
        } else if code == 3 {
            Some(SdpType::Answer)
        } else if code == 4 {
            Some(SdpType::Rollback)
        } else {
            None
        }
    }
}

/// Law: the wire codes of the description kinds: unspecified 0, offer 1,
/// provisional answer 2, answer 3, rollback 4; every other code names no kind.
pub proof fn lemma_sdp_type_wire_codes(code: i32)
    ensures
        SdpType::Unspecified.spec_code() == 0,
        SdpType::Offer.spec_code() == 1,
        SdpType::Pranswer.spec_code() == 2,
        SdpType::Answer.spec_code() == 3,
        SdpType::Rollback.spec_code() == 4,
        !(0 <= code <= 4) ==> SdpType::spec_from_code(code) is None,
        0 <= code <= 4 ==> (SdpType::spec_from_code(code) matches Some(t) && t.spec_code() == code),
{
}

/// Every description kind reads back from its own wire code.
pub proof fn lemma_sdp_type_code_round_trip(t: SdpType)
    ensures
        SdpType::spec_from_code(t.spec_code()) == Some(t),
{
}

/// A session description as carried in a signaling message.
#[derive(Clone, Debug, PartialEq, Eq)]
pub struct NotifyDescription {
    pub sdp_type: i32,
    pub sdp: String,
}

/// The description kind that a stored wire code reads as.
pub open spec fn sdp_type_of_code(code: i32) -> SdpType {
    match SdpType::spec_from_code(code) {
        Some(t) => t,
        None => SdpType::Unspecified,
    }
}

impl NotifyDescription {
    /// An empty description of unspecified kind.
    pub fn new() -> (d: NotifyDescription)
        ensures
            d.sdp_type == 0,
            d.sdp@ == Seq::<char>::empty(),
    {
        NotifyDescription { sdp_type: 0, sdp: String::new() }
    }

    /// The kind of this description; an unknown code reads as `Unspecified`.
    pub fn sdp_type(&self) -> (t: SdpType)
        ensures
            t == sdp_type_of_code(self.sdp_type),
    {
        match SdpType::from_i32(self.sdp_type) {
            Some(t) => t,
            None => SdpType::Unspecified,
        }
    }

    pub fn set_sdp_type(&mut self, value: SdpType)
        ensures
            final(self).sdp_type == value.spec_code(),
            final(self).sdp == old(self).sdp,
    {
        self.sdp_type = value.code();
    }
}

/// A description kind stored on a message reads back as the same kind.
pub proof fn lemma_set_sdp_type_reads_back(t: SdpType)
    ensures
        sdp_type_of_code(t.spec_code()) == t,
{
}

/// An ICE candidate as carried in a signaling message: its JSON form, base64-encoded.
#[derive(Clone, Debug, PartialEq, Eq)]
pub struct NotifyIce {
    pub json_base64: String,
}

/// The payload of a signaling message.
#[derive(Clone, Debug, PartialEq, Eq)]
pub enum Msg {
    Description(NotifyDescription),
    Ice(NotifyIce),
}

/// A signaling message; a message without payload is refused by the host.
#[derive(Clone, Debug, PartialEq, Eq)]
pub struct HandshakeMessage {
    pub msg: Option<Msg>,
}

/// A thumbstick position update from the headset.
///
/// `dx_bits` and `dy_bits` hold the bit patterns of the two `f64` coordinates;
/// `seq_num` orders the updates.
#[derive(Clone, Copy, Debug, PartialEq, Eq)]
pub struct ThumbstickDirection {
    pub dx_bits: u64,
    pub dy_bits: u64,
    pub seq_num: i64,
}

} // verus!
