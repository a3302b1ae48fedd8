//! The signaling state of a connection to a headset, and the decisions taken on
//! each event of the handshake.
//!
//! Routines registered before the ICE connection is up are held back and run
//! when it comes up; so are remote ICE candidates received before the remote
//! description is set (or the ICE connection is up). Data channels opened by the
//! peer are matched by label against the parameters registered for them, each
//! at most once.

use vstd::prelude::*;

use crate::media::MediaType;
use crate::messages::{HandshakeMessage, Msg, NotifyIce};
use crate::msg_ext::{
    decoded_candidate, description_of_notify, DeserializationError, IceCandidateInit,
    has_computable_priority, is_local_candidate_shape, local_candidate_json_init, signaled_candidate_text, IceCandidateView,
    LocalCandidate, SessionDescription,
};

verus! {

/// A start queue: items are held back until it is released; afterwards they pass
/// straight through.
///
/// `queue_or_pass(q, x)` is the queue after `x` arrives and the item to hand on now.
pub open spec fn queue_or_pass<T>(q: Option<Seq<T>>, x: T) -> (Option<Seq<T>>, Option<T>) {
    match q {
        Some(s) => (Some(s.push(x)), None),
        None => (None, Some(x)),
    }
}

/// Releasing a start queue: the queue afterwards, and the held items in arrival order.
pub open spec fn release<T>(q: Option<Seq<T>>) -> (Option<Seq<T>>, Seq<T>) {
    match q {
        Some(s) => (None, s),
        None => (None, Seq::empty()),
    }
}

/// The items still held by a start queue.
pub open spec fn held<T>(q: Option<Seq<T>>) -> Seq<T> {
    match q {
        Some(s) => s,
        None => Seq::empty(),
    }
}

pub open spec fn opt_seq<T>(o: Option<T>) -> Seq<T> {
    match o {
        Some(x) => seq![x],
        None => Seq::empty(),
    }
}

/// Releasing a start queue a second time releases nothing and leaves it released:
/// a second `Connected` event runs no routine and adds no candidate.
pub proof fn lemma_second_release_is_empty<T>(q: Option<Seq<T>>)
    ensures
        release(release(q).0).0 is None,
        release(release(q).0).1 == Seq::<T>::empty(),
{
}

/// An event on a start queue.
pub enum QueueEvent<T> {
    Arrive(T),
    Release,
}

/// The queue after a series of events, and every item handed on, in order.
pub open spec fn run_queue<T>(q: Option<Seq<T>>, events: Seq<QueueEvent<T>>) -> (Option<Seq<T>>, Seq<T>)
    decreases events.len(),
{
    if events.len() == 0 {
        (q, Seq::empty())
    } else {
        let (q1, out) = run_queue(q, events.drop_last());
        match events.last() {
            QueueEvent::Arrive(x) => {
                let (q2, now) = queue_or_pass(q1, x);
                (q2, out + opt_seq(now))
            },
            QueueEvent::Release => {
                let (q2, now) = release(q1);
                (q2, out + now)
            },
        }
    }
}

/// The items that arrive in a series of events, in order.
pub open spec fn arrivals<T>(events: Seq<QueueEvent<T>>) -> Seq<T>
    decreases events.len(),
{
    if events.len() == 0 {
        Seq::empty()
    } else {
        match events.last() {
            QueueEvent::Arrive(x) => arrivals(events.drop_last()).push(x),
            QueueEvent::Release => arrivals(events.drop_last()),
        }
    }
}

/// No item is lost, repeated or reordered by a start queue: what it hands on,
/// followed by what it still holds, is what it held at first followed by every
/// item that arrived.
pub proof fn lemma_start_queue_delivers_in_order<T>(q: Option<Seq<T>>, events: Seq<QueueEvent<T>>)
    ensures
        run_queue(q, events).1 + held(run_queue(q, events).0) == held(q) + arrivals(events),
    decreases events.len(),
{
    if events.len() > 0 {
        lemma_start_queue_delivers_in_order(q, events.drop_last());
        let (q1, out) = run_queue(q, events.drop_last());
        match events.last() {
            QueueEvent::Arrive(x) => {
                match q1 {
                    Some(s) => {
                        assert(out + s.push(x) =~= (out + s).push(x));
                    },
                    None => {
                        assert(out + seq![x] =~= (out + Seq::<T>::empty()).push(x));
                    },
                }
            },
            QueueEvent::Release => {
                match q1 {
                    Some(s) => {
                        assert(out + s + Seq::<T>::empty() =~= out + s);
                    },
                    None => {
                        assert(out + Seq::<T>::empty() + Seq::<T>::empty() =~= out + Seq::<T>::empty());
                    },
                }
            },
        }
    } else {
        assert(Seq::<T>::empty() + held(q) =~= held(q) + Seq::<T>::empty());
    }
}

/// Once a start queue is released it stays released, and every later item is
/// handed on at once.
pub proof fn lemma_released_queue_passes_through<T>(events: Seq<QueueEvent<T>>)
    ensures
        run_queue(None, events).0 is None,
        run_queue(None, events).1 == arrivals(events),
    decreases events.len(),
{
    if events.len() > 0 {
        lemma_released_queue_passes_through(events.drop_last());
        let out = run_queue(None::<Seq<T>>, events.drop_last()).1;
        match events.last() {
            QueueEvent::Arrive(x) => {
                assert(out + seq![x] =~= out.push(x));
            },
            QueueEvent::Release => {
                assert(out + Seq::<T>::empty() =~= out);
            },
        }
    }
}

/// The map from label to parameters that a list of registrations stands for.
pub open spec fn label_map<P>(s: Seq<(String, P)>) -> Map<Seq<char>, P>
    decreases s.len(),
{
    if s.len() == 0 {
        Map::empty()
    } else {
        label_map(s.drop_last()).insert(s.last().0@, s.last().1)
    }
}

/// The pending receive channels after parameters are registered under `label`.
pub open spec fn recv_after_add<P>(m: Map<Seq<char>, P>, label: Seq<char>, params: P) -> Map<Seq<char>, P> {
    m.insert(label, params)
}

/// The pending receive channels after the peer opens a channel under `label`,
/// and the parameters handed out for it, if any.
pub open spec fn recv_after_take<P>(m: Map<Seq<char>, P>, label: Seq<char>) -> (Map<Seq<char>, P>, Option<P>) {
    (m.remove(label), m.get(label))
}

/// No two registrations share a label.
pub open spec fn labels_distinct<P>(s: Seq<(String, P)>) -> bool {
    forall|i: int, j: int| 0 <= i < j < s.len() ==> s[i].0@ != s[j].0@
}

proof fn lemma_label_map_domain<P>(s: Seq<(String, P)>, k: Seq<char>)
    ensures
        label_map(s).dom().contains(k) <==> exists|i: int| 0 <= i < s.len() && s[i].0@ == k,
    decreases s.len(),
{
    if s.len() > 0 {
        lemma_label_map_domain(s.drop_last(), k);
        if label_map(s).dom().contains(k) && s.last().0@ == k {
            assert(s[s.len() - 1].0@ == k);
        }
        if exists|i: int| 0 <= i < s.len() && s[i].0@ == k {
            let i = choose|i: int| 0 <= i < s.len() && s[i].0@ == k;
            if i < s.len() - 1 {
                assert(s.drop_last()[i].0@ == k);
            }
        }
    }
}

proof fn lemma_label_map_get<P>(s: Seq<(String, P)>, i: int)
    requires
        labels_distinct(s),
        0 <= i < s.len(),
    ensures
        label_map(s).dom().contains(s[i].0@),
        label_map(s)[s[i].0@] == s[i].1,
    decreases s.len(),
{
    if i < s.len() - 1 {
        assert(s.drop_last()[i] == s[i]);
        lemma_label_map_get(s.drop_last(), i);
    }
}

proof fn lemma_label_map_remove<P>(s: Seq<(String, P)>, i: int)
    requires
        labels_distinct(s),
        0 <= i < s.len(),
    ensures
        labels_distinct(s.remove(i)),
        label_map(s.remove(i)) == label_map(s).remove(s[i].0@),
    decreases s.len(),
{
    let k = s[i].0@;
    let t = s.drop_last();
    if i == s.len() - 1 {
        assert(s.remove(i) =~= t);
        lemma_label_map_domain(t, k);
        assert(label_map(t).insert(k, s[i].1).remove(k) =~= label_map(t));
    } else {
        lemma_label_map_remove(t, i);
        assert(s.remove(i) =~= t.remove(i).push(s.last()));
        assert(s.remove(i).drop_last() =~= t.remove(i));
        assert(s.last().0@ != k);
        assert(label_map(t).remove(k).insert(s.last().0@, s.last().1) =~= label_map(t).insert(
            s.last().0@,
            s.last().1,
        ).remove(k));
    }
}

proof fn lemma_label_map_push<P>(s: Seq<(String, P)>, x: (String, P))
    requires
        labels_distinct(s),
        !label_map(s).dom().contains(x.0@),
    ensures
        labels_distinct(s.push(x)),
        label_map(s.push(x)) == label_map(s).insert(x.0@, x.1),
{
    assert(s.push(x).drop_last() =~= s);
    assert forall|i: int, j: int| 0 <= i < j < s.push(x).len() implies s.push(x)[i].0@ != s.push(x)[j].0@ by {
        if j == s.len() {
            lemma_label_map_domain(s, x.0@);
            assert(s[i].0@ != x.0@);
        }
    }
}

/// The state of the ICE connection, as the peer connection reports it.
#[derive(Clone, Copy, Debug, PartialEq, Eq, Structural)]
pub enum IceConnectionState {
    Unspecified,
    New,
    Checking,
    Connected,
    Completed,
    Disconnected,
    Failed,
    Closed,
}

/// The signaling state of a connection to a headset.
pub struct HeadsetConnection<R, C, P> {
    channels: Vec<C>,
    recv_channels: Vec<(String, P)>,
    on_start_routines: Option<Vec<R>>,
    cached_ice_candidates: Option<Vec<IceCandidateInit>>,
}

/// The value of a connection's signaling state.
pub struct HeadsetView<R, C, P> {
    /// Data channels opened by this side.
    pub channels: Seq<C>,
    /// Parameters for data channels that the peer is yet to open, by label.
    pub recv_channels: Map<Seq<char>, P>,
    /// Routines held back until the ICE connection is up; `None` once it was.
    pub routines: Option<Seq<R>>,
    /// Remote candidates held back until they can be added; `None` once they were.
    pub candidates: Option<Seq<IceCandidateInit>>,
}

/// The routines and remote candidates released when the ICE connection comes up.
pub struct ConnectedWork<R> {
    pub routines: Vec<R>,
    pub candidates: Vec<IceCandidateInit>,
}

/// What the host does with a signaling message from the peer.
pub enum InputAction {
    /// Set this remote description, then add the candidates released by
    /// `HeadsetConnection::on_remote_description_set`.
    SetRemoteDescription(SessionDescription),
    /// Add this remote candidate to the peer connection now.
    AddIceCandidate(IceCandidateInit),
    /// The remote candidate was held back; nothing to do now.
    CandidateHeld,
}

/// The remote candidate that a decision asks to add at once, if any.
pub open spec fn candidate_to_add(r: Result<InputAction, HandshakeError>) -> Option<IceCandidateInit> {
    match r {
        Ok(InputAction::AddIceCandidate(c)) => Some(c),
        _ => None,
    }
}

/// Why a signaling message from the peer was refused.
#[derive(Clone, Debug, PartialEq, Eq)]
pub enum HandshakeError {
    /// The message carried no payload.
    EmptyMessage,
    /// The ICE candidate it carried could not be read: the kind of the failure and
    /// the message of the error met while decoding.
    Deserialization(DeserializationError, String),
}

impl HandshakeError {
    /// The text that describes the error.
    pub fn to_string(&self) -> (s: String)
        ensures
            *self == HandshakeError::EmptyMessage ==> s@ == "Received empty message from peer."@,
            self matches HandshakeError::Deserialization(_, message) ==> s@ == message@,
    {
        match self {
            HandshakeError::EmptyMessage => String::from_str("Received empty message from peer."),
            HandshakeError::Deserialization(_, message) => message.clone(),
        }
    }
}

impl<R, C, P> View for HeadsetConnection<R, C, P> {
    type V = HeadsetView<R, C, P>;

    closed spec fn view(&self) -> HeadsetView<R, C, P> {
        HeadsetView {
            channels: self.channels@,
            recv_channels: label_map(self.recv_channels@),
            routines: match self.on_start_routines {
                Some(v) => Some(v@),
                None => None,
            },
            candidates: match self.cached_ice_candidates {
                Some(v) => Some(v@),
                None => None,
            },
        }
    }

}

impl<R, C, P> HeadsetConnection<R, C, P> {
    /// The internal consistency of the state: no two pending data channels share a label.
    pub closed spec fn wf(&self) -> bool {
        labels_distinct(self.recv_channels@)
    }

    /// A fresh connection: nothing registered, routines and candidates held back.
    pub fn new() -> (c: Self)
        ensures
            c.wf(),
            c@.channels == Seq::<C>::empty(),
            c@.recv_channels == Map::<Seq<char>, P>::empty(),
            c@.routines == Some(Seq::<R>::empty()),
            c@.candidates == Some(Seq::<IceCandidateInit>::empty()),
    {
        HeadsetConnection {
            channels: Vec::new(),
            recv_channels: Vec::new(),
            on_start_routines: Some(Vec::new()),
            cached_ice_candidates: Some(Vec::new()),
        }
    }

    /// Records a data channel opened by this side.
    pub fn add_data_channel(&mut self, chn: C)
        requires
            old(self).wf(),
        ensures
            final(self).wf(),
            final(self)@.channels == old(self)@.channels.push(chn),
            final(self)@.recv_channels == old(self)@.recv_channels,
            final(self)@.routines == old(self)@.routines,
            final(self)@.candidates == old(self)@.candidates,
    {
        self.channels.push(chn);
    }

    /// Registers the parameters for the data channel the peer will open under
    /// `label`, replacing any registered before under that label.
    pub fn add_recv_data_channel(&mut self, label: String, params: P)
        requires
            old(self).wf(),
        ensures
            final(self).wf(),
            final(self)@.recv_channels == recv_after_add(old(self)@.recv_channels, label@, params),
            final(self)@.channels == old(self)@.channels,
            final(self)@.routines == old(self)@.routines,
            final(self)@.candidates == old(self)@.candidates,
    {
        let ghost k = label@;
        if let Some(i) = self.position_of(&label) {
            proof {
                lemma_label_map_remove(self.recv_channels@, i as int);
            }
            let _replaced = self.recv_channels.remove(i);
        }
        proof {
            lemma_label_map_domain(self.recv_channels@, k);
        }
        let ghost before = label_map(self.recv_channels@);
        proof {
            lemma_label_map_push(self.recv_channels@, (label, params));
        }
        self.recv_channels.push((label, params));
        assert(label_map(self.recv_channels@) =~= label_map(old(self).recv_channels@).insert(k, params)) by {
            assert(before =~= label_map(old(self).recv_channels@).remove(k));
        }
    }

    /// The index of the registration under `label`, if any.
    fn position_of(&self, label: &String) -> (r: Option<usize>)
        requires
            self.wf(),
        ensures
            match r {
                Some(i) => i < self.recv_channels@.len() && self.recv_channels@[i as int].0@ == label@,
                None => forall|i: int| 0 <= i < self.recv_channels@.len() ==> self.recv_channels@[i].0@ != label@,
            },
    {
        let n = self.recv_channels.len();
        let mut i: usize = 0;
        while i < n
            invariant
                n == self.recv_channels@.len(),
                i <= n,
                forall|j: int| 0 <= j < i ==> self.recv_channels@[j].0@ != label@,
            decreases n - i,
        {
            if self.recv_channels[i].0.eq(label) {
                return Some(i);
            }
            i = i + 1;
        }
        None
    }

    /// Registers a routine to run once the ICE connection is up: it is held back
    /// while the connection is not up yet, and returned to be run at once otherwise.
    pub fn add_routine(&mut self, routine: R) -> (now: Option<R>)
        requires
            old(self).wf(),
        ensures
            final(self).wf(),
            (final(self)@.routines, now) == queue_or_pass(old(self)@.routines, routine),
            final(self)@.channels == old(self)@.channels,
            final(self)@.recv_channels == old(self)@.recv_channels,
            final(self)@.candidates == old(self)@.candidates,
    {
        match &mut self.on_start_routines {
            Some(routines) => {
                routines.push(routine);
                None
            },
            None => Some(routine),
        }
    }

    /// Records what a media provider handed over; returns a routine to run at once,
    /// if the ICE connection is already up.
    pub fn add_media(&mut self, media: MediaType<R, C, P>) -> (now: Option<R>)
        requires
            old(self).wf(),
        ensures
            final(self).wf(),
            match media {
                MediaType::Routine(r) => {
                    &&& (final(self)@.routines, now) == queue_or_pass(old(self)@.routines, r)
                    &&& final(self)@.channels == old(self)@.channels
                    &&& final(self)@.recv_channels == old(self)@.recv_channels
                },
                MediaType::Channel(c) => {
                    &&& now is None
                    &&& final(self)@.channels == old(self)@.channels.push(c)
                    &&& final(self)@.recv_channels == old(self)@.recv_channels
                    &&& final(self)@.routines == old(self)@.routines
                },
                MediaType::RecvChannel { label, params } => {
                    &&& now is None
                    &&& final(self)@.recv_channels == recv_after_add(old(self)@.recv_channels, label@, params)
                    &&& final(self)@.channels == old(self)@.channels
                    &&& final(self)@.routines == old(self)@.routines
                },
            },
            final(self)@.candidates == old(self)@.candidates,
    {
        match media {
            MediaType::Routine(routine) => self.add_routine(routine),
            MediaType::Channel(chn) => {
                self.add_data_channel(chn);
                None
            },
            MediaType::RecvChannel { label, params } => {
                self.add_recv_data_channel(label, params);
                None
            },
        }
    }

    /// Whether remote candidates are still held back.
    pub fn is_caching_candidates(&self) -> (b: bool)
        ensures
            b == self@.candidates is Some,
    {
        self.cached_ice_candidates.is_some()
    }

    /// On a change of the ICE connection state: when it is `Connected`, releases
    /// the held routines (to be run) and the held remote candidates (to be added),
    /// each at most once; on any other state nothing changes.
    pub fn on_ice_connection_state_change(&mut self, state: IceConnectionState) -> (work: ConnectedWork<R>)
        requires
            old(self).wf(),
        ensures
            final(self).wf(),
            state == IceConnectionState::Connected ==> {
                &&& (final(self)@.routines, work.routines@) == release(old(self)@.routines)
                &&& (final(self)@.candidates, work.candidates@) == release(old(self)@.candidates)
            },
            state != IceConnectionState::Connected ==> {
                &&& work.routines@ == Seq::<R>::empty()
                &&& work.candidates@ == Seq::<IceCandidateInit>::empty()
                &&& final(self)@.routines == old(self)@.routines
                &&& final(self)@.candidates == old(self)@.candidates
            },
            final(self)@.channels == old(self)@.channels,
            final(self)@.recv_channels == old(self)@.recv_channels,
    {
        if state == IceConnectionState::Connected {
            let routines = match self.on_start_routines.take() {
                Some(routines) => routines,
                None => Vec::new(),
            };
            let candidates = match self.cached_ice_candidates.take() {
                Some(candidates) => candidates,
                None => Vec::new(),
            };
            ConnectedWork { routines, candidates }
        } else {
            ConnectedWork { routines: Vec::new(), candidates: Vec::new() }
        }
    }

    /// Decides what to do with a signaling message from the peer: a description is
    /// to be set as the remote description; a candidate is held back while
    /// candidates are cached and to be added at once otherwise; a message without
    /// payload, or with a candidate that cannot be read, is refused.
    pub fn on_input_msg(&mut self, msg: HandshakeMessage) -> (r: Result<InputAction, HandshakeError>)
        requires
            old(self).wf(),
        ensures
            final(self).wf(),
            final(self)@.channels == old(self)@.channels,
            final(self)@.recv_channels == old(self)@.recv_channels,
            final(self)@.routines == old(self)@.routines,
            match msg.msg {
                None => {
                    &&& r == Err::<InputAction, HandshakeError>(HandshakeError::EmptyMessage)
                    &&& final(self)@.candidates == old(self)@.candidates
                },
                Some(Msg::Description(d)) => {
                    &&& r matches Ok(InputAction::SetRemoteDescription(desc))
                    &&& desc == description_of_notify(d)
                    &&& final(self)@.candidates == old(self)@.candidates
                },
                Some(Msg::Ice(ice)) => match decoded_candidate(ice.json_base64@) {
                    Err(e) => {
                        &&& r matches Err(HandshakeError::Deserialization(k, _))
                        &&& k == e
                        &&& final(self)@.candidates == old(self)@.candidates
                    },
                    Ok(cv) => exists|c: IceCandidateInit| {
                        &&& c@ == cv
                        &&& (r matches Ok(InputAction::AddIceCandidate(_)) || r matches Ok(InputAction::CandidateHeld))
                        &&& (final(self)@.candidates, candidate_to_add(r))
                            == queue_or_pass(old(self)@.candidates, c)
                    },
                },
            },
    {
        match msg.msg {
            None => Err(HandshakeError::EmptyMessage),
            Some(Msg::Description(description)) => {
                Ok(InputAction::SetRemoteDescription(SessionDescription::from(description)))
            },
            Some(Msg::Ice(ice)) => {
                let candidate = match IceCandidateInit::decode(&ice) {
                    Ok(c) => c,
                    Err((e, message)) => return Err(HandshakeError::Deserialization(e, message)),
                };
                match &mut self.cached_ice_candidates {
                    Some(candidates) => {
                        candidates.push(candidate);
                        Ok(InputAction::CandidateHeld)
                    },
                    None => Ok(InputAction::AddIceCandidate(candidate)),
                }
            },
        }
    }

    /// Once the remote description is set: releases the held remote candidates,
    /// to be added in the order they arrived. Candidates must still be held back.
    pub fn on_remote_description_set(&mut self) -> (candidates: Vec<IceCandidateInit>)
        requires
            old(self).wf(),
            old(self)@.candidates is Some,
        ensures
            final(self).wf(),
            (final(self)@.candidates, candidates@) == release(old(self)@.candidates),
            final(self)@.channels == old(self)@.channels,
            final(self)@.recv_channels == old(self)@.recv_channels,
            final(self)@.routines == old(self)@.routines,
    {
        match self.cached_ice_candidates.take() {
            Some(candidates) => candidates,
            None => Vec::new(),
        }
    }

    /// Takes the parameters registered for the data channel the peer opened under
    /// `label`; a label is matched at most once.
    pub fn take_recv_data_channel(&mut self, label: &String) -> (r: Option<P>)
        requires
            old(self).wf(),
        ensures
            final(self).wf(),
            (final(self)@.recv_channels, r) == recv_after_take(old(self)@.recv_channels, label@),
            final(self)@.channels == old(self)@.channels,
            final(self)@.routines == old(self)@.routines,
            final(self)@.candidates == old(self)@.candidates,
    {
        match self.position_of(label) {
            Some(i) => {
                proof {
                    lemma_label_map_get(self.recv_channels@, i as int);
                    lemma_label_map_remove(self.recv_channels@, i as int);
                }
                let (_l, params) = self.recv_channels.remove(i);
                Some(params)
            },
            None => {
                proof {
                    lemma_label_map_domain(self.recv_channels@, label@);
                }
                assert(label_map(self.recv_channels@).remove(label@) =~= label_map(self.recv_channels@));
                None
            },
        }
    }
}

/// The signaling message that announces a new local ICE candidate to the peer:
/// the base64 of the JSON form that the candidate's conversion gives; none when
/// candidate gathering has ended. The error of the candidate's conversion is
/// passed on. The candidate's priority must be computable.
pub fn local_candidate_message(candidate: Option<LocalCandidate>) -> (r: Result<Option<HandshakeMessage>, webrtc::Error>)
    requires
        candidate matches Some(c) ==> has_computable_priority(c@),
    ensures
        match candidate {
            None => r matches Ok(None),
            Some(c) => match local_candidate_json_init(c@) {
                Some(v) => r matches Ok(Some(m)) && m.msg matches Some(Msg::Ice(n)) && {
                    &&& is_local_candidate_shape(v)
                    &&& n.json_base64@ == signaled_candidate_text(v)
                    &&& decoded_candidate(n.json_base64@) == Ok::<IceCandidateView, DeserializationError>(v)
                },
                None => r is Err,
            },
        },
{
    match candidate {
        None => Ok(None),
        Some(ice) => {
            let n = NotifyIce::from(ice)?;
            Ok(Some(HandshakeMessage::from_ice(n)))
        },
    }
}

/// How an ICE server's credential is to be used.
#[derive(Clone, Copy, Debug, PartialEq, Eq, Structural)]
pub enum IceCredentialType {
    Unspecified,
    Password,
    Oauth,
}

/// An ICE server, reachable at any of its URLs, with the credentials to use it.
#[derive(Clone, Debug, PartialEq, Eq)]
pub struct IceServer {
    pub urls: Vec<String>,
    pub username: String,
    pub credential: String,
    pub credential_type: IceCredentialType,
}

/// Which ICE candidates a peer connection may use.
#[derive(Clone, Copy, Debug, PartialEq, Eq, Structural)]
pub enum IceTransportPolicy {
    Unspecified,
    /// Any candidate.
    All,
    /// Relayed candidates only.
    Relay,
}

/// The host: the media providers whose media every headset connection gets,
/// and the ICE configuration of its peer connections.
pub struct Host<P> {
    ice_servers: Vec<IceServer>,
    ice_transport_policy: IceTransportPolicy,
    providers: Vec<P>,
}

impl<P> Host<P> {
    pub closed spec fn spec_ice_servers(&self) -> Seq<IceServer> {
        self.ice_servers@
    }

    pub closed spec fn spec_providers(&self) -> Seq<P> {
        self.providers@
    }

    pub closed spec fn spec_ice_transport_policy(&self) -> IceTransportPolicy {
        self.ice_transport_policy
    }

    /// A host with these (initialized) providers, no ICE server, and peer
    /// connections that may use any ICE candidate.
    pub fn new(providers: Vec<P>) -> (h: Self)
        ensures
            h.spec_providers() == providers@,
            h.spec_ice_servers() == Seq::<IceServer>::empty(),
            h.spec_ice_transport_policy() == IceTransportPolicy::All,
    {
        Host { ice_servers: Vec::new(), ice_transport_policy: IceTransportPolicy::All, providers }
    }

    /// Which ICE candidates the host's peer connections may use.
    pub fn ice_transport_policy(&self) -> (p: IceTransportPolicy)
        ensures
            p == self.spec_ice_transport_policy(),
    {
        self.ice_transport_policy
    }

    /// Adds an ICE server after those already configured.
    pub fn add_ice_server(self, server: IceServer) -> (h: Self)
        ensures
            h.spec_ice_servers() == self.spec_ice_servers().push(server),
            h.spec_providers() == self.spec_providers(),
            h.spec_ice_transport_policy() == self.spec_ice_transport_policy(),
    {
        let mut host = self;
        host.ice_servers.push(server);
        host
    }

    /// Adds one ICE server for each configured URL, in order, without credentials.
    pub fn add_ice_server_urls(self, urls: Vec<String>) -> (h: Self)
        ensures
            h.spec_providers() == self.spec_providers(),
            h.spec_ice_transport_policy() == self.spec_ice_transport_policy(),
            h.spec_ice_servers().len() == self.spec_ice_servers().len() + urls@.len(),
            forall|i: int| 0 <= i < self.spec_ice_servers().len() ==> h.spec_ice_servers()[i] == self.spec_ice_servers()[i],
            forall|i: int| 0 <= i < urls@.len() ==> {
                let server = #[trigger] h.spec_ice_servers()[self.spec_ice_servers().len() + i];
                &&& server.urls@ == seq![urls@[i]]
                &&& server.username@ == Seq::<char>::empty()
                &&& server.credential@ == Seq::<char>::empty()
                &&& server.credential_type == IceCredentialType::Unspecified
            },
    {
        let mut host = self;
        let n = urls.len();
        let mut i: usize = 0;
        while i < n
            invariant
                n == urls@.len(),
                i <= n,
                host.spec_providers() == self.spec_providers(),
                host.spec_ice_transport_policy() == self.spec_ice_transport_policy(),
                host.spec_ice_servers().len() == self.spec_ice_servers().len() + i,
                forall|k: int| 0 <= k < self.spec_ice_servers().len() ==> host.spec_ice_servers()[k] == self.spec_ice_servers()[k],
                forall|k: int| 0 <= k < i ==> {
                    let server = #[trigger] host.spec_ice_servers()[self.spec_ice_servers().len() + k];
                    &&& server.urls@ == seq![urls@[k]]
                    &&& server.username@ == Seq::<char>::empty()
                    &&& server.credential@ == Seq::<char>::empty()
                    &&& server.credential_type == IceCredentialType::Unspecified
                },
            decreases n - i,
        {
            let mut server_urls: Vec<String> = Vec::new();
            server_urls.push(urls[i].clone());
            let server = IceServer {
                urls: server_urls,
                username: String::new(),
                credential: String::new(),
                credential_type: IceCredentialType::Unspecified,
            };
            host = host.add_ice_server(server);
            i = i + 1;
        }
        host
    }

    pub fn ice_servers(&self) -> (s: &Vec<IceServer>)
        ensures
            s@ == self.spec_ice_servers(),
    {
        &self.ice_servers
    }

    pub fn providers(&self) -> (p: &Vec<P>)
        ensures
            p@ == self.spec_providers(),
    {
        &self.providers
    }
}

/// A data channel's parameters are handed out at most once: when the peer opens
/// a channel under a label just registered, it gets those parameters, the label
/// is no longer pending, and opening it again gets nothing; other labels are
/// untouched.
pub proof fn lemma_recv_channel_taken_once<P>(m: Map<Seq<char>, P>, label: Seq<char>, params: P)
    ensures
        recv_after_take(recv_after_add(m, label, params), label).1 == Some(params),
        recv_after_take(recv_after_add(m, label, params), label).0 == m.remove(label),
        recv_after_take(recv_after_take(recv_after_add(m, label, params), label).0, label).1 is None,
{
    assert(m.insert(label, params).remove(label) =~= m.remove(label));
}

} // verus!
