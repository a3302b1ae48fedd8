//! The controls data channel: thumbstick updates from the headset are handed to a
//! receiver. Updates can arrive out of order; a receiver acts only on an update
//! newer than every update it acted on before.

pub mod ros;
pub mod txt;

use vstd::prelude::*;

use crate::messages::ThumbstickDirection;

verus! {

/// Hands out the receivers of a controls channel.
pub struct ControlsMediaProvider<F> where F: ControlsReceiverFactory {
    factory: F,
}

/// Acts on the thumbstick updates that arrive on a controls channel.
pub trait ControlsReceiver {
    type Err;

    fn recv(&mut self, controls: ThumbstickDirection) -> Result<(), Self::Err>;
}

/// Creates a receiver for each controls channel.
pub trait ControlsReceiverFactory {
    type Receiver: ControlsReceiver;

    fn create_receiver(&self) -> Self::Receiver;
}

impl<F> ControlsMediaProvider<F> where F: ControlsReceiverFactory {
    pub closed spec fn spec_factory(&self) -> F {
        self.factory
    }

    pub fn new(factory: F) -> (p: Self)
        ensures
            p.spec_factory() == factory,
    {
        Self { factory }
    }

    /// The factory that creates the receivers of this provider's channels.
    pub fn factory(&self) -> (f: &F)
        ensures
            *f == self.spec_factory(),
    {
        &self.factory
    }
}

/// One step of the ordering gate: an update is passed when its sequence number
/// is greater than the latest passed one, which it then becomes.
pub open spec fn gate_step(latest: i64, seq_num: i64) -> (i64, bool) {
    if seq_num > latest {
        (seq_num, true)
    } else {
        (latest, false)
    }
}

/// The latest passed sequence number after a series of updates, and the
/// sequence numbers passed, in order.
pub open spec fn gate_run(latest: i64, seq_nums: Seq<i64>) -> (i64, Seq<i64>)
    decreases seq_nums.len(),
{
    if seq_nums.len() == 0 {
        (latest, Seq::empty())
    } else {
        let (l, passed) = gate_run(latest, seq_nums.drop_last());
        let (l2, ok) = gate_step(l, seq_nums.last());
        (l2, if ok { passed.push(seq_nums.last()) } else { passed })
    }
}

/// The greatest of a starting value and a series of sequence numbers.
pub open spec fn max_seq(latest: i64, seq_nums: Seq<i64>) -> i64
    decreases seq_nums.len(),
{
    if seq_nums.len() == 0 {
        latest
    } else {
        let m = max_seq(latest, seq_nums.drop_last());
        if seq_nums.last() > m {
            seq_nums.last()
        } else {
            m
        }
    }
}

/// Law of the ordering gate: accepted updates come in strictly increasing order
/// of sequence number, each above the initial bound, and the final bound is the
/// maximum over the initial bound and all sequence numbers offered.
pub proof fn lemma_gate_passes_increasing(latest: i64, seq_nums: Seq<i64>)
    ensures
        gate_run(latest, seq_nums).0 == max_seq(latest, seq_nums),
        gate_run(latest, seq_nums).0 >= latest,
        forall|i: int, j: int|
            #![trigger gate_run(latest, seq_nums).1[i], gate_run(latest, seq_nums).1[j]]
            0 <= i < j < gate_run(latest, seq_nums).1.len() ==> gate_run(latest, seq_nums).1[i]
                < gate_run(latest, seq_nums).1[j],
        forall|i: int|
            #![trigger gate_run(latest, seq_nums).1[i]]
            0 <= i < gate_run(latest, seq_nums).1.len() ==> latest < gate_run(latest, seq_nums).1[i]
                <= gate_run(latest, seq_nums).0,
    decreases seq_nums.len(),
{
    if seq_nums.len() > 0 {
        lemma_gate_passes_increasing(latest, seq_nums.drop_last());
        let (l, passed) = gate_run(latest, seq_nums.drop_last());
        let (l2, ok) = gate_step(l, seq_nums.last());
        if ok {
            let p2 = passed.push(seq_nums.last());
            assert forall|i: int| 0 <= i < p2.len() implies latest < #[trigger] p2[i] <= l2 by {
                if i < passed.len() {
                    assert(p2[i] == passed[i]);
                }
            }
        }
    }
}

/// Law of the ordering gate, for a single update: it is accepted just when its sequence
/// number is greater than the latest accepted one, and the latest accepted number
/// becomes the greater of the two.
pub proof fn lemma_gate_accepts_exactly_newer(latest: i64, seq_num: i64)
    ensures
        gate_step(latest, seq_num).1 <==> seq_num > latest,
        gate_step(latest, seq_num).0 >= latest,
        gate_step(latest, seq_num).0 >= seq_num,
        gate_step(latest, seq_num).0 == latest || gate_step(latest, seq_num).0 == seq_num,
{
}

/// Law of the ordering gate, over a series of updates: an offered update is accepted just when its
/// sequence number exceeds the initial bound and every number offered before it.
pub proof fn lemma_gate_accepts_record_highs(latest: i64, seq_nums: Seq<i64>, x: i64)
    ensures
        x > max_seq(latest, seq_nums) ==> gate_run(latest, seq_nums.push(x)).1 == gate_run(latest, seq_nums).1.push(x),
        x <= max_seq(latest, seq_nums) ==> gate_run(latest, seq_nums.push(x)).1 == gate_run(latest, seq_nums).1,
        x > max_seq(latest, seq_nums) <==> (x > latest && forall|i: int| 0 <= i < seq_nums.len() ==> x > #[trigger] seq_nums[i]),
{
    lemma_gate_passes_increasing(latest, seq_nums);
    assert(seq_nums.push(x).drop_last() =~= seq_nums);
    lemma_max_seq_bounds(latest, seq_nums);
}

proof fn lemma_max_seq_bounds(latest: i64, seq_nums: Seq<i64>)
    ensures
        max_seq(latest, seq_nums) >= latest,
        forall|i: int| 0 <= i < seq_nums.len() ==> max_seq(latest, seq_nums) >= #[trigger] seq_nums[i],
        max_seq(latest, seq_nums) == latest || exists|i: int| 0 <= i < seq_nums.len() && max_seq(latest, seq_nums) == #[trigger] seq_nums[i],
    decreases seq_nums.len(),
{
    if seq_nums.len() > 0 {
        let t = seq_nums.drop_last();
        lemma_max_seq_bounds(latest, t);
        assert forall|i: int| 0 <= i < seq_nums.len() implies max_seq(latest, seq_nums) >= #[trigger] seq_nums[i] by {
            if i < t.len() {
                assert(seq_nums[i] == t[i]);
            }
        }
        if max_seq(latest, t) != latest && max_seq(latest, seq_nums) == max_seq(latest, t) {
            let j = choose|j: int| 0 <= j < t.len() && max_seq(latest, t) == t[j];
            assert(seq_nums[j] == t[j]);
        }
        if max_seq(latest, seq_nums) == seq_nums.last() {
            assert(seq_nums[seq_nums.len() - 1] == seq_nums.last());
        }
    }
}

/// Passes only updates newer than every update passed before.
pub struct SequenceGate {
    latest: i64,
}

impl SequenceGate {
    /// The sequence number of the latest passed update (`i64::MIN` before any).
    pub closed spec fn spec_latest(&self) -> i64 {
        self.latest
    }

    pub fn new() -> (g: Self)
        ensures
            g.spec_latest() == i64::MIN,
    {
        SequenceGate { latest: i64::MIN }
    }

    pub fn latest(&self) -> (l: i64)
        ensures
            l == self.spec_latest(),
    {
        self.latest
    }

    /// Whether the update with this sequence number is newer than every update
    /// passed before; if so it is passed.
    pub fn accept(&mut self, seq_num: i64) -> (ok: bool)
        ensures
            (final(self).spec_latest(), ok) == gate_step(old(self).spec_latest(), seq_num),
            ok == (seq_num > old(self).spec_latest()),
            final(self).spec_latest() == if seq_num > old(self).spec_latest() {
                seq_num
            } else {
                old(self).spec_latest()
            },
    {
        if seq_num <= self.latest {
            false
        } else {
            self.latest = seq_num;
            true
        }
    }
}

} // verus!
