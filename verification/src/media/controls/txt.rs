//! A controls receiver that only traces the updates it acts on.

use vstd::prelude::*;

use crate::messages::ThumbstickDirection;

use super::{gate_step, ControlsReceiver, ControlsReceiverFactory, SequenceGate};

verus! {

/// Configuration of the tracing controls receiver; it has no settings.
#[derive(Clone, Copy, Debug, PartialEq, Eq, Structural)]
pub struct TxtControlsReceiverConfig;

impl ControlsReceiverFactory for TxtControlsReceiverConfig {
    type Receiver = TxtControlsReceiver;

    fn create_receiver(&self) -> (r: Self::Receiver)
        ensures
            r.spec_latest() == i64::MIN,
    {
        TxtControlsReceiver::new()
    }
}

/// A controls receiver that acts on (traces) the newest updates only.
pub struct TxtControlsReceiver {
    gate: SequenceGate,
}

impl TxtControlsReceiver {
    /// The sequence number of the latest update acted on (`i64::MIN` before any).
    pub closed spec fn spec_latest(&self) -> i64 {
        self.gate.spec_latest()
    }

    pub fn new() -> (r: Self)
        ensures
            r.spec_latest() == i64::MIN,
    {
        Self { gate: SequenceGate::new() }
    }

    pub fn latest(&self) -> (l: i64)
        ensures
            l == self.spec_latest(),
    {
        self.gate.latest()
    }

    /// Acts on an update if it is newer than every update acted on before; tells
    /// whether it did.
    pub fn accept(&mut self, controls: &ThumbstickDirection) -> (acted: bool)
        ensures
            (final(self).spec_latest(), acted) == gate_step(old(self).spec_latest(), controls.seq_num),
            acted == (controls.seq_num > old(self).spec_latest()),
    {
        self.gate.accept(controls.seq_num)
    }
}

/// The error of a controls receiver. The tracing receiver never returns it.
#[derive(Clone, Copy, Debug, PartialEq, Eq, Structural)]
pub enum ControlsReceiverError {
    Failed,
}

impl ControlsReceiverError {
    /// The text that describes the error.
    pub fn to_string(&self) -> (s: String)
        ensures
            s@ == "Controls receiver error"@,
    {
        String::from_str("Controls receiver error")
    }
}

impl ControlsReceiver for TxtControlsReceiver {
    type Err = ControlsReceiverError;

    fn recv(&mut self, controls: ThumbstickDirection) -> (r: Result<(), ControlsReceiverError>)
        ensures
            r is Ok,
            final(self).spec_latest() == gate_step(old(self).spec_latest(), controls.seq_num).0,
    {
        let _acted = self.accept(&controls);
        Ok(())
    }
}

} // verus!
