use car_host::media::controls::ros::RosControlsReceiverConfig;
use car_host::media::controls::txt::{ControlsReceiverError, TxtControlsReceiver, TxtControlsReceiverConfig};
use car_host::media::controls::{ControlsMediaProvider, ControlsReceiver, ControlsReceiverFactory, SequenceGate};
use car_host::messages::ThumbstickDirection;

fn update(seq_num: i64) -> ThumbstickDirection {
    ThumbstickDirection { dx_bits: 0.5f64.to_bits(), dy_bits: (-0.25f64).to_bits(), seq_num }
}

#[test]
fn receiver_starts_before_every_update() {
    let r = TxtControlsReceiver::new();
    assert_eq!(r.latest(), i64::MIN);
}

#[test]
fn receiver_acts_on_newest_updates_only() {
    let mut r = TxtControlsReceiver::new();
    assert!(r.accept(&update(5)));
    assert!(!r.accept(&update(3)));
    assert!(!r.accept(&update(5)));
    assert!(r.accept(&update(7)));
    assert_eq!(r.latest(), 7);
}

#[test]
fn recv_never_fails_and_tracks_latest() {
    let mut r = TxtControlsReceiver::new();
    for s in [4, 9, 2, 9, 10, -3] {
        assert!(r.recv(update(s)).is_ok());
    }
    assert_eq!(r.latest(), 10);
}

#[test]
fn minimum_sequence_number_is_never_accepted() {
    let mut g = SequenceGate::new();
    assert!(!g.accept(i64::MIN));
    assert!(g.accept(i64::MIN + 1));
    assert!(g.accept(i64::MAX));
    assert!(!g.accept(i64::MAX));
}

#[test]
fn factory_creates_fresh_receivers() {
    let provider = ControlsMediaProvider::new(TxtControlsReceiverConfig);
    let mut r = provider.factory().create_receiver();
    assert_eq!(r.latest(), i64::MIN);
    assert!(r.recv(update(1)).is_ok());
    let r2 = provider.factory().create_receiver();
    assert_eq!(r2.latest(), i64::MIN);
}

#[test]
fn error_text() {
    assert_eq!(ControlsReceiverError::Failed.to_string(), "Controls receiver error");
}

#[test]
fn ros_config_fields() {
    let c = RosControlsReceiverConfig::new("car".to_string(), "/cmd".to_string(), 5);
    assert_eq!(c.ros_node(), "car");
    assert_eq!(c.ros_topic(), "/cmd");
    assert_eq!(c.queue_size(), 5);
}
