use encoder_protocol::types::RESET_ALL_CHANNELS;
use encoder_protocol::{
    create_reset_packet, create_sensor_packet, Packet, ResetCommand, SensorDataPacket,
};

#[test]
fn new_keeps_fields() {
    let p = SensorDataPacket::new(42, [1, -2, 3, -4, 5, -6, 7, -8]);
    assert_eq!(p.seq, 42);
    assert_eq!(p.encoders, [1, -2, 3, -4, 5, -6, 7, -8]);
}

#[test]
fn total_movement_sums_absolute_counts() {
    let p = SensorDataPacket::new(0, [1, -2, 3, -4, 5, -6, 7, -8]);
    assert_eq!(p.total_movement(), 36);
    let z = SensorDataPacket::new(0, [0; 8]);
    assert_eq!(z.total_movement(), 0);
    let big = SensorDataPacket::new(0, [i32::MAX, 0, 0, 0, 0, 0, 0, 0]);
    assert_eq!(big.total_movement(), i32::MAX);
}

#[test]
fn has_movement_detects_any_change() {
    let a = SensorDataPacket::new(1, [0; 8]);
    let b = SensorDataPacket::new(2, [0; 8]);
    assert!(!a.has_movement(&b));
    let c = SensorDataPacket::new(2, [0, 0, 0, 0, 0, 0, 0, -1]);
    assert!(c.has_movement(&a));
}

#[test]
fn reset_commands() {
    assert_eq!(ResetCommand::single(3).encoder_id, 3);
    assert!(!ResetCommand::single(3).resets_all());
    assert_eq!(ResetCommand::all().encoder_id, 255);
    assert!(ResetCommand::all().resets_all());
    assert!(ResetCommand::single(RESET_ALL_CHANNELS).resets_all());
}

#[test]
fn create_packets() {
    let p = create_sensor_packet(7, [1, 2, 3, 4, 5, 6, 7, 8]);
    assert_eq!(p, Packet::SensorData(SensorDataPacket::new(7, [1, 2, 3, 4, 5, 6, 7, 8])));
    assert_ne!(p, create_sensor_packet(7, [1, 2, 3, 4, 5, 6, 7, 9]));
    let r = create_reset_packet(255);
    assert_eq!(r, Packet::Reset(ResetCommand::all()));
    assert_ne!(r, Packet::Ping { timestamp: 255 });
    assert_eq!(Packet::Pong { timestamp: 5 }, Packet::Pong { timestamp: 5 });
}
