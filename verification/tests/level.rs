use meter_bridge::level::AtomicLevel;
use meter_bridge::level::SILENCE;

#[test]
fn fresh_cell_reads_silence() {
    let cell = AtomicLevel::new();
    assert_eq!(cell.read(), SILENCE);
}

#[test]
fn publish_then_read_returns_published_value() {
    let mut cell = AtomicLevel::new();
    cell.publish((0.5f32).to_bits());
    assert_eq!(f32::from_bits(cell.read()), 0.5);
}

#[test]
fn latest_publish_wins() {
    let mut cell = AtomicLevel::new();
    cell.publish((0.25f32).to_bits());
    cell.publish((0.5f32).to_bits());
    assert_eq!(f32::from_bits(cell.read()), 0.5);
}

#[test]
fn read_does_not_consume_the_value() {
    let mut cell = AtomicLevel::new();
    cell.publish(42);
    assert_eq!(cell.read(), 42);
    assert_eq!(cell.read(), 42);
}
