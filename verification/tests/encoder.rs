use as5600::encoder::VelocityAction;
use as5600::encoder::VelocityEvent;
use as5600::encoder::AS5600;
use as5600::encoder::MIN_SAMPLES;
use as5600::encoder::RETRY_DELAY_MS;
use as5600::encoder::SAMPLING_PERIOD_MS;
use as5600::window::Sample;
use as5600::window::NANOS_PER_SECOND;
use as5600::window::WINDOW_CAPACITY;
use as5600::Direction;

/// A bus that hands out prepared register words and counts the reads, with a
/// clock that moves by a fixed step at each read and at each wait.
struct Bench {
    words: Vec<u16>,
    reads: usize,
    waits: Vec<u64>,
    now_ns: u64,
    step_ns: u64,
}

impl Bench {
    fn new(words: Vec<u16>, step_ns: u64) -> Self {
        Bench { words, reads: 0, waits: Vec::new(), now_ns: 0, step_ns }
    }

    fn read(&mut self) -> u16 {
        let word = self.words[self.reads % self.words.len()];
        self.reads += 1;
        self.now_ns += self.step_ns;
        word
    }

    fn velocity(&mut self, encoder: &mut AS5600) -> Option<i64> {
        let mut action = encoder.get_velocity(VelocityEvent::Requested);
        loop {
            match action {
                VelocityAction::Sample { delay_ms } => {
                    if delay_ms > 0 {
                        self.waits.push(delay_ms);
                        self.now_ns += delay_ms * 1_000_000;
                    }
                    let raw = self.read();
                    let timestamp_ns = self.now_ns;
                    action = encoder.get_velocity(VelocityEvent::Sampled { timestamp_ns, raw });
                }
                VelocityAction::Report { velocity } => return velocity,
            }
        }
    }
}

#[test]
fn timing_constants() {
    assert_eq!(MIN_SAMPLES, 2);
    assert_eq!(RETRY_DELAY_MS, 10);
    assert_eq!(SAMPLING_PERIOD_MS, 5);
    assert_eq!(1000 / SAMPLING_PERIOD_MS, 200);
}

#[test]
fn opened_state_is_uncalibrated_forward_and_empty() {
    let encoder = AS5600::open();
    assert_eq!(encoder.offset(), 0);
    assert_eq!(encoder.direction(), Direction::Forward);
    assert_eq!(encoder.samples().len(), 0);
}

#[test]
fn angle_against_the_offset() {
    let mut encoder = AS5600::open();
    assert_eq!(encoder.get_angle(1024), 90 * 512);
    assert_eq!(encoder.get_angle(4095), -45);
    encoder.zero(1024);
    assert_eq!(encoder.offset(), 1024);
    assert_eq!(encoder.get_angle(1024), 0);
    assert_eq!(encoder.get_angle(2048), 90 * 512);
    assert_eq!(encoder.get_angle(0), -90 * 512);
}

#[test]
fn zero_then_angle_is_zero() {
    for raw in [0u16, 1, 777, 2048, 4095, 0x8123] {
        let mut encoder = AS5600::open();
        encoder.zero(raw);
        assert_eq!(encoder.get_angle(raw), 0);
        assert_eq!(encoder.get_angle(raw) as f32 / 512.0, 0.0);
    }
}

#[test]
fn zero_stores_the_whole_word() {
    let mut encoder = AS5600::open();
    encoder.zero(0xF123);
    assert_eq!(encoder.offset(), 0xF123);
    assert_eq!(encoder.get_angle(0x0124), 45);
}

#[test]
fn zero_leaves_direction_and_window() {
    let mut encoder = AS5600::open();
    encoder.set_direction(Direction::Reverse);
    encoder.get_velocity(VelocityEvent::Sampled { timestamp_ns: 5, raw: 9 });
    encoder.zero(100);
    assert_eq!(encoder.direction(), Direction::Reverse);
    assert_eq!(encoder.samples().len(), 1);
    assert_eq!(encoder.samples().get(0), Some(Sample { timestamp_ns: 5, angle: (4096 - 9) * 45 }));
}

#[test]
fn direction_flip_reports_the_complement() {
    let mut encoder = AS5600::open();
    encoder.zero(300);
    let forward = encoder.get_angle(500);
    encoder.set_direction(Direction::Reverse);
    assert_eq!(encoder.direction(), Direction::Reverse);
    let reverse = encoder.get_angle(500);
    assert_eq!(forward, 200 * 45);
    assert_eq!(reverse, (4096 - 200) * 45);
    encoder.set_direction(Direction::Forward);
    assert_eq!(encoder.get_angle(500), forward);
}

#[test]
fn set_direction_leaves_offset_and_samples() {
    let mut encoder = AS5600::open();
    encoder.zero(40);
    encoder.get_velocity(VelocityEvent::Sampled { timestamp_ns: 1, raw: 50 });
    encoder.set_direction(Direction::Reverse);
    assert_eq!(encoder.offset(), 40);
    assert_eq!(encoder.samples().len(), 1);
    assert_eq!(encoder.samples().get(0), Some(Sample { timestamp_ns: 1, angle: 450 }));
    encoder.get_velocity(VelocityEvent::Sampled { timestamp_ns: 2, raw: 50 });
    assert_eq!(encoder.samples().get(1), Some(Sample { timestamp_ns: 2, angle: (4096 - 10) * 45 }));
}

#[test]
fn get_angle_records_nothing() {
    let encoder = AS5600::open();
    encoder.get_angle(5);
    encoder.get_angle(6);
    assert_eq!(encoder.samples().len(), 0);
    assert_eq!(encoder.offset(), 0);
}

#[test]
fn first_velocity_takes_exactly_two_reads() {
    let mut encoder = AS5600::open();
    let mut bench = Bench::new(vec![0, 10], 1_000_000);
    let velocity = bench.velocity(&mut encoder);
    assert_eq!(bench.reads, 2);
    assert_eq!(bench.waits, vec![RETRY_DELAY_MS]);
    assert_eq!(encoder.samples().len(), 2);
    assert_eq!(velocity, Some(450 * NANOS_PER_SECOND as i64 / 11_000_000));
}

#[test]
fn later_velocity_takes_one_read() {
    let mut encoder = AS5600::open();
    let mut bench = Bench::new(vec![0, 10, 20, 30], 1_000_000);
    bench.velocity(&mut encoder);
    assert_eq!(bench.reads, 2);
    bench.velocity(&mut encoder);
    assert_eq!(bench.reads, 3);
    bench.velocity(&mut encoder);
    assert_eq!(bench.reads, 4);
    assert_eq!(bench.waits.len(), 1);
    assert_eq!(encoder.samples().len(), 4);
}

#[test]
fn request_asks_for_a_reading_at_once() {
    let mut encoder = AS5600::open();
    assert_eq!(
        encoder.get_velocity(VelocityEvent::Requested),
        VelocityAction::Sample { delay_ms: 0 }
    );
    assert_eq!(encoder.samples().len(), 0);
    assert_eq!(
        encoder.get_velocity(VelocityEvent::Sampled { timestamp_ns: 0, raw: 0 }),
        VelocityAction::Sample { delay_ms: 10 }
    );
    assert_eq!(
        encoder.get_velocity(VelocityEvent::Sampled { timestamp_ns: NANOS_PER_SECOND, raw: 1 }),
        VelocityAction::Report { velocity: Some(45) }
    );
}

#[test]
fn velocity_of_three_readings() {
    let mut encoder = AS5600::open();
    encoder.get_velocity(VelocityEvent::Requested);
    encoder.get_velocity(VelocityEvent::Sampled { timestamp_ns: 0, raw: 0 });
    encoder.get_velocity(VelocityEvent::Sampled { timestamp_ns: NANOS_PER_SECOND, raw: 128 });
    encoder.get_velocity(VelocityEvent::Requested);
    let action =
        encoder.get_velocity(VelocityEvent::Sampled { timestamp_ns: 2 * NANOS_PER_SECOND, raw: 512 });
    let pair_one = 128 * 45;
    let pair_two = (512 - 128) * 45;
    assert_eq!(action, VelocityAction::Report { velocity: Some((pair_one + pair_two) / 2) });
    match action {
        VelocityAction::Report { velocity: Some(v) } => assert_eq!(v as f64 / 512.0, 22.5),
        _ => panic!("no velocity"),
    }
}

#[test]
fn request_on_a_full_window_evicts_before_the_read() {
    let mut encoder = AS5600::open();
    for i in 0..50u64 {
        encoder.get_velocity(VelocityEvent::Sampled { timestamp_ns: i, raw: i as u16 });
    }
    assert_eq!(encoder.samples().len(), WINDOW_CAPACITY);
    encoder.get_velocity(VelocityEvent::Requested);
    assert_eq!(encoder.samples().len(), 49);
    assert_eq!(encoder.samples().get(0), Some(Sample { timestamp_ns: 1, angle: 45 }));
    encoder.get_velocity(VelocityEvent::Sampled { timestamp_ns: 50, raw: 50 });
    assert_eq!(encoder.samples().len(), 50);
    assert_eq!(encoder.samples().get(0), Some(Sample { timestamp_ns: 1, angle: 45 }));
    assert_eq!(encoder.samples().get(49), Some(Sample { timestamp_ns: 50, angle: 50 * 45 }));
}

#[test]
fn request_with_room_evicts_nothing() {
    let mut encoder = AS5600::open();
    for i in 0..49u64 {
        encoder.get_velocity(VelocityEvent::Sampled { timestamp_ns: i, raw: 0 });
    }
    encoder.get_velocity(VelocityEvent::Requested);
    assert_eq!(encoder.samples().len(), 49);
    assert_eq!(encoder.samples().get(0), Some(Sample { timestamp_ns: 0, angle: 0 }));
}

#[test]
fn window_never_exceeds_capacity_over_many_requests() {
    let mut encoder = AS5600::open();
    let mut bench = Bench::new(vec![0, 100, 200, 300], 5_000_000);
    for _ in 0..200 {
        bench.velocity(&mut encoder);
        assert!(encoder.samples().len() <= WINDOW_CAPACITY);
    }
    assert_eq!(encoder.samples().len(), WINDOW_CAPACITY);
    assert_eq!(bench.reads, 201);
}

#[test]
fn failed_read_after_eviction_keeps_the_rest() {
    let mut encoder = AS5600::open();
    for i in 0..50u64 {
        encoder.get_velocity(VelocityEvent::Sampled { timestamp_ns: i, raw: 0 });
    }
    encoder.get_velocity(VelocityEvent::Requested);
    assert_eq!(encoder.samples().len(), 49);
    encoder.get_velocity(VelocityEvent::Requested);
    assert_eq!(encoder.samples().len(), 49);
}

#[test]
fn stalled_clock_reports_no_velocity() {
    let mut encoder = AS5600::open();
    encoder.get_velocity(VelocityEvent::Sampled { timestamp_ns: 7, raw: 0 });
    let action = encoder.get_velocity(VelocityEvent::Sampled { timestamp_ns: 7, raw: 9 });
    assert_eq!(action, VelocityAction::Report { velocity: None });
    assert_eq!(encoder.samples().len(), 2);
}

#[test]
fn samples_carry_the_angle_of_their_time() {
    let mut encoder = AS5600::open();
    encoder.get_velocity(VelocityEvent::Sampled { timestamp_ns: 1, raw: 100 });
    encoder.zero(100);
    encoder.get_velocity(VelocityEvent::Sampled { timestamp_ns: 2, raw: 100 });
    assert_eq!(encoder.samples().get(0), Some(Sample { timestamp_ns: 1, angle: 4500 }));
    assert_eq!(encoder.samples().get(1), Some(Sample { timestamp_ns: 2, angle: 0 }));
}

#[test]
fn velocity_does_not_unwrap_the_half_turn() {
    let mut encoder = AS5600::open();
    encoder.get_velocity(VelocityEvent::Sampled { timestamp_ns: 0, raw: 2047 });
    let action =
        encoder.get_velocity(VelocityEvent::Sampled { timestamp_ns: NANOS_PER_SECOND, raw: 2048 });
    assert_eq!(action, VelocityAction::Report { velocity: Some(-4095 * 45) });
}
