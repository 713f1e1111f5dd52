use twin_sync::location::Location;
use twin_sync::telemetry::{
    perturb, MetricKind, Reading, WindProfile, WindSimulator, HOURS_PER_DAY, WIND_DIRECTION_MAX,
    WIND_SPEED_MAX,
};

fn constant_profile(speed: u64, direction: u64) -> WindProfile {
    WindProfile::new(vec![speed; HOURS_PER_DAY], vec![direction; HOURS_PER_DAY]).expect("valid")
}

fn within_five_percent(base: i64, value: i64) -> bool {
    20 * (value - base).abs() <= base
}

#[test]
fn perturb_exact_values() {
    assert_eq!(perturb(1_000_000, 500), 1_050_000);
    assert_eq!(perturb(1_000_000, -500), 950_000);
    assert_eq!(perturb(1_000_000, 0), 1_000_000);
    assert_eq!(perturb(200, 499), 209);
    assert_eq!(perturb(200, -499), 191);
    assert_eq!(perturb(359, 10), 359);
    assert_eq!(perturb(0, -500), 0);
    assert_eq!(perturb(WIND_SPEED_MAX, 500), 10_500_000);
}

#[test]
fn batch_at_exact_readings() {
    let location = Location { latitude: 53_930_000, longitude: 8_650_000 };
    let mut speed = vec![0u64; HOURS_PER_DAY];
    let mut direction = vec![0u64; HOURS_PER_DAY];
    speed[7] = 4_000_000;
    direction[7] = 180;
    let sim = WindSimulator::new(location, WindProfile::new(speed, direction).unwrap());
    let b = sim.batch_at(7, "2024-01-01T07:00:00Z".to_string(), 250, -100);
    assert_eq!(b.time_generated_utc, "2024-01-01T07:00:00Z");
    assert_eq!(
        b.readings,
        vec![
            Reading { kind: MetricKind::Latitude, micros: 53_930_000 },
            Reading { kind: MetricKind::Longitude, micros: 8_650_000 },
            Reading { kind: MetricKind::WindSpeed, micros: 4_100_000 },
            Reading { kind: MetricKind::WindDirection, micros: 179_000_000 },
        ]
    );
}

#[test]
fn hour_outside_profile_skips_wind() {
    let location = Location { latitude: 1, longitude: 2 };
    let sim = WindSimulator::new(location, constant_profile(5_000_000, 90));
    let b = sim.batch_at(24, String::new(), 0, 0);
    assert_eq!(
        b.readings,
        vec![
            Reading { kind: MetricKind::Latitude, micros: 1 },
            Reading { kind: MetricKind::Longitude, micros: 2 },
        ]
    );
}

#[test]
fn hundred_ticks_stay_within_five_percent() {
    let location = Location { latitude: 53_930_000, longitude: 8_650_000 };
    let sim = WindSimulator::new(location, constant_profile(7_300_000, 250));
    assert_eq!(sim.location(), location);
    for _ in 0..100 {
        let b = sim.collect();
        assert_eq!(b.readings.len(), 4);
        assert_eq!(b.readings[0], Reading { kind: MetricKind::Latitude, micros: 53_930_000 });
        assert_eq!(b.readings[1], Reading { kind: MetricKind::Longitude, micros: 8_650_000 });
        assert_eq!(b.readings[2].kind, MetricKind::WindSpeed);
        assert!(within_five_percent(7_300_000, b.readings[2].micros));
        assert_eq!(b.readings[3].kind, MetricKind::WindDirection);
        assert_eq!(b.readings[3].micros % 1_000_000, 0);
        assert!(within_five_percent(250, b.readings[3].micros / 1_000_000));
    }
}

#[test]
fn collect_stamps_rfc3339_time() {
    let sim = WindSimulator::new(Location { latitude: 0, longitude: 0 }, constant_profile(1, 1));
    let b = sim.collect();
    let t = b.time_generated_utc;
    assert!(t.len() >= 20);
    assert_eq!(&t[4..5], "-");
    assert_eq!(&t[10..11], "T");
}

#[test]
fn generated_profile_is_within_ranges() {
    let p = WindProfile::generate();
    for h in 0..HOURS_PER_DAY {
        assert!(p.speed_at(h).unwrap() <= WIND_SPEED_MAX);
        assert!(p.direction_at(h).unwrap() <= WIND_DIRECTION_MAX);
    }
    assert_eq!(p.speed_at(HOURS_PER_DAY), None);
    assert_eq!(p.direction_at(HOURS_PER_DAY), None);
}

#[test]
fn started_simulator_keeps_location() {
    let location = Location { latitude: -5, longitude: 7 };
    let sim = WindSimulator::start(location);
    let b = sim.collect();
    assert_eq!(b.readings[0].micros, -5);
    assert_eq!(b.readings[1].micros, 7);
    assert_eq!(b.readings.len(), 4);
}

#[test]
fn profile_new_rejects_bad_input() {
    assert!(WindProfile::new(vec![0; 23], vec![0; 24]).is_none());
    assert!(WindProfile::new(vec![0; 24], vec![0; 25]).is_none());
    let mut speed = vec![0; 24];
    speed[3] = WIND_SPEED_MAX + 1;
    assert!(WindProfile::new(speed, vec![0; 24]).is_none());
    let mut direction = vec![0; 24];
    direction[23] = WIND_DIRECTION_MAX + 1;
    assert!(WindProfile::new(vec![0; 24], direction).is_none());
    assert!(WindProfile::new(vec![WIND_SPEED_MAX; 24], vec![WIND_DIRECTION_MAX; 24]).is_some());
}

#[test]
fn metric_names() {
    assert_eq!(MetricKind::Latitude.name(), "latitude");
    assert_eq!(MetricKind::Longitude.name(), "longitude");
    assert_eq!(MetricKind::WindSpeed.name(), "wind_speed");
    assert_eq!(MetricKind::WindDirection.name(), "wind_direction");
}
