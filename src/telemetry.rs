use vstd::prelude::*;

use crate::clock::{current_utc_hour, timestamp_or_empty};
use crate::location::Location;
use crate::rng::random_in_range;

verus! {

/// Number of hourly slots in a wind profile.
pub const HOURS_PER_DAY: usize = 24;

/// Largest wind speed of a profile, in millionths of a metre per second.
pub const WIND_SPEED_MAX: u64 = 10_000_000;

/// Largest wind direction of a profile, in whole degrees.
pub const WIND_DIRECTION_MAX: u64 = 359;

/// Bound of the per-tick perturbation, in basis points (500 = 5%).
pub const DEVIATION_LIMIT: i64 = 500;

/// Basis points in a whole.
pub const BASIS_POINTS: u64 = 10_000;

/// Millionths in a unit, the scale of every reading.
pub const MICROS_PER_UNIT: u64 = 1_000_000;

/// Seconds between two telemetry ticks.
pub const TICK_INTERVAL_SECS: u64 = 60;

/// What a reading measures.
#[derive(Clone, Copy, Debug, PartialEq, Eq, Structural)]
pub enum MetricKind {
    Latitude,
    Longitude,
    WindSpeed,
    WindDirection,
}

pub open spec fn metric_name(k: MetricKind) -> Seq<char> {
    match k {
        MetricKind::Latitude => "latitude"@,
        MetricKind::Longitude => "longitude"@,
        MetricKind::WindSpeed => "wind_speed"@,
        MetricKind::WindDirection => "wind_direction"@,
    }
}

impl MetricKind {
    /// The metric's name on the wire.
    pub fn name(&self) -> (r: &'static str)
        ensures
            r@ == metric_name(*self),
    {
        match self {
            MetricKind::Latitude => "latitude",
            MetricKind::Longitude => "longitude",
            MetricKind::WindSpeed => "wind_speed",
            MetricKind::WindDirection => "wind_direction",
        }
    }
}

/// One measured value, in millionths of its unit (degrees for positions and
/// directions, metres per second for speeds).
#[derive(Clone, Copy, Debug, PartialEq, Eq, Structural)]
pub struct Reading {
    pub kind: MetricKind,
    pub micros: i64,
}

/// The readings of one tick, all stamped with the same emission time.
pub struct TelemetryBatch {
    pub time_generated_utc: String,
    pub readings: Vec<Reading>,
}

/// A wind profile: one base speed and one base direction per hour of the day.
pub struct ProfileView {
    pub speed: Seq<u64>,
    pub direction: Seq<u64>,
}

pub open spec fn profile_valid(p: ProfileView) -> bool {
    &&& p.speed.len() == HOURS_PER_DAY
    &&& p.direction.len() == HOURS_PER_DAY
    &&& forall|i: int| 0 <= i < HOURS_PER_DAY ==> #[trigger] p.speed[i] <= WIND_SPEED_MAX
    &&& forall|i: int| 0 <= i < HOURS_PER_DAY ==> #[trigger] p.direction[i] <= WIND_DIRECTION_MAX
}

/// Hourly base values of wind speed (millionths of m/s) and direction (degrees).
pub struct WindProfile {
    speed: Vec<u64>,
    direction: Vec<u64>,
}

impl View for WindProfile {
    type V = ProfileView;

    closed spec fn view(&self) -> ProfileView {
        ProfileView { speed: self.speed@, direction: self.direction@ }
    }
}

/// The value `base` moved by `dev` basis points, the shift truncated toward
/// zero.
pub open spec fn perturbed(base: u64, dev: i64) -> int {
    if dev >= 0 {
        base + (base * dev) / (BASIS_POINTS as int)
    } else {
        base - (base * (-dev)) / (BASIS_POINTS as int)
    }
}

/// `value` differs from `base` by at most 5% of `base`.
pub open spec fn within_five_percent(base: int, value: int) -> bool {
    20 * (if value >= base { value - base } else { base - value }) <= base
}

/// A perturbation of at most 5% moves a value by at most 5% of it.
pub proof fn lemma_perturbation_bounded(base: u64, dev: i64)
    requires
        -DEVIATION_LIMIT <= dev <= DEVIATION_LIMIT,
    ensures
        within_five_percent(base as int, perturbed(base, dev)),
        perturbed(base, dev) >= 0,
{
    let b = base as int;
    let m: int = if dev >= 0 { dev as int } else { -dev };
    assert(0 <= m <= 500);
    assert(b * m <= b * 500) by (nonlinear_arith)
        requires 0 <= m <= 500, b >= 0;
    assert((b * m) / 10000 <= (b * 500) / 10000) by (nonlinear_arith)
        requires b * m <= b * 500, b * m >= 0;
    assert(20 * ((b * 500) / 10000) <= b) by (nonlinear_arith)
        requires b >= 0;
    assert((b * m) / 10000 >= 0) by (nonlinear_arith)
        requires b >= 0, m >= 0;
    assert(b * m >= 0) by (nonlinear_arith)
        requires b >= 0, m >= 0;
    if dev >= 0 {
        assert(perturbed(base, dev) == b + (b * m) / 10000);
    } else {
        assert(perturbed(base, dev) == b - (b * m) / 10000);
    }
}

/// Moves `base` by `dev` basis points, truncating the shift toward zero.
pub fn perturb(base: u64, dev: i64) -> (r: u64)
    requires
        base <= WIND_SPEED_MAX,
        -DEVIATION_LIMIT <= dev <= DEVIATION_LIMIT,
    ensures
        r == perturbed(base, dev),
        within_five_percent(base as int, r as int),
{
    proof {
        lemma_perturbation_bounded(base, dev);
    }
    let magnitude: u64 = if dev >= 0 { dev as u64 } else { (-dev) as u64 };
    assert(base * magnitude <= WIND_SPEED_MAX * 500) by (nonlinear_arith)
        requires base <= WIND_SPEED_MAX, magnitude <= 500;
    let shift: u64 = base * magnitude / BASIS_POINTS;
    assert(shift * 20 <= base) by (nonlinear_arith)
        requires shift == base * magnitude / 10000, magnitude <= 500;
    if dev >= 0 {
        base + shift
    } else {
        base - shift
    }
}

/// The wind readings of a tick at `hour`: none when the hour lies outside the
/// profile.
pub open spec fn wind_readings(p: ProfileView, hour: u32, speed_dev: i64, dir_dev: i64) -> Seq<
    Reading,
> {
    if hour < HOURS_PER_DAY {
        seq![
            Reading {
                kind: MetricKind::WindSpeed,
                micros: perturbed(p.speed[hour as int], speed_dev) as i64,
            },
            Reading {
                kind: MetricKind::WindDirection,
                micros: (perturbed(p.direction[hour as int], dir_dev) * MICROS_PER_UNIT) as i64,
            },
        ]
    } else {
        seq![]
    }
}

/// All readings of a tick: the position, then the wind.
pub open spec fn tick_readings(
    l: Location,
    p: ProfileView,
    hour: u32,
    speed_dev: i64,
    dir_dev: i64,
) -> Seq<Reading> {
    seq![
        Reading { kind: MetricKind::Latitude, micros: l.latitude },
        Reading { kind: MetricKind::Longitude, micros: l.longitude },
    ] + wind_readings(p, hour, speed_dev, dir_dev)
}

impl WindProfile {
    pub open spec fn wf(&self) -> bool {
        profile_valid(self@)
    }

    /// A profile from given hourly values; `None` unless there are exactly 24
    /// of each and every one lies in its range.
    pub fn new(speed: Vec<u64>, direction: Vec<u64>) -> (r: Option<WindProfile>)
        ensures
            r is Some <==> profile_valid(ProfileView { speed: speed@, direction: direction@ }),
            r matches Some(p) ==> p@.speed == speed@ && p@.direction == direction@,
    {
        if speed.len() != HOURS_PER_DAY || direction.len() != HOURS_PER_DAY {
            return None;
        }
        let mut i: usize = 0;
        while i < HOURS_PER_DAY
            invariant
                speed@.len() == HOURS_PER_DAY,
                direction@.len() == HOURS_PER_DAY,
                i <= HOURS_PER_DAY,
                forall|j: int| 0 <= j < i ==> #[trigger] speed@[j] <= WIND_SPEED_MAX,
                forall|j: int| 0 <= j < i ==> #[trigger] direction@[j] <= WIND_DIRECTION_MAX,
            decreases HOURS_PER_DAY - i,
        {
            if speed[i] > WIND_SPEED_MAX || direction[i] > WIND_DIRECTION_MAX {
                return None;
            }
            i = i + 1;
        }
        Some(WindProfile { speed, direction })
    }

    /// Draws a profile: each hourly speed uniformly from `0..=WIND_SPEED_MAX`,
    /// each hourly direction uniformly from `0..=WIND_DIRECTION_MAX`.
    pub fn generate() -> (r: WindProfile)
        ensures
            r.wf(),
    {
        let mut speed: Vec<u64> = Vec::new();
        let mut direction: Vec<u64> = Vec::new();
        let mut i: usize = 0;
        while i < HOURS_PER_DAY
            invariant
                i <= HOURS_PER_DAY,
                speed@.len() == i,
                direction@.len() == i,
                forall|j: int| 0 <= j < i ==> #[trigger] speed@[j] <= WIND_SPEED_MAX,
                forall|j: int| 0 <= j < i ==> #[trigger] direction@[j] <= WIND_DIRECTION_MAX,
            decreases HOURS_PER_DAY - i,
        {
            let s = random_in_range(0, WIND_SPEED_MAX as i64 + 1);
            let d = random_in_range(0, WIND_DIRECTION_MAX as i64 + 1);
            speed.push(s as u64);
            direction.push(d as u64);
            i = i + 1;
        }
        WindProfile { speed, direction }
    }

    /// Base wind speed at `hour`, if the hour lies in the profile.
    pub fn speed_at(&self, hour: usize) -> (r: Option<u64>)
        requires
            self.wf(),
        ensures
            r is Some <==> hour < HOURS_PER_DAY,
            r matches Some(v) ==> v == self@.speed[hour as int],
    {
        if hour < self.speed.len() {
            Some(self.speed[hour])
        } else {
            None
        }
    }

    /// Base wind direction at `hour`, if the hour lies in the profile.
    pub fn direction_at(&self, hour: usize) -> (r: Option<u64>)
        requires
            self.wf(),
        ensures
            r is Some <==> hour < HOURS_PER_DAY,
            r matches Some(v) ==> v == self@.direction[hour as int],
    {
        if hour < self.direction.len() {
            Some(self.direction[hour])
        } else {
            None
        }
    }
}

/// Every wind reading of a tick lies within 5% of the profile's base value
/// for that hour, whatever the perturbations drawn within their bound.
pub proof fn lemma_tick_within_five_percent(
    l: Location,
    p: ProfileView,
    hour: u32,
    speed_dev: i64,
    dir_dev: i64,
)
    requires
        profile_valid(p),
        hour < HOURS_PER_DAY,
        -DEVIATION_LIMIT <= speed_dev <= DEVIATION_LIMIT,
        -DEVIATION_LIMIT <= dir_dev <= DEVIATION_LIMIT,
    ensures
        ({
            let r = tick_readings(l, p, hour, speed_dev, dir_dev);
            &&& r.len() == 4
            &&& r[2].kind == MetricKind::WindSpeed
            &&& within_five_percent(p.speed[hour as int] as int, r[2].micros as int)
            &&& r[3].kind == MetricKind::WindDirection
            &&& (r[3].micros as int) % (MICROS_PER_UNIT as int) == 0
            &&& within_five_percent(
                p.direction[hour as int] as int,
                (r[3].micros as int) / (MICROS_PER_UNIT as int),
            )
        }),
{
    let s = p.speed[hour as int];
    let d = p.direction[hour as int];
    lemma_perturbation_bounded(s, speed_dev);
    lemma_perturbation_bounded(d, dir_dev);
    let pd = perturbed(d, dir_dev);
    assert(0 <= pd <= 400);
    assert((pd * 1_000_000) % 1_000_000 == 0 && (pd * 1_000_000) / 1_000_000 == pd)
        by (nonlinear_arith)
        requires 0 <= pd <= 400;
    let r = tick_readings(l, p, hour, speed_dev, dir_dev);
    assert(r[2] == wind_readings(p, hour, speed_dev, dir_dev)[0]);
    assert(r[3] == wind_readings(p, hour, speed_dev, dir_dev)[1]);
}

/// The telemetry model of one run: a fixed location and a wind profile drawn
/// once at start.
pub struct WindSimulator {
    location: Location,
    profile: WindProfile,
}

impl WindSimulator {
    pub closed spec fn location_spec(&self) -> Location {
        self.location
    }

    pub closed spec fn profile_spec(&self) -> ProfileView {
        self.profile@
    }

    pub open spec fn wf(&self) -> bool {
        profile_valid(self.profile_spec())
    }

    /// A simulator over a given profile.
    pub fn new(location: Location, profile: WindProfile) -> (r: WindSimulator)
        requires
            profile.wf(),
        ensures
            r.wf(),
            r.location_spec() == location,
            r.profile_spec() == profile@,
    {
        WindSimulator { location, profile }
    }

    /// Starts a run at `location` with a freshly drawn profile.
    pub fn start(location: Location) -> (r: WindSimulator)
        ensures
            r.wf(),
            r.location_spec() == location,
    {
        WindSimulator { location, profile: WindProfile::generate() }
    }

    pub fn location(&self) -> (r: Location)
        ensures
            r == self.location_spec(),
    {
        self.location
    }

    /// The batch of a tick at `hour`, stamped `time`, with the wind speed
    /// moved by `speed_dev` and the direction by `dir_dev` basis points. An
    /// hour outside the profile skips the wind readings.
    pub fn batch_at(&self, hour: u32, time: String, speed_dev: i64, dir_dev: i64) -> (r:
        TelemetryBatch)
        requires
            self.wf(),
            -DEVIATION_LIMIT <= speed_dev <= DEVIATION_LIMIT,
            -DEVIATION_LIMIT <= dir_dev <= DEVIATION_LIMIT,
        ensures
            r.time_generated_utc == time,
            r.readings@ == tick_readings(
                self.location_spec(),
                self.profile_spec(),
                hour,
                speed_dev,
                dir_dev,
            ),
    {
        let mut readings: Vec<Reading> = Vec::new();
        readings.push(Reading { kind: MetricKind::Latitude, micros: self.location.latitude });
        readings.push(Reading { kind: MetricKind::Longitude, micros: self.location.longitude });
        let ghost expected = tick_readings(
            self.location_spec(),
            self.profile_spec(),
            hour,
            speed_dev,
            dir_dev,
        );
        match self.profile.speed_at(hour as usize) {
            Some(base_speed) => {
                let base_dir = self.profile.direction[hour as usize];
                let speed = perturb(base_speed, speed_dev);
                let dir = perturb(base_dir, dir_dev);
                proof {
                    lemma_perturbation_bounded(base_dir, dir_dev);
                }
                assert(dir <= 400);
                readings.push(Reading { kind: MetricKind::WindSpeed, micros: speed as i64 });
                readings.push(
                    Reading {
                        kind: MetricKind::WindDirection,
                        micros: (dir * MICROS_PER_UNIT) as i64,
                    },
                );
                assert(readings@ =~= expected);
            },
            None => {
                assert(readings@ =~= expected);
            },
        }
        TelemetryBatch { time_generated_utc: time, readings }
    }

    /// One tick: reads the current hour and time and draws both
    /// perturbations, each uniformly from `-DEVIATION_LIMIT..DEVIATION_LIMIT`.
    pub fn collect(&self) -> (r: TelemetryBatch)
        requires
            self.wf(),
        ensures
            exists|hour: u32, speed_dev: i64, dir_dev: i64|
                {
                    &&& hour < HOURS_PER_DAY
                    &&& -DEVIATION_LIMIT <= speed_dev < DEVIATION_LIMIT
                    &&& -DEVIATION_LIMIT <= dir_dev < DEVIATION_LIMIT
                    &&& r.readings@ == tick_readings(
                        self.location_spec(),
                        self.profile_spec(),
                        hour,
                        speed_dev,
                        dir_dev,
                    )
                },
    {
        let hour = current_utc_hour();
        let speed_dev = random_in_range(-DEVIATION_LIMIT, DEVIATION_LIMIT);
        let dir_dev = random_in_range(-DEVIATION_LIMIT, DEVIATION_LIMIT);
        let time = timestamp_or_empty();
        self.batch_at(hour, time, speed_dev, dir_dev)
    }
}

} // verus!
