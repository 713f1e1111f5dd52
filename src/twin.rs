use vstd::prelude::*;

use std::collections::VecDeque;

use crate::location::{
    adopted_location, choose_location, doc_location, doc_well_formed, in_synthesis_area,
    is_well_formed, synthesize_location, Location, LocationDoc, SYNTH_LATITUDE_HIGH,
    SYNTH_LATITUDE_LOW,
};

verus! {

/// Seconds that a single transmission may take before it counts as failed.
pub const TRANSMIT_DEADLINE_SECS: u64 = 5;

/// Capacity of the queue between the telemetry generator and the engine.
pub const OUTGOING_QUEUE_CAPACITY: usize = 100;

/// Why the transport reports the connection as lost.
#[derive(Clone, Copy, Debug, PartialEq, Eq, Structural)]
pub enum UnauthenticatedReason {
    /// The access token ran out; the transport renews it by itself.
    ExpiredSasToken,
    DeviceDisabled,
    BadCredential,
    RetryExpired,
    NoNetwork,
    CommunicationError,
    NoPingResponse,
}

/// An authentication-status transition reported by the transport.
#[derive(Clone, Copy, Debug, PartialEq, Eq, Structural)]
pub enum ConnectionStatus {
    Authenticated,
    Unauthenticated(UnauthenticatedReason),
}

/// The connection was lost for a reason that the transport cannot recover from.
#[derive(Clone, Copy, Debug, PartialEq, Eq, Structural)]
pub struct ConnectionLost {
    pub reason: UnauthenticatedReason,
}

/// Whether a desired-property update carries the whole document or only the
/// changed fields.
#[derive(Clone, Copy, Debug, PartialEq, Eq, Structural)]
pub enum Completeness {
    Partial,
    Complete,
}

/// A desired-property update, reduced to what the engine reads of it: its
/// completeness and the previously reported location found in its payload.
#[derive(Clone, Copy, Debug, PartialEq, Eq, Structural)]
pub struct DesiredUpdate {
    pub completeness: Completeness,
    pub reported_location: Option<LocationDoc>,
}

/// A document queued for the remote property store.
#[derive(Debug, PartialEq, Eq)]
pub enum ReportedUpdate {
    /// The versions of this module and of the transport it runs on.
    Versions { module_version: String, sdk_version: String },
    /// The location that the device uses.
    Location(Location),
}

/// Which outbound call a transmission was.
#[derive(Clone, Copy, Debug, PartialEq, Eq, Structural)]
pub enum Channel {
    ReportedProperties,
    TelemetryMessage,
}

/// How a transmission ended.
#[derive(Clone, Copy, Debug, PartialEq, Eq, Structural)]
pub enum TransmissionOutcome {
    Completed,
    Rejected,
    DeadlineExceeded,
}

/// Why a transmission failed.
#[derive(Clone, Copy, Debug, PartialEq, Eq, Structural)]
pub enum FailureKind {
    Rejected,
    DeadlineExceeded,
}

/// A single failed transmission; it is not retried.
#[derive(Clone, Copy, Debug, PartialEq, Eq, Structural)]
pub struct TransmissionError {
    pub channel: Channel,
    pub kind: FailureKind,
}

/// Progress of the engine's initialization.
#[derive(Clone, Copy, Debug, PartialEq, Eq, Structural)]
pub enum Phase {
    /// Neither latch is set.
    Idle,
    /// One latch is set.
    Initializing,
    /// Both latches are set.
    Steady,
}

/// The abstract state of the engine.
pub struct TwinView {
    pub authenticated_once: bool,
    pub location_once: bool,
    pub location: Option<Location>,
    pub generator_running: bool,
    pub reported: Seq<ReportedUpdate>,
    pub failed_transmissions: u64,
    pub module_version: String,
    pub sdk_version: String,
}

pub open spec fn versions_report(v: TwinView) -> ReportedUpdate {
    ReportedUpdate::Versions { module_version: v.module_version, sdk_version: v.sdk_version }
}

pub open spec fn is_fatal(s: ConnectionStatus) -> bool {
    match s {
        ConnectionStatus::Authenticated => false,
        ConnectionStatus::Unauthenticated(reason) => reason != UnauthenticatedReason::ExpiredSasToken,
    }
}

/// The state after a connection status: the first authentication sets its
/// latch and queues the versions report; everything else leaves the state
/// as it is.
pub open spec fn status_step(v: TwinView, s: ConnectionStatus) -> TwinView {
    if s == ConnectionStatus::Authenticated && !v.authenticated_once {
        TwinView { authenticated_once: true, reported: v.reported.push(versions_report(v)), ..v }
    } else {
        v
    }
}

/// The state after a desired update, and the location with which the
/// telemetry generator is to be started, if any. Only the first complete
/// update acts: it adopts a location, queues it as a report, sets its latch
/// and starts the generator.
pub open spec fn desired_step(v: TwinView, u: DesiredUpdate, fallback: Location) -> (
    TwinView,
    Option<Location>,
) {
    if u.completeness == Completeness::Complete && !v.location_once {
        let l = adopted_location(u.reported_location, fallback);
        (
            TwinView {
                location_once: true,
                location: Some(l),
                generator_running: true,
                reported: v.reported.push(ReportedUpdate::Location(l)),
                ..v
            },
            Some(l),
        )
    } else {
        (v, None)
    }
}

pub open spec fn phase_of(v: TwinView) -> Phase {
    if v.authenticated_once && v.location_once {
        Phase::Steady
    } else if v.authenticated_once || v.location_once {
        Phase::Initializing
    } else {
        Phase::Idle
    }
}

pub open spec fn transmission_result(channel: Channel, outcome: TransmissionOutcome) -> Result<
    (),
    TransmissionError,
> {
    match outcome {
        TransmissionOutcome::Completed => Ok(()),
        TransmissionOutcome::Rejected => Err(
            TransmissionError { channel, kind: FailureKind::Rejected },
        ),
        TransmissionOutcome::DeadlineExceeded => Err(
            TransmissionError { channel, kind: FailureKind::DeadlineExceeded },
        ),
    }
}

/// The synchronization engine: the two once-only latches, the adopted
/// location and the queue of reported-property updates. Every handler runs
/// to completion on `&mut self`, so no two events can both see a latch unset.
pub struct Twin {
    authenticated_once: bool,
    location_once: bool,
    location: Option<Location>,
    generator_running: bool,
    reported: VecDeque<ReportedUpdate>,
    failed_transmissions: u64,
    module_version: String,
    sdk_version: String,
}

impl View for Twin {
    type V = TwinView;

    closed spec fn view(&self) -> TwinView {
        TwinView {
            authenticated_once: self.authenticated_once,
            location_once: self.location_once,
            location: self.location,
            generator_running: self.generator_running,
            reported: self.reported@,
            failed_transmissions: self.failed_transmissions,
            module_version: self.module_version,
            sdk_version: self.sdk_version,
        }
    }
}

impl Twin {
    /// An idle engine: both latches unset, nothing queued, no generator.
    pub fn new(module_version: String, sdk_version: String) -> (r: Twin)
        ensures
            !r@.authenticated_once,
            !r@.location_once,
            r@.location is None,
            !r@.generator_running,
            r@.reported == Seq::<ReportedUpdate>::empty(),
            r@.failed_transmissions == 0,
            r@.module_version == module_version,
            r@.sdk_version == sdk_version,
    {
        Twin {
            authenticated_once: false,
            location_once: false,
            location: None,
            generator_running: false,
            reported: VecDeque::new(),
            failed_transmissions: 0,
            module_version,
            sdk_version,
        }
    }

    /// Handles a connection status. The first `Authenticated` queues the
    /// versions report; an expired token is absorbed; any other loss of
    /// authentication is fatal and ends the run.
    pub fn handle_connection_status(&mut self, status: ConnectionStatus) -> (r: Result<
        (),
        ConnectionLost,
    >)
        ensures
            final(self)@ == status_step(old(self)@, status),
            r is Err <==> is_fatal(status),
            r matches Err(e) ==> status == ConnectionStatus::Unauthenticated(e.reason),
    {
        match status {
            ConnectionStatus::Authenticated => {
                if !self.authenticated_once {
                    self.authenticated_once = true;
                    let report = ReportedUpdate::Versions {
                        module_version: self.module_version.clone(),
                        sdk_version: self.sdk_version.clone(),
                    };
                    self.reported.push_back(report);
                }
                Ok(())
            },
            ConnectionStatus::Unauthenticated(reason) => {
                match reason {
                    UnauthenticatedReason::ExpiredSasToken => Ok(()),
                    _ => Err(ConnectionLost { reason }),
                }
            },
        }
    }

    /// Handles a desired update with `fallback` as the location to adopt when
    /// the payload states none. Returns the location with which the telemetry
    /// generator is to be started, if this update starts it.
    pub fn handle_desired_with(&mut self, update: DesiredUpdate, fallback: Location) -> (r: Option<
        Location,
    >)
        ensures
            (final(self)@, r) == desired_step(old(self)@, update, fallback),
    {
        match update.completeness {
            Completeness::Complete => {
                if !self.location_once {
                    let l = choose_location(&update.reported_location, fallback);
                    self.reported.push_back(ReportedUpdate::Location(l));
                    self.location = Some(l);
                    self.generator_running = true;
                    self.location_once = true;
                    Some(l)
                } else {
                    None
                }
            },
            Completeness::Partial => None,
        }
    }

    /// Handles a desired update. The first complete update adopts the
    /// location that its payload states, or one drawn from the operational
    /// area when it states none, queues it as a report and returns it: the
    /// telemetry generator is to be started with it. Partial updates, and
    /// complete ones after the first, change nothing.
    pub fn handle_desired(&mut self, update: DesiredUpdate) -> (r: Option<Location>)
        ensures
            r is Some <==> update.completeness == Completeness::Complete
                && !old(self)@.location_once,
            r is None ==> final(self)@ == old(self)@,
            r matches Some(l) ==> {
                &&& (final(self)@, r) == desired_step(old(self)@, update, l)
                &&& doc_well_formed(update.reported_location) ==> l == doc_location(
                    update.reported_location,
                )
                &&& !doc_well_formed(update.reported_location) ==> in_synthesis_area(l)
            },
    {
        if update.completeness == Completeness::Complete && !self.location_once {
            let fallback = if is_well_formed(&update.reported_location) {
                Location { latitude: 0, longitude: 0 }
            } else {
                synthesize_location()
            };
            self.handle_desired_with(update, fallback)
        } else {
            self.handle_desired_with(update, Location { latitude: 0, longitude: 0 })
        }
    }

    /// Takes the oldest queued reported-property update for transmission.
    pub fn next_report(&mut self) -> (r: Option<ReportedUpdate>)
        ensures
            old(self)@.reported.len() == 0 ==> r is None && final(self)@ == old(self)@,
            old(self)@.reported.len() > 0 ==> {
                &&& r == Some(old(self)@.reported[0])
                &&& final(self)@ == (TwinView {
                    reported: old(self)@.reported.drop_first(),
                    ..old(self)@
                })
            },
    {
        self.reported.pop_front()
    }

    /// Records how a transmission ended. A failure is counted and returned
    /// for the caller to log; it is not retried and changes nothing else.
    pub fn record_transmission(&mut self, channel: Channel, outcome: TransmissionOutcome) -> (r:
        Result<(), TransmissionError>)
        ensures
            r == transmission_result(channel, outcome),
            final(self)@ == (TwinView {
                failed_transmissions: if r is Ok {
                    old(self)@.failed_transmissions
                } else if old(self)@.failed_transmissions == u64::MAX {
                    u64::MAX
                } else {
                    (old(self)@.failed_transmissions + 1) as u64
                },
                ..old(self)@
            }),
    {
        let r = match outcome {
            TransmissionOutcome::Completed => Ok(()),
            TransmissionOutcome::Rejected => Err(
                TransmissionError { channel, kind: FailureKind::Rejected },
            ),
            TransmissionOutcome::DeadlineExceeded => Err(
                TransmissionError { channel, kind: FailureKind::DeadlineExceeded },
            ),
        };
        if r.is_err() {
            self.failed_transmissions = self.failed_transmissions.saturating_add(1);
        }
        r
    }

    /// Stops the engine: the generator is marked stopped and queued reports
    /// are dropped. Returns whether the generator was running and so must be
    /// stopped by the caller before the engine counts as stopped.
    pub fn shutdown(&mut self) -> (r: bool)
        ensures
            r == old(self)@.generator_running,
            final(self)@ == (TwinView {
                generator_running: false,
                reported: Seq::<ReportedUpdate>::empty(),
                ..old(self)@
            }),
    {
        let was_running = self.generator_running;
        self.generator_running = false;
        self.reported.clear();
        was_running
    }

    pub fn phase(&self) -> (r: Phase)
        ensures
            r == phase_of(self@),
    {
        if self.authenticated_once && self.location_once {
            Phase::Steady
        } else if self.authenticated_once || self.location_once {
            Phase::Initializing
        } else {
            Phase::Idle
        }
    }

    pub fn authenticated_once(&self) -> (r: bool)
        ensures
            r == self@.authenticated_once,
    {
        self.authenticated_once
    }

    pub fn location_once(&self) -> (r: bool)
        ensures
            r == self@.location_once,
    {
        self.location_once
    }

    pub fn location(&self) -> (r: Option<Location>)
        ensures
            r == self@.location,
    {
        self.location
    }

    pub fn generator_running(&self) -> (r: bool)
        ensures
            r == self@.generator_running,
    {
        self.generator_running
    }

    pub fn pending_reports(&self) -> (r: usize)
        ensures
            r == self@.reported.len(),
    {
        self.reported.len()
    }

    pub fn failed_transmissions(&self) -> (r: u64)
        ensures
            r == self@.failed_transmissions,
    {
        self.failed_transmissions
    }
}

/// The state after a sequence of connection statuses, handled in order.
pub open spec fn status_run(v: TwinView, ss: Seq<ConnectionStatus>) -> TwinView
    decreases ss.len(),
{
    if ss.len() == 0 {
        v
    } else {
        status_run(status_step(v, ss[0]), ss.drop_first())
    }
}

/// The state after a sequence of desired updates, each handled with its own
/// synthesis fallback, and the locations with which the generator was
/// started along the way, in order.
pub open spec fn desired_run(v: TwinView, us: Seq<(DesiredUpdate, Location)>) -> (
    TwinView,
    Seq<Location>,
)
    decreases us.len(),
{
    if us.len() == 0 {
        (v, Seq::empty())
    } else {
        let (v1, started) = desired_step(v, us[0].0, us[0].1);
        let (v2, rest) = desired_run(v1, us.drop_first());
        match started {
            Some(l) => (v2, seq![l] + rest),
            None => (v2, rest),
        }
    }
}

/// Once authenticated, no connection status changes the state.
pub proof fn lemma_status_run_after_authentication(v: TwinView, ss: Seq<ConnectionStatus>)
    requires
        v.authenticated_once,
    ensures
        status_run(v, ss) == v,
    decreases ss.len(),
{
    if ss.len() > 0 {
        lemma_status_run_after_authentication(status_step(v, ss[0]), ss.drop_first());
    }
}

/// However often `Authenticated` recurs in a sequence of connection statuses,
/// the versions report is queued exactly once, and nothing else is queued.
pub proof fn lemma_versions_reported_once(v: TwinView, ss: Seq<ConnectionStatus>)
    requires
        !v.authenticated_once,
        exists|i: int| 0 <= i < ss.len() && ss[i] == ConnectionStatus::Authenticated,
    ensures
        status_run(v, ss).authenticated_once,
        status_run(v, ss).reported == v.reported.push(versions_report(v)),
    decreases ss.len(),
{
    let i = choose|i: int| 0 <= i < ss.len() && ss[i] == ConnectionStatus::Authenticated;
    if ss[0] == ConnectionStatus::Authenticated {
        lemma_status_run_after_authentication(status_step(v, ss[0]), ss.drop_first());
    } else {
        assert(status_step(v, ss[0]) == v);
        assert(ss.drop_first()[i - 1] == ConnectionStatus::Authenticated);
        lemma_versions_reported_once(v, ss.drop_first());
    }
}

/// Once a location is adopted, no desired update changes the state or starts
/// the generator.
pub proof fn lemma_desired_run_after_adoption(v: TwinView, us: Seq<(DesiredUpdate, Location)>)
    requires
        v.location_once,
    ensures
        desired_run(v, us) == (v, Seq::<Location>::empty()),
    decreases us.len(),
{
    if us.len() > 0 {
        lemma_desired_run_after_adoption(v, us.drop_first());
    }
}

/// In any sequence of desired updates that holds a complete one, exactly one
/// location report is queued, the generator is started exactly once, and
/// with the location that was reported and adopted.
pub proof fn lemma_location_adopted_once(v: TwinView, us: Seq<(DesiredUpdate, Location)>)
    requires
        !v.location_once,
        exists|i: int| 0 <= i < us.len() && us[i].0.completeness == Completeness::Complete,
    ensures
        ({
            let (w, started) = desired_run(v, us);
            &&& started.len() == 1
            &&& w.reported == v.reported.push(ReportedUpdate::Location(started[0]))
            &&& w.location_once
            &&& w.location == Some(started[0])
            &&& w.generator_running
        }),
    decreases us.len(),
{
    let i = choose|i: int| 0 <= i < us.len() && us[i].0.completeness == Completeness::Complete;
    let (v1, first) = desired_step(v, us[0].0, us[0].1);
    if us[0].0.completeness == Completeness::Complete {
        lemma_desired_run_after_adoption(v1, us.drop_first());
        assert(desired_run(v, us).1 =~= seq![first->Some_0]);
    } else {
        assert(v1 == v && first is None);
        assert(us.drop_first()[i - 1].0.completeness == Completeness::Complete);
        lemma_location_adopted_once(v, us.drop_first());
    }
}

/// A complete update whose payload states a well-formed location, handled
/// before any location was adopted, adopts exactly that location, reports it
/// back and starts the generator with it; no fallback is used.
pub proof fn lemma_stated_location_adopted(v: TwinView, u: DesiredUpdate, fallback: Location)
    requires
        !v.location_once,
        u.completeness == Completeness::Complete,
        doc_well_formed(u.reported_location),
    ensures
        ({
            let (w, started) = desired_step(v, u, fallback);
            &&& started == Some(doc_location(u.reported_location))
            &&& w.location == started
            &&& w.reported == v.reported.push(
                ReportedUpdate::Location(doc_location(u.reported_location)),
            )
        }),
{
}

/// A complete update whose payload states no usable location, handled before
/// any location was adopted, adopts the synthesized location and reports that
/// same location back.
pub proof fn lemma_synthesized_location_reported(
    v: TwinView,
    u: DesiredUpdate,
    fallback: Location,
)
    requires
        !v.location_once,
        u.completeness == Completeness::Complete,
        !doc_well_formed(u.reported_location),
        in_synthesis_area(fallback),
    ensures
        ({
            let (w, started) = desired_step(v, u, fallback);
            &&& started == Some(fallback)
            &&& w.location == Some(fallback)
            &&& w.reported == v.reported.push(ReportedUpdate::Location(fallback))
            &&& SYNTH_LATITUDE_LOW <= fallback.latitude < SYNTH_LATITUDE_HIGH
        }),
{
}

} // verus!
