//! The scan itself: one round per port, in ascending order, each round a
//! probe, a bounded wait for its answer, and a report.
//!
//! The scan is a state machine. Its state says which action is due next:
//! send the probe, read a segment, sleep, report, or stop. The caller carries
//! the action out and hands back what came of it as an event; `step` then
//! moves the scan on. Time is the caller's too: after each sleep the caller
//! says how long ago the probe went out.

use vstd::prelude::*;
use crate::address::Ipv4Address;
use crate::classifier::{ClassifierEvent, ClassifierState, PortVerdict};
use crate::packet::{Probe, DEFAULT_SOURCE_PORT};
use crate::segment::InboundSegment;

verus! {

/// How long a round waits for an answer unless configured otherwise, in
/// milliseconds.
pub const DEFAULT_TIMEOUT_MS: u64 = 5000;

/// How long a round sleeps between two reads unless configured otherwise, in
/// milliseconds.
pub const DEFAULT_POLL_INTERVAL_MS: u64 = 100;

/// The knobs of a scan.
#[derive(Clone, Copy, Debug, PartialEq, Eq, Structural)]
pub struct ScanConfig {
    /// The source port of every probe; answers are recognised by it.
    pub source_port: u16,
    /// How long after the probe went out the round gives up, in milliseconds.
    pub timeout_ms: u64,
    /// How long the round sleeps after a read that settled nothing, in
    /// milliseconds.
    pub poll_interval_ms: u64,
}

impl ScanConfig {
    /// Source port 54321, five seconds of patience, a read every 100 ms.
    pub open spec fn standard() -> ScanConfig {
        ScanConfig {
            source_port: DEFAULT_SOURCE_PORT,
            timeout_ms: DEFAULT_TIMEOUT_MS,
            poll_interval_ms: DEFAULT_POLL_INTERVAL_MS,
        }
    }
}

impl Default for ScanConfig {
    fn default() -> (config: ScanConfig)
        ensures
            config == ScanConfig::standard(),
    {
        ScanConfig {
            source_port: DEFAULT_SOURCE_PORT,
            timeout_ms: DEFAULT_TIMEOUT_MS,
            poll_interval_ms: DEFAULT_POLL_INTERVAL_MS,
        }
    }
}

/// Why a request is turned down.
#[derive(Clone, Copy, Debug, PartialEq, Eq, Structural)]
pub enum ScanError {
    /// One of the two bounds of the port range is 0.
    ZeroPort,
    /// The first port of the range lies above the last.
    RangeOrder,
}

/// What to scan: every port from `start_port` to `end_port`, both included,
/// on `destination_ip`, with probes that claim to come from `source_ip`.
#[derive(Clone, Copy, Debug, PartialEq, Eq, Structural)]
pub struct ScanRequest {
    pub source_ip: Ipv4Address,
    pub destination_ip: Ipv4Address,
    pub start_port: u16,
    pub end_port: u16,
}

impl ScanRequest {
    /// A request can be scanned if its ports are real ports in ascending
    /// order: 1 <= start_port <= end_port.
    pub open spec fn valid(self) -> bool {
        1 <= self.start_port && self.start_port <= self.end_port
    }

    /// What is wrong with the request, if anything. A zero bound is reported
    /// before a range in the wrong order.
    pub open spec fn check_spec(self) -> Result<(), ScanError> {
        if self.start_port == 0 || self.end_port == 0 {
            Err(ScanError::ZeroPort)
        } else if self.start_port > self.end_port {
            Err(ScanError::RangeOrder)
        } else {
            Ok(())
        }
    }

    /// The number of ports in a valid request.
    pub open spec fn port_count(self) -> nat {
        (self.end_port - self.start_port + 1) as nat
    }

    /// Checks the port range: a request with a zero bound is rejected, and so
    /// is one whose first port lies above its last; every other request
    /// passes.
    pub fn check(&self) -> (result: Result<(), ScanError>)
        ensures
            result == self.check_spec(),
            result is Ok <==> self.valid(),
            self.start_port == 0 || self.end_port == 0 ==> result == Err::<(), ScanError>(
                ScanError::ZeroPort,
            ),
            self.start_port > self.end_port ==> result is Err,
            self.start_port > self.end_port && self.end_port != 0 ==> result == Err::<
                (),
                ScanError,
            >(ScanError::RangeOrder),
    {
        if self.start_port == 0 || self.end_port == 0 {
            Err(ScanError::ZeroPort)
        } else if self.start_port > self.end_port {
            Err(ScanError::RangeOrder)
        } else {
            Ok(())
        }
    }
}

/// How the round of one port ended.
#[derive(Clone, Copy, Debug, PartialEq, Eq, Structural)]
pub enum RoundOutcome {
    /// The probe went out, and this is what the port was found to be.
    Verdict(PortVerdict),
    /// The probe could not be sent, so nothing is known about the port. The
    /// round ends at once, without waiting for an answer that cannot come.
    ProbeNotSent,
}

/// The result of one round, ready to be shown.
#[derive(Clone, Copy, Debug, PartialEq, Eq, Structural)]
pub struct PortReport {
    pub port: u16,
    pub outcome: RoundOutcome,
}

/// Which action of the current round is due.
#[derive(Clone, Copy, Debug, PartialEq, Eq, Structural)]
pub enum Phase {
    /// The probe for the current port is to be sent.
    Sending,
    /// The probe is out; the next inbound segment is to be read.
    Reading,
    /// The last read settled nothing; the round sleeps before the next one.
    Sleeping,
    /// The round is over; its outcome is to be reported.
    Reporting(RoundOutcome),
    /// Every port has been reported.
    Finished,
}

/// What the caller is asked to do next.
#[derive(Clone, Copy, Debug, PartialEq, Eq, Structural)]
pub enum ScanAction {
    /// Put this probe on the wire, then answer `ProbeSent` or `SendFailed`.
    /// The clock of the round starts when the probe has gone out.
    SendProbe(Probe),
    /// Try to read one inbound TCP segment, then answer `SegmentRead`,
    /// `NothingRead` or `ReadFailed`.
    ReadSegment,
    /// Sleep this long, then answer `Woke` with the time since the probe
    /// went out.
    Sleep { millis: u64 },
    /// Show this report, then answer `Reported`.
    Report(PortReport),
    /// The scan is over: release the socket.
    Finish,
}

/// What the caller reports back.
#[derive(Clone, Copy, Debug, PartialEq, Eq, Structural)]
pub enum ScanEvent {
    /// The probe is on the wire.
    ProbeSent,
    /// The probe could not be sent.
    SendFailed,
    /// This segment was read.
    SegmentRead(InboundSegment),
    /// There was nothing to read.
    NothingRead,
    /// The read failed; this counts as nothing read.
    ReadFailed,
    /// The sleep is over, `elapsed_ms` milliseconds after the probe went out.
    Woke { elapsed_ms: u64 },
    /// The report has been shown.
    Reported,
}

/// A scan in progress.
#[derive(Clone, Copy, Debug, PartialEq, Eq, Structural)]
pub struct Scan {
    pub request: ScanRequest,
    pub config: ScanConfig,
    /// The port whose round is under way, or was the last.
    pub port: u16,
    pub phase: Phase,
}

/// The phase that follows the classifier's word on an answer or a timeout:
/// a verdict ends the round, anything else sends it to sleep.
pub open spec fn phase_of(state: ClassifierState) -> Phase {
    match state {
        ClassifierState::Decided(verdict) => Phase::Reporting(RoundOutcome::Verdict(verdict)),
        ClassifierState::AwaitingResponse => Phase::Sleeping,
    }
}

/// The phase after a segment was read: unrelated traffic settles nothing,
/// an answer to the probe goes to the classifier.
pub open spec fn phase_after_segment(config: ScanConfig, segment: InboundSegment) -> Phase {
    if segment.answers_spec(config.source_port) {
        phase_of(
            ClassifierState::AwaitingResponse.advance_spec(
                ClassifierEvent::Segment { flags: segment.flags },
            ),
        )
    } else {
        Phase::Sleeping
    }
}

/// The phase when `elapsed_ms` have passed since the probe went out with
/// nothing settled: another read while there is time left, else the
/// classifier's timeout.
pub open spec fn phase_at_time(config: ScanConfig, elapsed_ms: u64) -> Phase {
    if elapsed_ms < config.timeout_ms {
        Phase::Reading
    } else {
        phase_of(ClassifierState::AwaitingResponse.advance_spec(ClassifierEvent::Timeout))
    }
}

impl ScanEvent {
    /// The event for a read that returned `bytes` as one TCP segment: the
    /// segment they hold, or nothing read if they are too few to hold one.
    pub open spec fn of_segment_bytes_spec(bytes: Seq<u8>) -> ScanEvent {
        match crate::segment::segment_of_bytes(bytes) {
            Some(segment) => ScanEvent::SegmentRead(segment),
            None => ScanEvent::NothingRead,
        }
    }

    /// The event for a read that returned `bytes` as one TCP segment.
    pub fn of_segment_bytes(bytes: &[u8]) -> (event: ScanEvent)
        ensures
            event == ScanEvent::of_segment_bytes_spec(bytes@),
    {
        match InboundSegment::parse(bytes) {
            Some(segment) => ScanEvent::SegmentRead(segment),
            None => ScanEvent::NothingRead,
        }
    }
}

impl Scan {
    /// A scan is well formed if its request is valid and its current port
    /// lies in the requested range.
    pub open spec fn valid(self) -> bool {
        self.request.valid() && self.request.start_port <= self.port && self.port
            <= self.request.end_port
    }

    /// The scan of `request` before anything has happened: the probe for the
    /// first port is due.
    pub open spec fn initial(request: ScanRequest, config: ScanConfig) -> Scan {
        Scan { request, config, port: request.start_port, phase: Phase::Sending }
    }

    /// What `start` returns: the error of the request, or its initial scan.
    pub open spec fn start_spec(request: ScanRequest, config: ScanConfig) -> Result<
        Scan,
        ScanError,
    > {
        match request.check_spec() {
            Ok(_) => Ok(Scan::initial(request, config)),
            Err(error) => Err(error),
        }
    }

    /// The probe of the current round.
    pub open spec fn probe_spec(self) -> Probe {
        Probe::syn_spec(
            self.request.source_ip,
            self.request.destination_ip,
            self.config.source_port,
            self.port,
        )
    }

    /// The action that is due in this state.
    pub open spec fn action_spec(self) -> ScanAction {
        match self.phase {
            Phase::Sending => ScanAction::SendProbe(self.probe_spec()),
            Phase::Reading => ScanAction::ReadSegment,
            Phase::Sleeping => ScanAction::Sleep { millis: self.config.poll_interval_ms },
            Phase::Reporting(outcome) => ScanAction::Report(
                PortReport { port: self.port, outcome },
            ),
            Phase::Finished => ScanAction::Finish,
        }
    }

    /// The state after the current round has been reported: the round of the
    /// next port, or the end of the scan after the last.
    pub open spec fn after_report(self) -> Scan {
        if self.port >= self.request.end_port {
            Scan { phase: Phase::Finished, ..self }
        } else {
            Scan { port: (self.port + 1) as u16, phase: Phase::Sending, ..self }
        }
    }

    /// The state that follows `self` on `event`. An event that does not
    /// answer the action that is due changes nothing.
    pub open spec fn step_spec(self, event: ScanEvent) -> Scan {
        match (self.phase, event) {
            (Phase::Sending, ScanEvent::ProbeSent) => Scan {
                phase: phase_at_time(self.config, 0),
                ..self
            },
            (Phase::Sending, ScanEvent::SendFailed) => Scan {
                phase: Phase::Reporting(RoundOutcome::ProbeNotSent),
                ..self
            },
            (Phase::Reading, ScanEvent::SegmentRead(segment)) => Scan {
                phase: phase_after_segment(self.config, segment),
                ..self
            },
            (Phase::Reading, ScanEvent::NothingRead) => Scan { phase: Phase::Sleeping, ..self },
            (Phase::Reading, ScanEvent::ReadFailed) => Scan { phase: Phase::Sleeping, ..self },
            (Phase::Sleeping, ScanEvent::Woke { elapsed_ms }) => Scan {
                phase: phase_at_time(self.config, elapsed_ms),
                ..self
            },
            (Phase::Reporting(_), ScanEvent::Reported) => self.after_report(),
            _ => self,
        }
    }

    /// Checks `request` and, if it can be scanned, sets up its scan. A
    /// request with a zero bound or with its first port above its last is
    /// turned down; that leaves no scan behind, and so no probe is ever asked
    /// for.
    pub fn start(request: ScanRequest, config: ScanConfig) -> (result: Result<Scan, ScanError>)
        ensures
            result == Scan::start_spec(request, config),
            result is Ok <==> request.valid(),
            result matches Ok(scan) ==> scan.valid(),
            request.start_port == 0 || request.end_port == 0 ==> result == Err::<Scan, ScanError>(
                ScanError::ZeroPort,
            ),
            request.start_port > request.end_port ==> result is Err,
            request.start_port > request.end_port && request.end_port != 0 ==> result == Err::<
                Scan,
                ScanError,
            >(ScanError::RangeOrder),
    {
        match request.check() {
            Ok(_) => Ok(Scan { request, config, port: request.start_port, phase: Phase::Sending }),
            Err(error) => Err(error),
        }
    }

    /// The action that is due.
    pub fn action(&self) -> (action: ScanAction)
        ensures
            action == self.action_spec(),
    {
        match self.phase {
            Phase::Sending => ScanAction::SendProbe(
                Probe::syn(
                    self.request.source_ip,
                    self.request.destination_ip,
                    self.config.source_port,
                    self.port,
                ),
            ),
            Phase::Reading => ScanAction::ReadSegment,
            Phase::Sleeping => ScanAction::Sleep { millis: self.config.poll_interval_ms },
            Phase::Reporting(outcome) => ScanAction::Report(
                PortReport { port: self.port, outcome },
            ),
            Phase::Finished => ScanAction::Finish,
        }
    }

    /// Whether every port has been reported.
    pub fn is_finished(&self) -> (finished: bool)
        ensures
            finished == (self.phase == Phase::Finished),
    {
        match self.phase {
            Phase::Finished => true,
            _ => false,
        }
    }

    /// Moves the scan on by one event.
    pub fn step(&mut self, event: ScanEvent)
        ensures
            *final(self) == old(self).step_spec(event),
            old(self).valid() ==> final(self).valid(),
    {
        match self.phase {
            Phase::Sending => match event {
                ScanEvent::ProbeSent => {
                    self.phase = at_time(&self.config, 0);
                },
                ScanEvent::SendFailed => {
                    self.phase = Phase::Reporting(RoundOutcome::ProbeNotSent);
                },
                _ => {},
            },
            Phase::Reading => match event {
                ScanEvent::SegmentRead(segment) => {
                    self.phase = after_segment(&self.config, &segment);
                },
                ScanEvent::NothingRead => {
                    self.phase = Phase::Sleeping;
                },
                ScanEvent::ReadFailed => {
                    self.phase = Phase::Sleeping;
                },
                _ => {},
            },
            Phase::Sleeping => match event {
                ScanEvent::Woke { elapsed_ms } => {
                    self.phase = at_time(&self.config, elapsed_ms);
                },
                _ => {},
            },
            Phase::Reporting(_) => match event {
                ScanEvent::Reported => {
                    if self.port >= self.request.end_port {
                        self.phase = Phase::Finished;
                    } else {
                        self.port = self.port + 1;
                        self.phase = Phase::Sending;
                    }
                },
                _ => {},
            },
            Phase::Finished => {},
        }
    }
}

/// The phase that follows the classifier's word.
fn phase_for(state: ClassifierState) -> (phase: Phase)
    ensures
        phase == phase_of(state),
{
    match state {
        ClassifierState::Decided(verdict) => Phase::Reporting(RoundOutcome::Verdict(verdict)),
        ClassifierState::AwaitingResponse => Phase::Sleeping,
    }
}

/// The phase after a segment was read.
fn after_segment(config: &ScanConfig, segment: &InboundSegment) -> (phase: Phase)
    ensures
        phase == phase_after_segment(*config, *segment),
{
    if segment.answers(config.source_port) {
        phase_for(
            ClassifierState::new().advance(ClassifierEvent::Segment { flags: segment.flags }),
        )
    } else {
        Phase::Sleeping
    }
}

/// The phase when `elapsed_ms` have passed with nothing settled.
fn at_time(config: &ScanConfig, elapsed_ms: u64) -> (phase: Phase)
    ensures
        phase == phase_at_time(*config, elapsed_ms),
{
    if elapsed_ms < config.timeout_ms {
        Phase::Reading
    } else {
        phase_for(ClassifierState::new().advance(ClassifierEvent::Timeout))
    }
}

} // verus!
