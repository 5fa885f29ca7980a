//! Whole runs of a scan: what holds of the state and of the reports after any
//! sequence of events, whatever the network and the clock did.

use vstd::prelude::*;
use crate::classifier::{verdict_of_flags, PortVerdict};
use crate::flags::{has_flag, ACK, RST, SYN};
use crate::scan::{
    Phase, PortReport, RoundOutcome, Scan, ScanAction, ScanConfig, ScanEvent, ScanRequest,
};
use crate::segment::InboundSegment;

verus! {

/// The state that `scan` is in after `events`, taken one by one.
pub open spec fn run(scan: Scan, events: Seq<ScanEvent>) -> Scan
    decreases events.len(),
{
    if events.len() == 0 {
        scan
    } else {
        run(scan, events.drop_last()).step_spec(events.last())
    }
}

/// The reports that were shown while `scan` went through `events`, in the
/// order in which they were shown: one for each `Reported` that came while a
/// report was due.
pub open spec fn reports(scan: Scan, events: Seq<ScanEvent>) -> Seq<PortReport>
    decreases events.len(),
{
    if events.len() == 0 {
        Seq::empty()
    } else {
        let before = run(scan, events.drop_last());
        let earlier = reports(scan, events.drop_last());
        match (before.phase, events.last()) {
            (Phase::Reporting(outcome), ScanEvent::Reported) => earlier.push(
                PortReport { port: before.port, outcome },
            ),
            _ => earlier,
        }
    }
}

/// Whether `event` is a segment that answers the probe and settles a verdict.
pub open spec fn is_conclusive_answer(config: ScanConfig, event: ScanEvent) -> bool {
    match event {
        ScanEvent::SegmentRead(segment) => segment.answers_spec(config.source_port)
            && verdict_of_flags(segment.flags) is Some,
        _ => false,
    }
}

/// Whether `event` brings a clock reading at or past the timeout. The probe
/// going out counts as a reading of zero.
pub open spec fn reaches_timeout(config: ScanConfig, event: ScanEvent) -> bool {
    match event {
        ScanEvent::Woke { elapsed_ms } => elapsed_ms >= config.timeout_ms,
        ScanEvent::ProbeSent => config.timeout_ms == 0,
        _ => false,
    }
}

/// `event` with unrelated traffic taken out: a segment that does not answer
/// the probe becomes a read that found nothing.
pub open spec fn without_unrelated(config: ScanConfig, event: ScanEvent) -> ScanEvent {
    match event {
        ScanEvent::SegmentRead(segment) => if segment.answers_spec(config.source_port) {
            event
        } else {
            ScanEvent::NothingRead
        },
        _ => event,
    }
}

/// While a read is due, a segment that answers the probe with SYN and ACK
/// both set ends the round: the port is reported open.
pub proof fn lemma_syn_ack_answer_reports_open(scan: Scan, segment: InboundSegment)
    requires
        scan.phase == Phase::Reading,
        segment.answers_spec(scan.config.source_port),
        has_flag(segment.flags, SYN),
        has_flag(segment.flags, ACK),
    ensures
        scan.step_spec(ScanEvent::SegmentRead(segment)).action_spec() == ScanAction::Report(
            PortReport { port: scan.port, outcome: RoundOutcome::Verdict(PortVerdict::Open) },
        ),
{
}

/// While a read is due, a segment that answers the probe with RST set, and
/// not SYN and ACK both, ends the round: the port is reported closed.
pub proof fn lemma_rst_answer_reports_closed(scan: Scan, segment: InboundSegment)
    requires
        scan.phase == Phase::Reading,
        segment.answers_spec(scan.config.source_port),
        has_flag(segment.flags, RST),
        !(has_flag(segment.flags, SYN) && has_flag(segment.flags, ACK)),
    ensures
        scan.step_spec(ScanEvent::SegmentRead(segment)).action_spec() == ScanAction::Report(
            PortReport { port: scan.port, outcome: RoundOutcome::Verdict(PortVerdict::Closed) },
        ),
{
}

/// While the round sleeps, a clock reading at or past the timeout ends it:
/// the port is reported filtered or down.
pub proof fn lemma_timeout_reports_filtered(scan: Scan, elapsed_ms: u64)
    requires
        scan.phase == Phase::Sleeping,
        elapsed_ms >= scan.config.timeout_ms,
    ensures
        scan.step_spec(ScanEvent::Woke { elapsed_ms }).action_spec() == ScanAction::Report(
            PortReport {
                port: scan.port,
                outcome: RoundOutcome::Verdict(PortVerdict::FilteredOrDown),
            },
        ),
{
}

/// While the round sleeps, a clock reading short of the timeout sends it
/// back to reading.
pub proof fn lemma_wake_before_timeout_reads_again(scan: Scan, elapsed_ms: u64)
    requires
        scan.phase == Phase::Sleeping,
        elapsed_ms < scan.config.timeout_ms,
    ensures
        scan.step_spec(ScanEvent::Woke { elapsed_ms }).action_spec() == ScanAction::ReadSegment,
        scan.step_spec(ScanEvent::Woke { elapsed_ms }).port == scan.port,
{
}

/// A segment that is not addressed to the probes' source port does what a
/// read that found nothing does, in every state and whatever its flags.
pub proof fn lemma_unrelated_segment_is_nothing_read(scan: Scan, segment: InboundSegment)
    requires
        !segment.answers_spec(scan.config.source_port),
    ensures
        scan.step_spec(ScanEvent::SegmentRead(segment)) == scan.step_spec(ScanEvent::NothingRead),
{
}

/// A failed read does what a read that found nothing does, in every state.
pub proof fn lemma_read_failure_is_nothing_read(scan: Scan)
    ensures
        scan.step_spec(ScanEvent::ReadFailed) == scan.step_spec(ScanEvent::NothingRead),
{
}

/// Once a report is due, nothing but its acknowledgement changes the state:
/// no later segment and no later clock reading touches a verdict.
pub proof fn lemma_outcome_is_final(scan: Scan, event: ScanEvent)
    requires
        scan.phase is Reporting,
        event != ScanEvent::Reported,
    ensures
        scan.step_spec(event) == scan,
{
}

/// A run changes neither the request nor the configuration.
pub proof fn lemma_run_keeps_request(scan: Scan, events: Seq<ScanEvent>)
    ensures
        run(scan, events).request == scan.request,
        run(scan, events).config == scan.config,
    decreases events.len(),
{
    if events.len() > 0 {
        lemma_run_keeps_request(scan, events.drop_last());
    }
}

/// Unrelated traffic never influences a scan: a run in which every segment
/// that does not answer the probe is replaced by a read that found nothing
/// ends in the same state and shows the same reports.
pub proof fn lemma_unrelated_traffic_changes_nothing(scan: Scan, events: Seq<ScanEvent>)
    ensures
        run(scan, events.map_values(|event: ScanEvent| without_unrelated(scan.config, event)))
            == run(scan, events),
        reports(scan, events.map_values(|event: ScanEvent| without_unrelated(scan.config, event)))
            == reports(scan, events),
    decreases events.len(),
{
    if events.len() > 0 {
        let cleaned = events.map_values(|event: ScanEvent| without_unrelated(scan.config, event));
        let shorter = events.drop_last();
        lemma_unrelated_traffic_changes_nothing(scan, shorter);
        lemma_run_keeps_request(scan, shorter);
        assert(cleaned.drop_last() =~= shorter.map_values(
            |event: ScanEvent| without_unrelated(scan.config, event),
        ));
    }
}

/// A round whose probe went out and which read no conclusive answer can end
/// in one way only: the port is reported filtered or down, and a clock
/// reading at or past the timeout has come in before. This holds in
/// particular when no segment addressed to the probes' source port arrives at
/// all.
pub proof fn lemma_unanswered_round_ends_filtered(scan: Scan, events: Seq<ScanEvent>)
    requires
        scan.phase == Phase::Sending,
        forall|i: int|
            0 <= i < events.len() ==> {
                &&& #[trigger] events[i] != ScanEvent::SendFailed
                &&& events[i] != ScanEvent::Reported
                &&& !is_conclusive_answer(scan.config, events[i])
            },
    ensures
        run(scan, events).port == scan.port,
        run(scan, events).phase != Phase::Finished,
        run(scan, events).phase is Reporting ==> {
            &&& run(scan, events).phase == Phase::Reporting(
                RoundOutcome::Verdict(PortVerdict::FilteredOrDown),
            )
            &&& exists|i: int|
                0 <= i < events.len() && reaches_timeout(scan.config, #[trigger] events[i])
        },
    decreases events.len(),
{
    if events.len() > 0 {
        let shorter = events.drop_last();
        let last = events.last();
        assert forall|i: int| 0 <= i < shorter.len() implies {
            &&& #[trigger] shorter[i] != ScanEvent::SendFailed
            &&& shorter[i] != ScanEvent::Reported
            &&& !is_conclusive_answer(scan.config, shorter[i])
        } by {
            assert(shorter[i] == events[i]);
        }
        lemma_unanswered_round_ends_filtered(scan, shorter);
        lemma_run_keeps_request(scan, shorter);
        let before = run(scan, shorter);
        let after = run(scan, events);
        assert(last == events[events.len() - 1]);
        if before.phase is Reporting {
            let i = choose|i: int|
                0 <= i < shorter.len() && reaches_timeout(scan.config, #[trigger] shorter[i]);
            assert(reaches_timeout(scan.config, events[i]));
        } else if after.phase is Reporting {
            assert(reaches_timeout(scan.config, events[events.len() - 1]));
        }
    }
}

/// A scan shows its reports port by port, in ascending order from the first
/// port of the request, one report for each port and none for any other; and
/// it is finished exactly when every port of the request has had its report.
pub proof fn lemma_reports_follow_the_ports(
    request: ScanRequest,
    config: ScanConfig,
    events: Seq<ScanEvent>,
)
    requires
        request.valid(),
    ensures
        run(Scan::initial(request, config), events).valid(),
        reports(Scan::initial(request, config), events).len() <= request.port_count(),
        forall|k: int|
            0 <= k < reports(Scan::initial(request, config), events).len() ==> (
            #[trigger] reports(Scan::initial(request, config), events)[k]).port
                == request.start_port + k,
        run(Scan::initial(request, config), events).phase == Phase::Finished <==> reports(
            Scan::initial(request, config),
            events,
        ).len() == request.port_count(),
        run(Scan::initial(request, config), events).phase != Phase::Finished ==> reports(
            Scan::initial(request, config),
            events,
        ).len() == run(Scan::initial(request, config), events).port - request.start_port,
    decreases events.len(),
{
    if events.len() > 0 {
        let scan = Scan::initial(request, config);
        lemma_reports_follow_the_ports(request, config, events.drop_last());
        lemma_run_keeps_request(scan, events.drop_last());
    }
}

} // verus!
