//! The per-probe classifier: from the answers to one probe, or their absence,
//! to a verdict about the probed port.

use vstd::prelude::*;
use crate::flags::{has_flag, is_set, ACK, RST, SYN};

verus! {

/// What a scan concludes about one port.
#[derive(Clone, Copy, Debug, PartialEq, Eq, Structural)]
pub enum PortVerdict {
    /// The host answered the probe with SYN and ACK: something listens there.
    Open,
    /// The host answered the probe with RST: nothing listens there.
    Closed,
    /// No conclusive answer arrived in time: a filter dropped the probe or
    /// its answer, or the host is down.
    FilteredOrDown,
}

/// The verdict that a segment with these flags settles, if it settles one.
///
/// SYN together with ACK means open and is tested first, so it wins over a
/// RST in the same segment. RST means closed whatever else is set. Any other
/// combination settles nothing.
pub open spec fn verdict_of_flags(flags: u8) -> Option<PortVerdict> {
    if has_flag(flags, SYN) && has_flag(flags, ACK) {
        Some(PortVerdict::Open)
    } else if has_flag(flags, RST) {
        Some(PortVerdict::Closed)
    } else {
        None
    }
}

/// Classifies the flags of a segment that answers the outstanding probe.
pub fn classify_flags(flags: u8) -> (verdict: Option<PortVerdict>)
    ensures
        verdict == verdict_of_flags(flags),
{
    if is_set(flags, SYN) && is_set(flags, ACK) {
        Some(PortVerdict::Open)
    } else if is_set(flags, RST) {
        Some(PortVerdict::Closed)
    } else {
        None
    }
}

/// Where the classification of one probe stands.
#[derive(Clone, Copy, Debug, PartialEq, Eq, Structural)]
pub enum ClassifierState {
    /// The probe is out and nothing conclusive has come back yet.
    AwaitingResponse,
    /// The verdict is in; nothing that happens later changes it.
    Decided(PortVerdict),
}

/// What the classifier is told.
#[derive(Clone, Copy, Debug, PartialEq, Eq, Structural)]
pub enum ClassifierEvent {
    /// A segment that answers the outstanding probe arrived, with these flags.
    Segment { flags: u8 },
    /// The time to wait for an answer is over.
    Timeout,
}

impl ClassifierState {
    /// The state that follows `self` on `event`. A decided state stays as it
    /// is. While awaiting, a conclusive segment decides the port as its flags
    /// say, an inconclusive one changes nothing, and a timeout decides it as
    /// filtered or down.
    pub open spec fn advance_spec(self, event: ClassifierEvent) -> ClassifierState {
        match self {
            ClassifierState::Decided(verdict) => ClassifierState::Decided(verdict),
            ClassifierState::AwaitingResponse => match event {
                ClassifierEvent::Segment { flags } => match verdict_of_flags(flags) {
                    Some(verdict) => ClassifierState::Decided(verdict),
                    None => ClassifierState::AwaitingResponse,
                },
                ClassifierEvent::Timeout => ClassifierState::Decided(PortVerdict::FilteredOrDown),
            },
        }
    }

    /// The verdict, once there is one.
    pub open spec fn verdict_spec(self) -> Option<PortVerdict> {
        match self {
            ClassifierState::AwaitingResponse => None,
            ClassifierState::Decided(verdict) => Some(verdict),
        }
    }

    /// The state of a classifier whose probe has just gone out.
    pub fn new() -> (state: ClassifierState)
        ensures
            state == ClassifierState::AwaitingResponse,
    {
        ClassifierState::AwaitingResponse
    }

    /// Moves on by one event.
    pub fn advance(self, event: ClassifierEvent) -> (next: ClassifierState)
        ensures
            next == self.advance_spec(event),
    {
        match self {
            ClassifierState::Decided(verdict) => ClassifierState::Decided(verdict),
            ClassifierState::AwaitingResponse => match event {
                ClassifierEvent::Segment { flags } => match classify_flags(flags) {
                    Some(verdict) => ClassifierState::Decided(verdict),
                    None => ClassifierState::AwaitingResponse,
                },
                ClassifierEvent::Timeout => ClassifierState::Decided(PortVerdict::FilteredOrDown),
            },
        }
    }

    /// The verdict, once there is one.
    pub fn verdict(self) -> (verdict: Option<PortVerdict>)
        ensures
            verdict == self.verdict_spec(),
    {
        match self {
            ClassifierState::AwaitingResponse => None,
            ClassifierState::Decided(verdict) => Some(verdict),
        }
    }
}

impl PortVerdict {
    /// The words that state this verdict in a report.
    pub fn description(self) -> (text: &'static str)
        ensures
            text@ == self.description_spec(),
    {
        match self {
            PortVerdict::Open => "open (SYN-ACK received)",
            PortVerdict::Closed => "closed (RST received)",
            PortVerdict::FilteredOrDown => "filtered/host down (no response)",
        }
    }

    /// The words that state this verdict in a report.
    pub open spec fn description_spec(self) -> Seq<char> {
        match self {
            PortVerdict::Open => "open (SYN-ACK received)"@,
            PortVerdict::Closed => "closed (RST received)"@,
            PortVerdict::FilteredOrDown => "filtered/host down (no response)"@,
        }
    }
}

/// A segment that answers the probe with SYN and ACK both set decides the
/// port as open, whatever else it carries.
pub proof fn lemma_syn_ack_means_open(flags: u8)
    requires
        has_flag(flags, SYN),
        has_flag(flags, ACK),
    ensures
        ClassifierState::AwaitingResponse.advance_spec(ClassifierEvent::Segment { flags })
            == ClassifierState::Decided(PortVerdict::Open),
{
}

/// A segment that answers the probe with RST set, and not SYN and ACK both,
/// decides the port as closed, whatever else it carries.
pub proof fn lemma_rst_means_closed(flags: u8)
    requires
        has_flag(flags, RST),
        !(has_flag(flags, SYN) && has_flag(flags, ACK)),
    ensures
        ClassifierState::AwaitingResponse.advance_spec(ClassifierEvent::Segment { flags })
            == ClassifierState::Decided(PortVerdict::Closed),
{
}

/// A segment with neither RST nor SYN and ACK both leaves the classifier
/// waiting.
pub proof fn lemma_other_flags_keep_waiting(flags: u8)
    requires
        !has_flag(flags, RST),
        !(has_flag(flags, SYN) && has_flag(flags, ACK)),
    ensures
        ClassifierState::AwaitingResponse.advance_spec(ClassifierEvent::Segment { flags })
            == ClassifierState::AwaitingResponse,
{
}

/// A timeout while waiting decides the port as filtered or down.
pub proof fn lemma_timeout_means_filtered()
    ensures
        ClassifierState::AwaitingResponse.advance_spec(ClassifierEvent::Timeout)
            == ClassifierState::Decided(PortVerdict::FilteredOrDown),
{
}

/// A verdict, once assigned, survives every later event.
pub proof fn lemma_verdict_is_final(verdict: PortVerdict, event: ClassifierEvent)
    ensures
        ClassifierState::Decided(verdict).advance_spec(event) == ClassifierState::Decided(verdict),
{
}

} // verus!
