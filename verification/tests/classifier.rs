use syn_scan::classifier::{
    classify_flags, ClassifierEvent, ClassifierState, PortVerdict,
};
use syn_scan::flags::{is_set, ACK, FIN, PSH, RST, SYN, URG};

#[test]
fn syn_ack_is_open() {
    assert_eq!(classify_flags(SYN | ACK), Some(PortVerdict::Open));
    assert_eq!(classify_flags(0x12), Some(PortVerdict::Open));
}

#[test]
fn syn_ack_with_other_flags_is_open() {
    assert_eq!(classify_flags(SYN | ACK | PSH), Some(PortVerdict::Open));
    assert_eq!(classify_flags(SYN | ACK | URG | FIN), Some(PortVerdict::Open));
    assert_eq!(classify_flags(0xFF), Some(PortVerdict::Open));
}

#[test]
fn rst_is_closed() {
    assert_eq!(classify_flags(RST), Some(PortVerdict::Closed));
    assert_eq!(classify_flags(RST | ACK), Some(PortVerdict::Closed));
    assert_eq!(classify_flags(RST | SYN), Some(PortVerdict::Closed));
    assert_eq!(classify_flags(RST | FIN | PSH), Some(PortVerdict::Closed));
}

#[test]
fn syn_ack_wins_over_rst() {
    assert_eq!(classify_flags(SYN | ACK | RST), Some(PortVerdict::Open));
    assert_eq!(classify_flags(0x16), Some(PortVerdict::Open));
}

#[test]
fn other_flags_settle_nothing() {
    assert_eq!(classify_flags(0), None);
    assert_eq!(classify_flags(ACK), None);
    assert_eq!(classify_flags(SYN), None);
    assert_eq!(classify_flags(FIN), None);
    assert_eq!(classify_flags(FIN | ACK), None);
    assert_eq!(classify_flags(PSH | ACK | URG), None);
    assert_eq!(classify_flags(0xC0), None);
}

#[test]
fn every_flag_byte_is_classified_by_the_rule() {
    for flags in 0..=255u8 {
        let expected = if flags & 0x02 != 0 && flags & 0x10 != 0 {
            Some(PortVerdict::Open)
        } else if flags & 0x04 != 0 {
            Some(PortVerdict::Closed)
        } else {
            None
        };
        assert_eq!(classify_flags(flags), expected);
    }
}

#[test]
fn is_set_tests_single_bits() {
    assert!(is_set(0x12, SYN));
    assert!(is_set(0x12, ACK));
    assert!(!is_set(0x12, RST));
    assert!(!is_set(0, SYN));
    assert!(is_set(0xFF, FIN));
}

#[test]
fn classifier_starts_awaiting() {
    let state = ClassifierState::new();
    assert_eq!(state, ClassifierState::AwaitingResponse);
    assert_eq!(state.verdict(), None);
}

#[test]
fn classifier_decides_open_on_syn_ack() {
    let state = ClassifierState::new().advance(ClassifierEvent::Segment { flags: SYN | ACK });
    assert_eq!(state, ClassifierState::Decided(PortVerdict::Open));
    assert_eq!(state.verdict(), Some(PortVerdict::Open));
}

#[test]
fn classifier_decides_closed_on_rst() {
    let state = ClassifierState::new().advance(ClassifierEvent::Segment { flags: RST | ACK });
    assert_eq!(state.verdict(), Some(PortVerdict::Closed));
}

#[test]
fn classifier_keeps_waiting_on_inconclusive_segment() {
    let state = ClassifierState::new()
        .advance(ClassifierEvent::Segment { flags: ACK })
        .advance(ClassifierEvent::Segment { flags: FIN })
        .advance(ClassifierEvent::Segment { flags: 0 });
    assert_eq!(state, ClassifierState::AwaitingResponse);
}

#[test]
fn classifier_decides_filtered_on_timeout() {
    let state = ClassifierState::new().advance(ClassifierEvent::Timeout);
    assert_eq!(state.verdict(), Some(PortVerdict::FilteredOrDown));
}

#[test]
fn classifier_verdict_is_final() {
    let open = ClassifierState::new().advance(ClassifierEvent::Segment { flags: SYN | ACK });
    assert_eq!(open.advance(ClassifierEvent::Segment { flags: RST }), open);
    assert_eq!(open.advance(ClassifierEvent::Timeout), open);
    let closed = ClassifierState::new().advance(ClassifierEvent::Segment { flags: RST });
    assert_eq!(closed.advance(ClassifierEvent::Segment { flags: SYN | ACK }), closed);
    assert_eq!(closed.advance(ClassifierEvent::Timeout), closed);
    let filtered = ClassifierState::new().advance(ClassifierEvent::Timeout);
    assert_eq!(filtered.advance(ClassifierEvent::Segment { flags: SYN | ACK }), filtered);
    assert_eq!(filtered.advance(ClassifierEvent::Segment { flags: RST }), filtered);
}

#[test]
fn verdict_descriptions() {
    assert_eq!(PortVerdict::Open.description(), "open (SYN-ACK received)");
    assert_eq!(PortVerdict::Closed.description(), "closed (RST received)");
    assert_eq!(
        PortVerdict::FilteredOrDown.description(),
        "filtered/host down (no response)"
    );
}
