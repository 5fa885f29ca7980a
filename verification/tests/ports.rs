use syn_scan::ports::{parse_port_range, PortRangeError};

#[test]
fn plain_ranges() {
    assert_eq!(parse_port_range(b"80-80"), Ok((80, 80)));
    assert_eq!(parse_port_range(b"1-3"), Ok((1, 3)));
    assert_eq!(parse_port_range(b"20-1024"), Ok((20, 1024)));
    assert_eq!(parse_port_range(b"1-65535"), Ok((1, 65535)));
}

#[test]
fn parsing_does_not_judge_the_range() {
    assert_eq!(parse_port_range(b"0-0"), Ok((0, 0)));
    assert_eq!(parse_port_range(b"443-80"), Ok((443, 80)));
}

#[test]
fn plus_sign_and_leading_zeros() {
    assert_eq!(parse_port_range(b"+80-+443"), Ok((80, 443)));
    assert_eq!(parse_port_range(b"0080-00000000000443"), Ok((80, 443)));
    assert_eq!(parse_port_range(b"+007-9"), Ok((7, 9)));
}

#[test]
fn parts_after_the_second_are_not_read() {
    assert_eq!(parse_port_range(b"1-2-3"), Ok((1, 2)));
    assert_eq!(parse_port_range(b"1-2-"), Ok((1, 2)));
    assert_eq!(parse_port_range(b"1-2-x"), Ok((1, 2)));
}

#[test]
fn invalid_start_port() {
    assert_eq!(parse_port_range(b""), Err(PortRangeError::InvalidStartPort));
    assert_eq!(parse_port_range(b"-80"), Err(PortRangeError::InvalidStartPort));
    assert_eq!(parse_port_range(b"abc-80"), Err(PortRangeError::InvalidStartPort));
    assert_eq!(parse_port_range(b"abc"), Err(PortRangeError::InvalidStartPort));
    assert_eq!(parse_port_range(b"8 0-90"), Err(PortRangeError::InvalidStartPort));
    assert_eq!(parse_port_range(b" 80-90"), Err(PortRangeError::InvalidStartPort));
    assert_eq!(parse_port_range(b"+-90"), Err(PortRangeError::InvalidStartPort));
    assert_eq!(parse_port_range(b"++1-90"), Err(PortRangeError::InvalidStartPort));
    assert_eq!(parse_port_range(b"65536-65536"), Err(PortRangeError::InvalidStartPort));
    assert_eq!(parse_port_range(b"99999999999999999999-1"), Err(PortRangeError::InvalidStartPort));
    assert_eq!(parse_port_range(b"1_0-20"), Err(PortRangeError::InvalidStartPort));
}

#[test]
fn missing_separator() {
    assert_eq!(parse_port_range(b"80"), Err(PortRangeError::MissingSeparator));
    assert_eq!(parse_port_range(b"+80"), Err(PortRangeError::MissingSeparator));
    assert_eq!(parse_port_range(b"65535"), Err(PortRangeError::MissingSeparator));
}

#[test]
fn invalid_end_port() {
    assert_eq!(parse_port_range(b"80-"), Err(PortRangeError::InvalidEndPort));
    assert_eq!(parse_port_range(b"80--90"), Err(PortRangeError::InvalidEndPort));
    assert_eq!(parse_port_range(b"80-9o"), Err(PortRangeError::InvalidEndPort));
    assert_eq!(parse_port_range(b"80-90 "), Err(PortRangeError::InvalidEndPort));
    assert_eq!(parse_port_range(b"80-65536"), Err(PortRangeError::InvalidEndPort));
    assert_eq!(parse_port_range(b"80-+"), Err(PortRangeError::InvalidEndPort));
    assert_eq!(parse_port_range("80-９０".as_bytes()), Err(PortRangeError::InvalidEndPort));
}

#[test]
fn agrees_with_the_standard_integer_parser() {
    let samples = [
        "0", "7", "+7", "007", "65535", "65536", "065535", "+65535", "70000", "", "+", "-1", "1 ",
        " 1", "1a", "a1", "4294967296", "0x10", "1_000", "١٢",
    ];
    for first in samples {
        for second in samples {
            if first.contains('-') || second.contains('-') {
                continue;
            }
            let text = format!("{}-{}", first, second);
            let expected = match (first.parse::<u16>(), second.parse::<u16>()) {
                (Err(_), _) => Err(PortRangeError::InvalidStartPort),
                (Ok(_), Err(_)) => Err(PortRangeError::InvalidEndPort),
                (Ok(start), Ok(end)) => Ok((start, end)),
            };
            assert_eq!(parse_port_range(text.as_bytes()), expected);
        }
    }
}
