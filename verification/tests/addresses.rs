use pha::ipv4::Ipv4Address;
use pha::time_span::TimeSpan;

#[test]
fn parses_loopback() {
    assert_eq!(Ipv4Address::parse("127.0.0.1"), Some(Ipv4Address(127, 0, 0, 1)));
    assert_eq!(Ipv4Address::parse("127.0.0.1"), Some(Ipv4Address::localhost()));
}

#[test]
fn parses_extremes() {
    assert_eq!(Ipv4Address::parse("0.0.0.0"), Some(Ipv4Address(0, 0, 0, 0)));
    assert_eq!(Ipv4Address::parse("255.255.255.255"), Some(Ipv4Address(255, 255, 255, 255)));
    assert_eq!(Ipv4Address::parse("10.200.3.99"), Some(Ipv4Address(10, 200, 3, 99)));
}

#[test]
fn rejects_malformed_addresses() {
    for text in [
        "", "1.2.3", "1.2.3.4.", ".1.2.3", "1..2.3", "1.2.3.4.5", "256.0.0.1", "1.2.3.300",
        "01.2.3.4", "1.2.3.00", "1.2.3.0004", "+1.2.3.4", " 1.2.3.4", "1.2.3.4 ", "a.b.c.d",
        "1.2.3.-4", "1.2.3.٤", "localhost", "999.1.1.1",
    ] {
        assert_eq!(Ipv4Address::parse(text), None, "{:?} should not parse", text);
    }
}

#[test]
fn writes_dotted_decimal() {
    assert_eq!(Ipv4Address(10, 0, 255, 7).to_text(), "10.0.255.7");
    assert_eq!(Ipv4Address(127, 0, 0, 1).to_text(), "127.0.0.1");
    assert_eq!(Ipv4Address(0, 0, 0, 0).to_text(), "0.0.0.0");
}

#[test]
fn text_round_trips_through_parse() {
    for a in [0u8, 1, 9, 10, 42, 99, 100, 199, 200, 255] {
        let addr = Ipv4Address(a, 255 - a, a / 2, 7);
        assert_eq!(Ipv4Address::parse(&addr.to_text()), Some(addr));
    }
}

#[test]
fn time_span_from_millis() {
    let d = TimeSpan::from_millis(1500);
    assert_eq!(d.as_millis(), 1500);
    assert_eq!(d.as_secs(), 1);
    assert_eq!(d.subsec_nanos(), 500_000_000);
    assert_eq!(d.millis_u64(), 1500);
    assert_eq!(TimeSpan::zero().as_millis(), 0);
}

#[test]
fn time_span_new_carries_nanos() {
    let d = TimeSpan::new(1, 2_500_000_000);
    assert_eq!(d.as_secs(), 3);
    assert_eq!(d.subsec_nanos(), 500_000_000);
    assert_eq!(d.as_millis(), 3500);
    assert_eq!(TimeSpan::new(0, 999_999).as_millis(), 0);
}

#[test]
fn time_span_millis_wrap_to_64_bits() {
    let d = TimeSpan::new(u64::MAX, 0);
    let full = (u64::MAX as u128) * 1000;
    assert_eq!(d.as_millis(), full);
    assert_eq!(d.millis_u64(), full as u64);
}
