use simpleai::address::Address;
use simpleai::error::Error;
use simpleai::resolver::{address_text, port_available, BindOutcome, LookupStatus, PublicLookup};

#[test]
fn address_text_is_dotted_decimal() {
    assert_eq!(Address::new(192, 168, 1, 20).to_text(), "192.168.1.20");
    assert_eq!(Address::new(0, 0, 0, 0).to_text(), "0.0.0.0");
    assert_eq!(Address::new(255, 255, 255, 255).to_text(), "255.255.255.255");
    assert_eq!(Address::new(10, 9, 100, 99).to_text(), "10.9.100.99");
    assert_eq!(Address::new(1, 2, 3, 4).octets(), [1, 2, 3, 4]);
}

#[test]
fn parse_reads_dotted_decimal() {
    assert_eq!(Address::parse("192.168.1.20"), Some(Address::new(192, 168, 1, 20)));
    assert_eq!(Address::parse("0.0.0.0"), Some(Address::new(0, 0, 0, 0)));
    assert_eq!(Address::parse("255.255.255.255"), Some(Address::new(255, 255, 255, 255)));
    assert_eq!(Address::parse("8.8.8.8"), Some(Address::new(8, 8, 8, 8)));
}

#[test]
fn parse_rejects_what_is_no_address() {
    for text in [
        "",
        "1",
        "1.2.3",
        "1.2.3.",
        "1.2.3.4.",
        "1.2.3.4.5",
        ".1.2.3.4",
        "1..2.3",
        "256.1.1.1",
        "1.1.1.256",
        "1.1.1.999",
        "01.2.3.4",
        "1.2.3.04",
        "1.2.3.00",
        "1.2.3.4 ",
        " 1.2.3.4",
        "1.2.3.4\n",
        "a.b.c.d",
        "1.2.3.-4",
        "1234.1.1.1",
        "1.2.3.4444",
        "١.2.3.4",
        "1.2.3.4é",
        "255.255.255.2555",
        "2001:db8::1",
    ] {
        assert_eq!(Address::parse(text), None, "{:?}", text);
    }
}

#[test]
fn parse_is_the_inverse_of_to_text() {
    let samples = [0u8, 1, 9, 10, 11, 99, 100, 101, 199, 200, 249, 250, 255];
    for a in samples {
        for b in samples {
            let address = Address::new(a, b, b, a);
            assert_eq!(Address::parse(&address.to_text()), Some(address));
            let address = Address::new(b, 7, a, 123);
            assert_eq!(Address::parse(&address.to_text()), Some(address));
        }
    }
}

#[test]
fn caller_gets_text_or_the_empty_text() {
    assert_eq!(address_text(Ok(Address::new(10, 0, 0, 7))), "10.0.0.7");
    assert_eq!(address_text(Err(Error::NoRoute)), "");
    assert_eq!(address_text(Err(Error::Unreachable)), "");
}

#[test]
fn port_probe_outcomes() {
    assert_eq!(port_available(BindOutcome::Bound), Ok(true));
    assert_eq!(port_available(BindOutcome::AddressInUse), Ok(false));
    assert_eq!(port_available(BindOutcome::Refused), Err(Error::Probe));
}

#[test]
fn lookup_is_pending_until_an_answer() {
    let mut lookup = PublicLookup::new(3);
    assert_eq!(lookup.status(), LookupStatus::Pending);
    assert_eq!(lookup.result(), None);
    lookup.record(None);
    lookup.record(None);
    assert_eq!(lookup.status(), LookupStatus::Pending);
}

#[test]
fn first_address_wins_the_race() {
    let first = Address::new(1, 1, 1, 1);
    let second = Address::new(2, 2, 2, 2);
    let mut lookup = PublicLookup::new(3);
    lookup.record(None);
    lookup.record(Some(first));
    lookup.record(Some(second));
    lookup.record(None);
    assert_eq!(lookup.status(), LookupStatus::Resolved(first));
    assert_eq!(lookup.result(), Some(Ok(first)));
}

#[test]
fn lookup_fails_only_when_every_service_failed() {
    let mut lookup = PublicLookup::new(2);
    lookup.record(None);
    assert_eq!(lookup.result(), None);
    lookup.record(None);
    assert_eq!(lookup.status(), LookupStatus::Failed);
    assert_eq!(lookup.result(), Some(Err(Error::Unreachable)));
    // A late answer does not revive a failed lookup.
    lookup.record(Some(Address::new(1, 1, 1, 1)));
    assert_eq!(lookup.result(), Some(Err(Error::Unreachable)));
}

#[test]
fn lookup_without_services_fails_at_once() {
    let lookup = PublicLookup::new(0);
    assert_eq!(lookup.result(), Some(Err(Error::Unreachable)));
}
