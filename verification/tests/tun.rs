use akarin::error::Error;
use akarin::tun::configuration::{Configuration, Setting};
use akarin::tun::device::{
    decimal_u8, enabled_flags, merged_flags, unit_of, unit_or_first, IFF_RUNNING, IFF_UP, IFNAMSIZ,
};

#[test]
fn unit_is_the_number_after_utun() {
    assert_eq!(unit_of("utun6"), Ok(6));
    assert_eq!(unit_of("utun0"), Ok(0));
    assert_eq!(unit_of("utun255"), Ok(255));
    assert_eq!(unit_of("utun007"), Ok(7));
    assert_eq!(unit_of("utun+12"), Ok(12));
    assert_eq!(unit_of("utun000000000001"), Ok(1));
}

#[test]
fn unit_agrees_with_the_standard_parser() {
    for text in ["", "0", "9", "10", "255", "256", "999", "+", "+0", "+255", "+256", "-1", "-0", "1a", "a1", " 1", "1 ", "00255", "0x10", "++1"] {
        let expected = text.parse::<u8>().ok();
        assert_eq!(decimal_u8(text.as_bytes()), expected, "{:?}", text);
    }
}

#[test]
fn names_that_are_not_utun_devices_are_invalid() {
    assert_eq!(unit_of("tun6"), Err(Error::InvalidTunName));
    assert_eq!(unit_of("utu"), Err(Error::InvalidTunName));
    assert_eq!(unit_of(""), Err(Error::InvalidTunName));
    assert_eq!(unit_of("Utun6"), Err(Error::InvalidTunName));
    assert_eq!(unit_of("utun"), Err(Error::InvalidTunName));
    assert_eq!(unit_of("utun256"), Err(Error::InvalidTunName));
    assert_eq!(unit_of("utun-1"), Err(Error::InvalidTunName));
    assert_eq!(unit_of("utun6 "), Err(Error::InvalidTunName));
    assert_eq!(unit_of("utun6a"), Err(Error::InvalidTunName));
}

#[test]
fn names_longer_than_the_system_allows_are_too_long() {
    assert_eq!(IFNAMSIZ, 16);
    assert_eq!(unit_of("utun0000000000001"), Err(Error::TunNameTooLong));
    assert_eq!(unit_of("an-interface-name-far-too-long"), Err(Error::TunNameTooLong));
    // sixteen bytes are not too long, whatever they spell
    assert_eq!(unit_of("0123456789abcdef"), Err(Error::InvalidTunName));
}

#[test]
fn unit_without_a_name_is_the_first() {
    assert_eq!(unit_or_first(None), Ok(0));
    assert_eq!(unit_or_first(Some("utun9")), Ok(9));
    assert_eq!(unit_or_first(Some("eth0")), Err(Error::InvalidTunName));
}

#[test]
fn flags_are_set_and_cleared() {
    assert_eq!(IFF_UP, 0x1);
    assert_eq!(IFF_RUNNING, 0x40);
    assert_eq!(merged_flags(0x0802, 0x41), 0x0843);
    assert_eq!(merged_flags(0x0843, -0x1), 0x0842);
    assert_eq!(merged_flags(0x0843, -0x41), 0x0802);
    assert_eq!(merged_flags(0x0843, 0), 0x0843);
    assert_eq!(merged_flags(0, i16::MAX), i16::MAX);
    assert_eq!(merged_flags(-1, -i16::MAX), i16::MIN);
    assert_eq!(enabled_flags(true), 0x41);
    assert_eq!(enabled_flags(false), -1);
    assert_eq!(merged_flags(0x0802, enabled_flags(true)), 0x0843);
    assert_eq!(merged_flags(0x0843, enabled_flags(false)), 0x0842);
}

#[test]
fn settings_are_applied_in_order() {
    let mut config = Configuration::default();
    assert_eq!(config.steps(), vec![Setting::Enabled(false)]);
    assert_eq!(config.get_name(), None);

    config.name("utun6").address(0xC0A8_3201).netmask(0xFFFF_0000).mtu(1480).up();
    assert_eq!(config.get_name(), Some("utun6"));
    assert_eq!(
        config.steps(),
        vec![
            Setting::Address(0xC0A8_3201),
            Setting::Netmask(0xFFFF_0000),
            Setting::Mtu(1480),
            Setting::Enabled(true),
        ]
    );

    config.broadcast(0xC0A8_FFFF).destination(0xC0A8_3202).down();
    assert_eq!(
        config.steps(),
        vec![
            Setting::Address(0xC0A8_3201),
            Setting::Destination(0xC0A8_3202),
            Setting::Broadcast(0xC0A8_FFFF),
            Setting::Netmask(0xFFFF_0000),
            Setting::Mtu(1480),
            Setting::Enabled(false),
        ]
    );
}
