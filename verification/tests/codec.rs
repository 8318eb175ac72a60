use hc12::ATCommandString;
use hc12::BaudRate;
use hc12::Channel;
use hc12::HC12Configuration;
use hc12::InvalidChannelSetting;
use hc12::InvalidPowerSetting;
use hc12::Power;
use hc12::SubMode;
use hc12::classify_response;
use hc12::encode_baud_rate;
use hc12::encode_channel;
use hc12::encode_power;
use hc12::encode_sub_mode;
use hc12::frame_command;

#[test]
fn channel_roundtrip_all_values() {
    for raw in 1u8..=127 {
        let channel = Channel::new(raw).unwrap();
        let command = encode_channel(channel);
        let bytes = command.as_bytes();
        assert_eq!(&bytes[..4], b"AT+C");
        let parsed = (bytes[4] - b'0') as u16 * 100 + (bytes[5] - b'0') as u16 * 10
            + (bytes[6] - b'0') as u16;
        assert_eq!(parsed, raw as u16);
    }
}

#[test]
fn channel_rejects_out_of_range() {
    assert_eq!(Channel::new(0).unwrap_err(), InvalidChannelSetting(0));
    assert_eq!(Channel::new(128).unwrap_err(), InvalidChannelSetting(128));
    assert_eq!(Channel::new(255).unwrap_err(), InvalidChannelSetting(255));
    assert!(Channel::new(1).is_ok());
    assert!(Channel::new(127).is_ok());
}

#[test]
fn power_dbm_table_is_exact() {
    let expected: [(u8, i8); 8] = [
        (1, -1),
        (2, 2),
        (3, 5),
        (4, 8),
        (5, 11),
        (6, 14),
        (7, 17),
        (8, 20),
    ];
    for (level, dbm) in expected {
        let power = Power::new(level).unwrap();
        assert_eq!(power.value(), level);
        assert_eq!(power.dBm(), dbm);
    }
    assert_eq!(Power::new(0).unwrap_err(), InvalidPowerSetting(0));
    assert_eq!(Power::new(9).unwrap_err(), InvalidPowerSetting(9));
}

#[test]
fn encoding_examples_are_exact() {
    let five = Channel::new(5).unwrap();
    assert_eq!(encode_channel(five).as_bytes().as_slice(), b"AT+C005");
    let three = Power::new(3).unwrap();
    assert_eq!(encode_power(three).as_bytes().as_slice(), b"AT+P3");
    assert_eq!(
        encode_baud_rate(BaudRate::B9600).as_bytes().as_slice(),
        b"AT+B9600"
    );
}

#[test]
fn encoding_covers_every_baud_rate() {
    let cases: [(BaudRate, &[u8]); 8] = [
        (BaudRate::B1200, b"AT+B1200"),
        (BaudRate::B2400, b"AT+B2400"),
        (BaudRate::B4800, b"AT+B4800"),
        (BaudRate::B9600, b"AT+B9600"),
        (BaudRate::B19200, b"AT+B19200"),
        (BaudRate::B38400, b"AT+B38400"),
        (BaudRate::B57600, b"AT+B57600"),
        (BaudRate::B115200, b"AT+B115200"),
    ];
    for (baud, expected) in cases {
        assert_eq!(encode_baud_rate(baud).as_bytes().as_slice(), expected);
    }
}

#[test]
fn mode_commands_are_correct() {
    assert_eq!(encode_sub_mode(SubMode::Fu1).as_bytes().as_slice(), b"AT+FU1");
    assert_eq!(encode_sub_mode(SubMode::Fu2).as_bytes().as_slice(), b"AT+FU2");
    assert_eq!(encode_sub_mode(SubMode::Fu3).as_bytes().as_slice(), b"AT+FU3");
    assert_eq!(encode_sub_mode(SubMode::Fu4).as_bytes().as_slice(), b"AT+FU4");
}

#[test]
fn framing_appends_terminator_and_stays_bounded() {
    let framed = frame_command(&encode_baud_rate(BaudRate::B115200));
    assert_eq!(framed.as_bytes().as_slice(), b"AT+B115200\r\n");
    assert!(framed.len() <= 16);
    let framed = frame_command(&encode_channel(Channel::new(127).unwrap()));
    assert_eq!(framed.as_bytes().as_slice(), b"AT+C127\r\n");
}

#[test]
fn recieve_b9600() {
    let response = ATCommandString::capped(b"OK+B9600\r\n".to_vec());
    classify_response(response).unwrap();
}

#[test]
fn receive_non_ok_response() {
    let response = ATCommandString::capped(b"ERR+CMD\r\n".to_vec());
    let err = classify_response(response).unwrap_err();
    assert!(err.response.as_bytes().starts_with(b"ERR+CMD"));
}

#[test]
fn classification_needs_the_exact_marker() {
    assert!(classify_response(ATCommandString::capped(b"ok+B9600".to_vec())).is_err());
    assert!(classify_response(ATCommandString::capped(b"".to_vec())).is_err());
    assert!(classify_response(ATCommandString::capped(b"O".to_vec())).is_err());
    assert!(classify_response(ATCommandString::capped(b"xxOKyy".to_vec())).is_ok());
    assert!(classify_response(ATCommandString::capped(b"nOK".to_vec())).is_ok());
}

#[test]
fn capped_buffer_keeps_first_sixteen_bytes() {
    let long = b"AT+B115200 and then some".to_vec();
    let capped = ATCommandString::capped(long.clone());
    assert_eq!(capped.len(), 16);
    assert_eq!(capped.as_bytes().as_slice(), &long[..16]);
}

#[test]
fn capability_table_enumerated() {
    let all = [
        BaudRate::B1200,
        BaudRate::B2400,
        BaudRate::B4800,
        BaudRate::B9600,
        BaudRate::B19200,
        BaudRate::B38400,
        BaudRate::B57600,
        BaudRate::B115200,
    ];
    let low = [BaudRate::B1200, BaudRate::B2400, BaudRate::B4800];
    for baud in all {
        assert!(SubMode::Fu3.supports(baud));
        assert_eq!(SubMode::Fu1.supports(baud), low.contains(&baud));
        assert_eq!(SubMode::Fu2.supports(baud), low.contains(&baud));
        assert_eq!(SubMode::Fu4.supports(baud), baud == BaudRate::B1200);
    }
}

#[test]
fn baud_rates_report_their_bps() {
    assert_eq!(BaudRate::B1200.bps(), 1200);
    assert_eq!(BaudRate::B2400.bps(), 2400);
    assert_eq!(BaudRate::B4800.bps(), 4800);
    assert_eq!(BaudRate::B9600.bps(), 9600);
    assert_eq!(BaudRate::B19200.bps(), 19200);
    assert_eq!(BaudRate::B38400.bps(), 38400);
    assert_eq!(BaudRate::B57600.bps(), 57600);
    assert_eq!(BaudRate::B115200.bps(), 115200);
}

#[test]
fn configuration_defaults_to_factory_settings() {
    let configuration = HC12Configuration::default();
    assert_eq!(configuration.channel.value(), 1);
    assert_eq!(configuration.power.value(), 8);
    assert_eq!(Channel::default().value(), 1);
    assert_eq!(Power::default().value(), 8);
}
