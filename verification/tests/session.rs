use hc12::ATCommandError;
use hc12::BaudRate;
use hc12::BuildError;
use hc12::Channel;
use hc12::ControlPin;
use hc12::DelaySource;
use hc12::HC12;
use hc12::HC12Builder;
use hc12::HC12Configuration;
use hc12::Power;
use hc12::SubMode;
use hc12::Transport;

/// The transport's own error value.
#[derive(Debug, Clone, Copy, PartialEq, Eq)]
struct MockIoError;

/// A scripted byte-stream: records everything written, and reveals the
/// scripted response only after a write, the way the module answers a
/// command.
struct MockTransport {
    written: Vec<u8>,
    buffered: Vec<u8>,
    respond_with: Option<Vec<u8>>,
    reads: usize,
    fail_write: bool,
}

impl MockTransport {
    fn new() -> Self {
        MockTransport {
            written: Vec::new(),
            buffered: Vec::new(),
            respond_with: None,
            reads: 0,
            fail_write: false,
        }
    }

    fn responding(response: &[u8]) -> Self {
        let mut t = MockTransport::new();
        t.respond_with = Some(response.to_vec());
        t
    }
}

impl Transport for MockTransport {
    type Error = MockIoError;

    fn write_all(&mut self, data: &Vec<u8>) -> Result<(), MockIoError> {
        if self.fail_write {
            return Err(MockIoError);
        }
        self.written.extend_from_slice(data);
        if let Some(response) = &self.respond_with {
            self.buffered = response.clone();
        }
        Ok(())
    }

    fn flush(&mut self) -> Result<(), MockIoError> {
        Ok(())
    }

    fn read_ready(&mut self) -> Result<bool, MockIoError> {
        Ok(!self.buffered.is_empty())
    }

    fn read_chunk(&mut self, max: usize) -> Result<Vec<u8>, MockIoError> {
        self.reads += 1;
        let take = self.buffered.len().min(max);
        let chunk: Vec<u8> = self.buffered.drain(..take).collect();
        Ok(chunk)
    }
}

#[derive(Debug, Clone, Copy, PartialEq, Eq)]
struct MockPinError;

/// A control line that remembers every level it was driven to.
struct MockPin {
    levels: Vec<bool>,
    fail: bool,
}

impl MockPin {
    fn new() -> Self {
        MockPin { levels: Vec::new(), fail: false }
    }
}

impl ControlPin for MockPin {
    type Error = MockPinError;

    fn set_low(&mut self) -> Result<(), MockPinError> {
        if self.fail {
            return Err(MockPinError);
        }
        self.levels.push(false);
        Ok(())
    }

    fn set_high(&mut self) -> Result<(), MockPinError> {
        if self.fail {
            return Err(MockPinError);
        }
        self.levels.push(true);
        Ok(())
    }
}

/// A delay source that only adds up how long it was asked to wait.
struct MockDelay {
    total_ms: u32,
}

impl MockDelay {
    fn new() -> Self {
        MockDelay { total_ms: 0 }
    }
}

impl DelaySource for MockDelay {
    fn delay_ms(&mut self, ms: u32) {
        self.total_ms += ms;
    }
}

fn at_device(
    transport: MockTransport,
) -> HC12<MockTransport, hc12::HC12ProgrammingResources<MockPin, MockDelay>> {
    HC12Builder::new()
        .uart(transport, BaudRate::B9600)
        .programming_resources(MockPin::new(), MockDelay::new())
        .at(HC12Configuration::default())
        .unwrap_or_else(|_| panic!("entering the configuration regime failed"))
}

#[test]
fn send_b9600() {
    let expected_command = b"AT+B9600\r\n";
    let device = at_device(MockTransport::responding(b"OK+B9600\r\n"));
    let device = match device.set_baudrate(BaudRate::B9600) {
        Ok(device) => device,
        Err(e) => e.last,
    };
    let (transport, _resources) = device.into_inner();
    assert_eq!(expected_command, transport.written.as_slice());
}

#[test]
fn run_command_happy_path() {
    let device = at_device(MockTransport::responding(b"OK+B9600\r\n"));
    device.set_baudrate(BaudRate::B9600).map_err(|e| e.error).unwrap();
}

#[test]
fn no_response_reported_without_a_read() {
    let mut device = at_device(MockTransport::new());
    let err = device.set_channel(Channel::new(5).unwrap()).unwrap_err();
    assert!(matches!(err, ATCommandError::NoResponse));
    let (transport, _resources) = device.into_inner();
    assert_eq!(transport.reads, 0);
}

#[test]
fn non_ok_response_carries_the_bytes() {
    let mut device = at_device(MockTransport::responding(b"ERR+CMD\r\n"));
    let err = device.set_power(Power::new(3).unwrap()).unwrap_err();
    match err {
        ATCommandError::NoOk(no_ok) => {
            assert_eq!(no_ok.response.as_bytes().as_slice(), b"ERR+CMD\r\n");
        }
        other => panic!("expected a NoOk failure, got {:?}", other),
    }
}

#[test]
fn transport_error_is_passed_on() {
    let mut transport = MockTransport::new();
    transport.fail_write = true;
    let mut device = at_device(transport);
    let err = device.set_channel(Channel::new(9).unwrap()).unwrap_err();
    assert!(matches!(err, ATCommandError::DeviceError(MockIoError)));
}

#[test]
fn full_round_trip_programs_channel_five() {
    let transport = MockTransport::responding(b"OK+C005\r\n");
    let builder = HC12Builder::new()
        .uart(transport, BaudRate::B9600)
        .programming_resources(MockPin::new(), MockDelay::new());
    let mut device = builder.at(HC12Configuration::default()).unwrap_or_else(|_| {
        panic!("entering the configuration regime failed")
    });

    device.set_channel(Channel::new(5).unwrap()).unwrap();
    assert_eq!(device.configuration().channel.value(), 5);

    let (transport, resources) = device.into_inner();
    assert_eq!(transport.written.as_slice(), b"AT+C005\r\n");
    let (pin, delay) = resources.release();
    assert_eq!(pin.levels, vec![false]);
    assert!(delay.total_ms >= 100);
}

#[test]
fn transparent_restores_the_pair_carried_in() {
    let device = HC12Builder::new()
        .uart(MockTransport::new(), BaudRate::B4800)
        .programming_resources(MockPin::new(), MockDelay::new())
        .mode(SubMode::Fu2)
        .speed(BaudRate::B4800)
        .at(HC12Configuration::default())
        .unwrap_or_else(|_| panic!("entering the configuration regime failed"));
    assert_eq!(device.mode(), SubMode::Fu2);
    assert_eq!(device.speed(), BaudRate::B4800);

    let device = device.into_transparent().map_err(|_| "release failed").unwrap();
    assert_eq!(device.mode(), SubMode::Fu2);
    assert_eq!(device.speed(), BaudRate::B4800);
}

#[test]
fn transparent_restores_a_changed_baud_rate() {
    let device = at_device(MockTransport::responding(b"OK+B19200\r\n"));
    let device = device.set_baudrate(BaudRate::B19200).map_err(|e| e.error).unwrap();
    let device = device.into_transparent().map_err(|_| "release failed").unwrap();
    assert_eq!(device.speed(), BaudRate::B19200);
    assert_eq!(device.mode(), SubMode::Fu3);
}

#[test]
fn incompatible_pairing_is_refused_before_sending() {
    let device = HC12Builder::new()
        .uart(MockTransport::new(), BaudRate::B9600)
        .programming_resources(MockPin::new(), MockDelay::new())
        .mode(SubMode::Fu4)
        .speed(BaudRate::B1200)
        .at(HC12Configuration::default())
        .unwrap_or_else(|_| panic!("entering the configuration regime failed"));

    let err = match device.set_baudrate(BaudRate::B9600) {
        Ok(_) => panic!("an illegal pairing was accepted"),
        Err(e) => e,
    };
    assert!(matches!(
        err.error,
        ATCommandError::IncompatiblePairing(SubMode::Fu4, BaudRate::B9600)
    ));
    let (transport, _resources) = err.last.into_inner();
    assert!(transport.written.is_empty());
}

#[test]
fn builder_refuses_an_illegal_pair() {
    let err = HC12Builder::new()
        .uart(MockTransport::new(), BaudRate::B9600)
        .programming_resources(MockPin::new(), MockDelay::new())
        .mode(SubMode::Fu4)
        .at(HC12Configuration::default())
        .err()
        .unwrap_or_else(|| panic!("an illegal pairing was accepted"));
    assert!(matches!(
        err.error,
        BuildError::IncompatiblePairing(SubMode::Fu4, BaudRate::B9600)
    ));
    assert!(err.uart.written.is_empty());
}

#[test]
fn pin_failure_returns_the_resources() {
    let mut pin = MockPin::new();
    pin.fail = true;
    let err = HC12Builder::new()
        .uart(MockTransport::new(), BaudRate::B9600)
        .programming_resources(pin, MockDelay::new())
        .at(HC12Configuration::default())
        .err()
        .unwrap_or_else(|| panic!("a failing control line was accepted"));
    assert!(matches!(err.error, BuildError::PinError(MockPinError)));
    let (pin, _delay) = err.pin.release();
    assert!(pin.levels.is_empty());
}

#[test]
fn stale_bytes_are_drained_before_a_command() {
    let mut transport = MockTransport::responding(b"OK+C044\r\n");
    transport.buffered = b"stale".to_vec();
    let mut device = at_device(transport);
    device.set_channel(Channel::new(44).unwrap()).unwrap();
    let (transport, _resources) = device.into_inner();
    assert!(transport.reads >= 2);
}

#[test]
fn stolen_uart_keeps_the_device_state() {
    let device = at_device(MockTransport::responding(b"OK+B38400\r\n"));
    let device = device.set_baudrate(BaudRate::B38400).map_err(|e| e.error).unwrap();
    let (device, transport) = device.steal_uart();
    assert_eq!(device.speed(), BaudRate::B38400);
    assert_eq!(transport.written.as_slice(), b"AT+B38400\r\n");
    let device = device.return_uart(MockTransport::new());
    assert_eq!(device.speed(), BaudRate::B38400);
    assert_eq!(device.regime(), hc12::Regime::Configuration);
}

#[test]
fn program_sends_every_setting() {
    let transport = MockTransport::responding(b"OK\r\n");
    let device = HC12Builder::new()
        .uart(transport, BaudRate::B9600)
        .programming_resources(MockPin::new(), MockDelay::new())
        .channel(Channel::new(21).unwrap())
        .power(Power::new(2).unwrap())
        .at(HC12Configuration::new(
            Channel::new(21).unwrap(),
            Power::new(2).unwrap(),
        ))
        .unwrap_or_else(|_| panic!("entering the configuration regime failed"));

    // the scripted transport answers every write, so all four exchanges
    // succeed
    let device = match device.program(SubMode::Fu1, BaudRate::B2400) {
        Ok(device) => device,
        Err(e) => panic!("programming failed: {:?}", e.error),
    };
    assert_eq!(device.mode(), SubMode::Fu1);
    assert_eq!(device.speed(), BaudRate::B2400);
    assert_eq!(device.configuration().channel.value(), 21);
    assert_eq!(device.configuration().power.value(), 2);
    let (transport, _resources) = device.into_inner();
    let written = String::from_utf8(transport.written).unwrap();
    assert_eq!(written, "AT+B2400\r\nAT+FU1\r\nAT+P2\r\nAT+C021\r\n");
}

#[test]
fn transparent_passthrough_moves_bytes() {
    let mut device = HC12Builder::new()
        .uart(MockTransport::new(), BaudRate::B9600)
        .fu3(HC12Configuration::default());
    assert_eq!(device.regime(), hc12::Regime::Transparent);
    device.write(&b"hello".to_vec()).unwrap();
    assert!(!device.read_ready().unwrap());
    let (transport, _marker) = device.into_inner();
    assert_eq!(transport.written.as_slice(), b"hello");
}
