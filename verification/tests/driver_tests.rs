//! The driver core against mock capabilities: the configuration
//! handshake, the acknowledgment check and the raw buffer transfers.

use std::cell::RefCell;
use std::rc::Rc;

use jdy40_rs::Config;
use jdy40_rs::DelayMs;
use jdy40_rs::Error;
use jdy40_rs::Jdy40AT;
use jdy40_rs::OutputPin;
use jdy40_rs::SerialPort;

/// Everything the mock transport records, shared with the test body.
#[derive(Default)]
struct SerialLog {
    written: Vec<u8>,
    to_read: Vec<u8>,
    read_pos: usize,
    /// When `Some(n)`, every write from the `n`-th on is refused.
    refuse_writes_from: Option<usize>,
    /// When true, an empty read queue refills itself with `OK\r\n`
    /// before each read, echoing an acknowledgment after every command.
    echo_ok: bool,
}

#[derive(Clone)]
struct MockSerial {
    log: Rc<RefCell<SerialLog>>,
}

impl MockSerial {
    fn new(log: &Rc<RefCell<SerialLog>>) -> MockSerial {
        MockSerial { log: Rc::clone(log) }
    }
}

impl SerialPort for MockSerial {
    fn write_byte(&mut self, byte: u8) -> Result<(), ()> {
        let mut log = self.log.borrow_mut();
        if let Some(n) = log.refuse_writes_from {
            if log.written.len() >= n {
                return Err(());
            }
        }
        log.written.push(byte);
        Ok(())
    }

    fn read_byte(&mut self) -> u8 {
        let mut log = self.log.borrow_mut();
        if log.echo_ok && log.read_pos == log.to_read.len() {
            log.to_read.extend_from_slice(b"OK\r\n");
        }
        let b = log.to_read[log.read_pos];
        log.read_pos += 1;
        b
    }
}

#[derive(Clone, Default)]
struct PinLog {
    level: Option<bool>,
    drives: usize,
}

struct MockPin {
    log: Rc<RefCell<PinLog>>,
    fail: bool,
}

impl MockPin {
    fn new(log: &Rc<RefCell<PinLog>>) -> MockPin {
        MockPin { log: Rc::clone(log), fail: false }
    }

    fn failing() -> MockPin {
        MockPin { log: Rc::new(RefCell::new(PinLog::default())), fail: true }
    }
}

impl OutputPin for MockPin {
    fn set_low(&mut self) -> Result<(), ()> {
        if self.fail {
            return Err(());
        }
        let mut log = self.log.borrow_mut();
        log.level = Some(false);
        log.drives += 1;
        Ok(())
    }

    fn set_high(&mut self) -> Result<(), ()> {
        if self.fail {
            return Err(());
        }
        let mut log = self.log.borrow_mut();
        log.level = Some(true);
        log.drives += 1;
        Ok(())
    }
}

struct MockDelay {
    calls: Rc<RefCell<Vec<u16>>>,
}

impl MockDelay {
    fn new(calls: &Rc<RefCell<Vec<u16>>>) -> MockDelay {
        MockDelay { calls: Rc::clone(calls) }
    }
}

impl DelayMs for MockDelay {
    fn delay_ms(&mut self, ms: u16) {
        self.calls.borrow_mut().push(ms);
    }
}

/// The wire bytes of the whole default handshake, in the fixed order
/// power, speed, mode, network, device, channel.
fn default_handshake_bytes() -> Vec<u8> {
    let mut expected = Vec::new();
    expected.extend_from_slice(b"AT+POWE5\r\n");
    expected.extend_from_slice(b"AT+BAUD4\r\n");
    expected.extend_from_slice(b"AT+CLSSA0\r\n");
    expected.extend_from_slice(&[6, 5, 4, 3]);
    expected.extend_from_slice(&[0, 0, 1, 0]);
    expected.extend_from_slice(&[0, 0, 7]);
    expected
}

#[test]
fn apply_default_configuration_succeeds() {
    let serial_log = Rc::new(RefCell::new(SerialLog { echo_ok: true, ..SerialLog::default() }));
    let cs_log = Rc::new(RefCell::new(PinLog::default()));
    let set_log = Rc::new(RefCell::new(PinLog::default()));
    let delays = Rc::new(RefCell::new(Vec::new()));

    let mut jdy = Jdy40AT::new(
        MockSerial::new(&serial_log),
        MockDelay::new(&delays),
        MockPin::new(&cs_log),
        MockPin::new(&set_log),
    )
    .unwrap();

    assert!(jdy.set_config(Config::default()).is_ok());

    let log = serial_log.borrow();
    assert_eq!(log.written, default_handshake_bytes());
    // six exchanges, four acknowledgment bytes each
    assert_eq!(log.read_pos, 24);
    assert_eq!(cs_log.borrow().level, Some(true));
    assert_eq!(set_log.borrow().level, Some(true));
    assert_eq!(*delays.borrow(), vec![2, 2]);
}

#[test]
fn init_applies_the_default_configuration() {
    let serial_log = Rc::new(RefCell::new(SerialLog { echo_ok: true, ..SerialLog::default() }));
    let cs_log = Rc::new(RefCell::new(PinLog::default()));
    let set_log = Rc::new(RefCell::new(PinLog::default()));
    let delays = Rc::new(RefCell::new(Vec::new()));

    let mut jdy = Jdy40AT::new(
        MockSerial::new(&serial_log),
        MockDelay::new(&delays),
        MockPin::new(&cs_log),
        MockPin::new(&set_log),
    )
    .unwrap();

    assert!(jdy.init().is_ok());
    assert_eq!(serial_log.borrow().written, default_handshake_bytes());
}

#[test]
fn mismatched_third_acknowledgment_aborts_the_handshake() {
    let mut to_read = Vec::new();
    to_read.extend_from_slice(b"OK\r\n");
    to_read.extend_from_slice(b"OK\r\n");
    to_read.extend_from_slice(b"NO!\n");
    let serial_log = Rc::new(RefCell::new(SerialLog { to_read, ..SerialLog::default() }));
    let cs_log = Rc::new(RefCell::new(PinLog::default()));
    let set_log = Rc::new(RefCell::new(PinLog::default()));
    let delays = Rc::new(RefCell::new(Vec::new()));

    let mut jdy = Jdy40AT::new(
        MockSerial::new(&serial_log),
        MockDelay::new(&delays),
        MockPin::new(&cs_log),
        MockPin::new(&set_log),
    )
    .unwrap();

    assert_eq!(jdy.set_config(Config::default()), Err(Error::Write));

    // exactly the first three commands went out, nothing after the
    // failed exchange
    let mut expected = Vec::new();
    expected.extend_from_slice(b"AT+POWE5\r\n");
    expected.extend_from_slice(b"AT+BAUD4\r\n");
    expected.extend_from_slice(b"AT+CLSSA0\r\n");
    let log = serial_log.borrow();
    assert_eq!(log.written, expected);
    assert_eq!(log.read_pos, 12);
}

#[test]
fn refused_command_byte_aborts_the_handshake() {
    let serial_log = Rc::new(RefCell::new(SerialLog {
        echo_ok: true,
        // the first command goes out whole, the second stops after 4 bytes
        refuse_writes_from: Some(14),
        ..SerialLog::default()
    }));
    let cs_log = Rc::new(RefCell::new(PinLog::default()));
    let set_log = Rc::new(RefCell::new(PinLog::default()));
    let delays = Rc::new(RefCell::new(Vec::new()));

    let mut jdy = Jdy40AT::new(
        MockSerial::new(&serial_log),
        MockDelay::new(&delays),
        MockPin::new(&cs_log),
        MockPin::new(&set_log),
    )
    .unwrap();

    assert_eq!(jdy.set_config(Config::default()), Err(Error::Write));

    let mut expected = Vec::new();
    expected.extend_from_slice(b"AT+POWE5\r\n");
    expected.extend_from_slice(b"AT+B");
    let log = serial_log.borrow();
    assert_eq!(log.written, expected);
    // only the first exchange's acknowledgment was read
    assert_eq!(log.read_pos, 4);
}

#[test]
fn failed_control_line_aborts_before_any_exchange() {
    let serial_log = Rc::new(RefCell::new(SerialLog { echo_ok: true, ..SerialLog::default() }));
    let delays = Rc::new(RefCell::new(Vec::new()));

    let mut jdy = Jdy40AT::new(
        MockSerial::new(&serial_log),
        MockDelay::new(&delays),
        MockPin::failing(),
        MockPin::failing(),
    )
    .unwrap();

    assert_eq!(jdy.set_config(Config::default()), Err(Error::Write));
    let log = serial_log.borrow();
    assert!(log.written.is_empty());
    assert_eq!(log.read_pos, 0);
}

#[test]
fn is_ok_accepts_only_the_exact_signature() {
    let cases: [(&[u8], bool); 4] = [
        (b"OK\r\n", true),
        (b"OK\n\r", false),
        (b"ok\r\n", false),
        // a 3-byte prefix of the signature followed by a stray byte
        (b"OK\rX", false),
    ];
    for (bytes, expected) in cases {
        let serial_log = Rc::new(RefCell::new(SerialLog {
            to_read: bytes.to_vec(),
            ..SerialLog::default()
        }));
        let delays = Rc::new(RefCell::new(Vec::new()));
        let mut jdy = Jdy40AT::new(
            MockSerial::new(&serial_log),
            MockDelay::new(&delays),
            MockPin::new(&Rc::new(RefCell::new(PinLog::default()))),
            MockPin::new(&Rc::new(RefCell::new(PinLog::default()))),
        )
        .unwrap();
        assert_eq!(jdy.is_ok(), expected);
        assert_eq!(serial_log.borrow().read_pos, 4);
    }
}

#[test]
fn read_buffer_fills_exactly_the_buffer_and_no_more() {
    let serial_log = Rc::new(RefCell::new(SerialLog {
        to_read: vec![1, 2, 3, 4, 5],
        ..SerialLog::default()
    }));
    let delays = Rc::new(RefCell::new(Vec::new()));
    let mut jdy = Jdy40AT::new(
        MockSerial::new(&serial_log),
        MockDelay::new(&delays),
        MockPin::new(&Rc::new(RefCell::new(PinLog::default()))),
        MockPin::new(&Rc::new(RefCell::new(PinLog::default()))),
    )
    .unwrap();

    let mut buf = [0u8; 3];
    assert!(jdy.read_buffer(&mut buf).is_ok());
    assert_eq!(buf, [1, 2, 3]);
    // the remaining two bytes stay unread
    assert_eq!(serial_log.borrow().read_pos, 3);
}

#[test]
fn write_buffer_writes_each_byte_in_order() {
    let serial_log = Rc::new(RefCell::new(SerialLog::default()));
    let delays = Rc::new(RefCell::new(Vec::new()));
    let mut jdy = Jdy40AT::new(
        MockSerial::new(&serial_log),
        MockDelay::new(&delays),
        MockPin::new(&Rc::new(RefCell::new(PinLog::default()))),
        MockPin::new(&Rc::new(RefCell::new(PinLog::default()))),
    )
    .unwrap();

    assert!(jdy.write_buffer(&[0xAA, 0xBB]).is_ok());
    let log = serial_log.borrow();
    assert_eq!(log.written, vec![0xAA, 0xBB]);
    assert_eq!(log.read_pos, 0);
}

#[test]
fn write_buffer_reports_a_refused_byte() {
    let serial_log = Rc::new(RefCell::new(SerialLog {
        refuse_writes_from: Some(1),
        ..SerialLog::default()
    }));
    let delays = Rc::new(RefCell::new(Vec::new()));
    let mut jdy = Jdy40AT::new(
        MockSerial::new(&serial_log),
        MockDelay::new(&delays),
        MockPin::new(&Rc::new(RefCell::new(PinLog::default()))),
        MockPin::new(&Rc::new(RefCell::new(PinLog::default()))),
    )
    .unwrap();

    assert_eq!(jdy.write_buffer(&[0xAA, 0xBB]), Err(Error::Write));
    // the accepted prefix went out before the failure
    assert_eq!(serial_log.borrow().written, vec![0xAA]);
}

#[test]
fn send_command_passes_on_acknowledgment() {
    let serial_log = Rc::new(RefCell::new(SerialLog {
        to_read: b"OK\r\n".to_vec(),
        ..SerialLog::default()
    }));
    let delays = Rc::new(RefCell::new(Vec::new()));
    let mut jdy = Jdy40AT::new(
        MockSerial::new(&serial_log),
        MockDelay::new(&delays),
        MockPin::new(&Rc::new(RefCell::new(PinLog::default()))),
        MockPin::new(&Rc::new(RefCell::new(PinLog::default()))),
    )
    .unwrap();

    assert!(jdy.send_command(b"AT+BAUD4\r\n").is_ok());
    let log = serial_log.borrow();
    assert_eq!(log.written, b"AT+BAUD4\r\n".to_vec());
    assert_eq!(log.read_pos, 4);
}

#[test]
fn send_command_fails_on_mismatched_acknowledgment() {
    let serial_log = Rc::new(RefCell::new(SerialLog {
        to_read: b"KO\r\n".to_vec(),
        ..SerialLog::default()
    }));
    let delays = Rc::new(RefCell::new(Vec::new()));
    let mut jdy = Jdy40AT::new(
        MockSerial::new(&serial_log),
        MockDelay::new(&delays),
        MockPin::new(&Rc::new(RefCell::new(PinLog::default()))),
        MockPin::new(&Rc::new(RefCell::new(PinLog::default()))),
    )
    .unwrap();

    assert_eq!(jdy.send_command(b"AT+BAUD4\r\n"), Err(Error::Write));
    assert_eq!(serial_log.borrow().read_pos, 4);
}
